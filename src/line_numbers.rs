//! The gutter of the code editor: one line number per line of the edited text,
//! recomputed from the full text on every change.

use vstd::prelude::*;

verus! {

/// One entry of the gutter.
#[derive(Debug, Clone, Copy, PartialEq, Eq, Structural)]
pub enum LineNumber {
    /// A visually wrapped continuation line, which has no number of its own.
    Blank,
    /// A real line, numbered from 1.
    Present(usize),
}

/// The number of line terminators (`'\n'`) in `s`.
pub open spec fn newline_count(s: Seq<char>) -> nat
    decreases s.len(),
{
    if s.len() == 0 {
        0
    } else {
        newline_count(s.drop_last()) + if s.last() == '\n' {
            1nat
        } else {
            0nat
        }
    }
}

/// The gutter for `text`: `Present(1)` .. `Present(n + 1)`, where `n` counts the
/// line terminators. A text that is empty or ends in a terminator thus gets one
/// more number than it has lines, for the line that the caret stands on.
pub open spec fn gutter_of(text: Seq<char>) -> Seq<LineNumber> {
    Seq::new(newline_count(text) + 1, |i: int| LineNumber::Present((i + 1) as usize))
}

/// Computes the gutter for the full text of the editor. (A `str` never holds
/// `usize::MAX` characters: its bytes fit in `isize`.)
pub fn line_numbers(text: &str) -> (r: Vec<LineNumber>)
    requires
        text@.len() < usize::MAX,
    ensures
        r@ == gutter_of(text@),
{
    let len = text.unicode_len();
    let mut count: usize = 0;
    let mut i: usize = 0;
    while i < len
        invariant
            len == text@.len(),
            i <= len,
            count <= i,
            count == newline_count(text@.subrange(0, i as int)),
        decreases len - i,
    {
        let c = text.get_char(i);
        proof {
            assert(text@.subrange(0, i + 1).drop_last() =~= text@.subrange(0, i as int));
        }
        if c == '\n' {
            count = count + 1;
        }
        i = i + 1;
    }
    proof {
        assert(text@.subrange(0, len as int) =~= text@);
    }
    let mut r: Vec<LineNumber> = Vec::new();
    let mut k: usize = 0;
    while k <= count
        invariant
            count <= len,
            len < usize::MAX,
            count == newline_count(text@),
            k <= count + 1,
            r@.len() == k,
            forall|j: int| 0 <= j < k ==> r@[j] == LineNumber::Present((j + 1) as usize),
        decreases count + 1 - k,
    {
        r.push(LineNumber::Present(k + 1));
        k = k + 1;
    }
    assert(r@ =~= gutter_of(text@));
    r
}

/// The gutter has one entry per line terminator plus one, and numbers its
/// entries consecutively from 1.
pub proof fn lemma_gutter_counts_lines(text: Seq<char>)
    ensures
        gutter_of(text).len() == newline_count(text) + 1,
        forall|i: int|
            0 <= i < gutter_of(text).len() ==> #[trigger] gutter_of(text)[i]
                == LineNumber::Present((i + 1) as usize),
{
}

} // verus!
