//! The decisions of the code editor's two actions. Reading and writing the
//! editable surface is left to the caller; what the actions do with what was
//! read is decided here.

use vstd::prelude::*;

verus! {

/// The result of formatting the editor's text in place.
#[derive(Debug, PartialEq, Eq)]
pub enum FormatOutcome {
    /// The text parsed; the editor now holds its formatted rendering.
    Formatted(String),
    /// The text did not parse; the editor keeps `original`, and `message` says why.
    ParseFailed { original: String, message: String },
}

/// The text that the editor holds after `o`.
pub open spec fn text_after(o: FormatOutcome) -> Seq<char> {
    match o {
        FormatOutcome::Formatted(t) => t@,
        FormatOutcome::ParseFailed { original, .. } => original@,
    }
}

impl FormatOutcome {
    /// The text that the editor holds afterwards. The caller writes it back and
    /// raises the editor's change notification, so that the gutter follows.
    pub fn text(&self) -> (r: &String)
        ensures
            r@ == text_after(*self),
    {
        match self {
            FormatOutcome::Formatted(t) => t,
            FormatOutcome::ParseFailed { original, .. } => original,
        }
    }

    /// Whether the text failed to parse.
    pub fn is_parse_failure(&self) -> (r: bool)
        ensures
            r == (*self is ParseFailed),
    {
        match self {
            FormatOutcome::Formatted(_) => false,
            FormatOutcome::ParseFailed { .. } => true,
        }
    }
}

/// Decides the format-in-place action from the editor's `original` text and
/// what the formatter made of it: its rendering, or the parse error.
pub fn format_outcome(original: String, formatted: Result<String, String>) -> (r: FormatOutcome)
    ensures
        match formatted {
            Ok(t) => r == FormatOutcome::Formatted(t),
            Err(m) => r == (FormatOutcome::ParseFailed { original, message: m }),
        },
{
    match formatted {
        Ok(t) => FormatOutcome::Formatted(t),
        Err(m) => FormatOutcome::ParseFailed { original, message: m },
    }
}

/// The text that a submit hands on: the editor's text verbatim, or the empty
/// text where the editable surface could not be found.
pub fn submitted_text(found: Option<String>) -> (r: String)
    ensures
        match found {
            Some(t) => r == t,
            None => r@ == Seq::<char>::empty(),
        },
{
    match found {
        Some(t) => t,
        None => String::new(),
    }
}

} // verus!
