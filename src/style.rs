//! The style mirror: the gutter must show its numbers with the same glyph and
//! box metrics as the editable surface, so a fixed set of style properties is
//! copied from the one onto the other once the editor has been mounted.

use vstd::prelude::*;

verus! {

/// A style property that the gutter mirrors from the editable surface.
#[derive(Debug, Clone, Copy, PartialEq, Eq, Structural)]
pub enum StyleProperty {
    FontFamily,
    FontSize,
    FontWeight,
    LetterSpacing,
    LineHeight,
    Padding,
}

/// The CSS name of `p`.
pub open spec fn css_name_of(p: StyleProperty) -> Seq<char> {
    match p {
        StyleProperty::FontFamily => "font-family"@,
        StyleProperty::FontSize => "font-size"@,
        StyleProperty::FontWeight => "font-weight"@,
        StyleProperty::LetterSpacing => "letter-spacing"@,
        StyleProperty::LineHeight => "line-height"@,
        StyleProperty::Padding => "padding"@,
    }
}

/// The mirrored properties, in the order in which they are copied.
pub open spec fn mirrored_list() -> Seq<StyleProperty> {
    seq![
        StyleProperty::FontFamily,
        StyleProperty::FontSize,
        StyleProperty::FontWeight,
        StyleProperty::LetterSpacing,
        StyleProperty::LineHeight,
        StyleProperty::Padding,
    ]
}

impl StyleProperty {
    /// The CSS name of this property, as the DOM's style API takes it.
    pub fn css_name(&self) -> (r: &'static str)
        ensures
            r@ == css_name_of(*self),
    {
        match self {
            StyleProperty::FontFamily => "font-family",
            StyleProperty::FontSize => "font-size",
            StyleProperty::FontWeight => "font-weight",
            StyleProperty::LetterSpacing => "letter-spacing",
            StyleProperty::LineHeight => "line-height",
            StyleProperty::Padding => "padding",
        }
    }
}

/// The mirrored properties, in the order in which they are copied.
pub fn mirrored_properties() -> (r: Vec<StyleProperty>)
    ensures
        r@ == mirrored_list(),
{
    let r = vec![
        StyleProperty::FontFamily,
        StyleProperty::FontSize,
        StyleProperty::FontWeight,
        StyleProperty::LetterSpacing,
        StyleProperty::LineHeight,
        StyleProperty::Padding,
    ];
    assert(r@ =~= mirrored_list());
    r
}

/// The values of the mirrored properties on one element, as CSS text. An empty
/// value is an unset property, as the DOM reports it.
#[derive(Debug, Clone, PartialEq, Eq)]
pub struct ElementStyle {
    pub font_family: String,
    pub font_size: String,
    pub font_weight: String,
    pub letter_spacing: String,
    pub line_height: String,
    pub padding: String,
}

impl ElementStyle {
    /// The value of `p` on this element.
    pub open spec fn value(&self, p: StyleProperty) -> Seq<char> {
        match p {
            StyleProperty::FontFamily => self.font_family@,
            StyleProperty::FontSize => self.font_size@,
            StyleProperty::FontWeight => self.font_weight@,
            StyleProperty::LetterSpacing => self.letter_spacing@,
            StyleProperty::LineHeight => self.line_height@,
            StyleProperty::Padding => self.padding@,
        }
    }

    /// An element with none of the properties set.
    pub fn new() -> (r: ElementStyle)
        ensures
            forall|p: StyleProperty| #[trigger] r.value(p) == Seq::<char>::empty(),
    {
        ElementStyle {
            font_family: String::new(),
            font_size: String::new(),
            font_weight: String::new(),
            letter_spacing: String::new(),
            line_height: String::new(),
            padding: String::new(),
        }
    }

    /// The value of `p`.
    pub fn get(&self, p: StyleProperty) -> (r: &String)
        ensures
            r@ == self.value(p),
    {
        match p {
            StyleProperty::FontFamily => &self.font_family,
            StyleProperty::FontSize => &self.font_size,
            StyleProperty::FontWeight => &self.font_weight,
            StyleProperty::LetterSpacing => &self.letter_spacing,
            StyleProperty::LineHeight => &self.line_height,
            StyleProperty::Padding => &self.padding,
        }
    }

    /// Sets `p` to `v`, leaving the other properties as they were.
    pub fn set(&mut self, p: StyleProperty, v: String)
        ensures
            final(self).value(p) == v@,
            forall|q: StyleProperty| q != p ==> #[trigger] final(self).value(q) == old(self).value(q),
    {
        match p {
            StyleProperty::FontFamily => self.font_family = v,
            StyleProperty::FontSize => self.font_size = v,
            StyleProperty::FontWeight => self.font_weight = v,
            StyleProperty::LetterSpacing => self.letter_spacing = v,
            StyleProperty::LineHeight => self.line_height = v,
            StyleProperty::Padding => self.padding = v,
        }
    }
}

/// Whether `gutter` shows every mirrored property of `source` verbatim.
pub open spec fn mirrors(source: ElementStyle, gutter: ElementStyle) -> bool {
    forall|p: StyleProperty| #[trigger] gutter.value(p) == source.value(p)
}

/// Copies each mirrored property of the editable surface's computed style,
/// verbatim, onto the gutter.
pub fn match_text_style(source: &ElementStyle, gutter: &mut ElementStyle)
    ensures
        mirrors(*source, *final(gutter)),
{
    let props = mirrored_properties();
    let mut i: usize = 0;
    while i < props.len()
        invariant
            props@ == mirrored_list(),
            i <= props@.len(),
            forall|j: int| 0 <= j < i ==> #[trigger] gutter.value(props@[j]) == source.value(props@[j]),
        decreases props@.len() - i,
    {
        let p = props[i];
        gutter.set(p, source.get(p).clone());
        i = i + 1;
    }
    assert forall|p: StyleProperty| #[trigger] gutter.value(p) == source.value(p) by {
        match p {
            StyleProperty::FontFamily => assert(props@[0] == p),
            StyleProperty::FontSize => assert(props@[1] == p),
            StyleProperty::FontWeight => assert(props@[2] == p),
            StyleProperty::LetterSpacing => assert(props@[3] == p),
            StyleProperty::LineHeight => assert(props@[4] == p),
            StyleProperty::Padding => assert(props@[5] == p),
        }
    }
}

/// Mirroring a second time changes nothing: once the gutter mirrors the
/// source, mirroring the source again leaves every property as it was.
pub proof fn lemma_mirror_twice_same_as_once(
    source: ElementStyle,
    once: ElementStyle,
    twice: ElementStyle,
)
    requires
        mirrors(source, once),
        mirrors(source, twice),
    ensures
        forall|p: StyleProperty| #[trigger] twice.value(p) == once.value(p),
{
}

} // verus!
