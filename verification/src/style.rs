//! Visual styling model: colors, text styles, border kinds, and styled
//! text fragments. A `Style` is a plain value, so contracts can speak of
//! it directly; the drawing layer outside this crate maps it onto the
//! terminal backend's own style type.

use vstd::prelude::*;

verus! {

/// An RGB color.
#[derive(Clone, Copy, Debug, PartialEq, Eq)]
pub struct Color {
    pub r: u8,
    pub g: u8,
    pub b: u8,
}

/// A visual style for a text fragment or a border: an optional foreground
/// color plus font modifiers. `fg == None` means the terminal default.
#[derive(Clone, Copy, Debug, PartialEq, Eq)]
pub struct Style {
    pub fg: Option<Color>,
    pub bold: bool,
    pub italic: bool,
    pub underline: bool,
    pub dim: bool,
}

impl Default for Style {
    /// The terminal's default look: no color, no modifiers.
    fn default() -> (r: Style)
        ensures
            r == Style::plain(),
    {
        Style { fg: None, bold: false, italic: false, underline: false, dim: false }
    }
}

impl Style {
    /// The default style as a spec-level constant.
    pub open spec fn plain() -> Style {
        Style { fg: None, bold: false, italic: false, underline: false, dim: false }
    }

    /// The de-emphasized style used for the line-number gutter.
    pub open spec fn spec_dimmed() -> Style {
        Style { fg: None, bold: false, italic: false, underline: false, dim: true }
    }

    /// The de-emphasized style used for the line-number gutter.
    pub fn dimmed() -> (r: Style)
        ensures
            r == Style::spec_dimmed(),
    {
        Style { fg: None, bold: false, italic: false, underline: false, dim: true }
    }

    /// Decode a foreground color and a font-modifier bit set
    /// (bit 0 = bold, bit 1 = underline, bit 2 = italic) into a `Style`.
    pub fn from_rgb_bits(r: u8, g: u8, b: u8, bits: u8) -> (s: Style)
        ensures
            s == (Style {
                fg: Some(Color { r, g, b }),
                bold: bits & 1 != 0,
                italic: bits & 4 != 0,
                underline: bits & 2 != 0,
                dim: false,
            }),
    {
        Style {
            fg: Some(Color { r, g, b }),
            bold: bits & 1 != 0,
            italic: bits & 4 != 0,
            underline: bits & 2 != 0,
            dim: false,
        }
    }
}

/// The kind of border drawn around a pane.
#[derive(Clone, Copy, Debug, PartialEq, Eq, Structural)]
pub enum BorderKind {
    Plain,
    Thick,
}

/// One styled piece of text within a rendered line.
#[derive(Clone, Debug, PartialEq, Eq)]
pub struct Fragment {
    pub style: Style,
    pub text: String,
}

impl Fragment {
    /// The mathematical value of a fragment: its style and the character
    /// sequence of its text.
    pub open spec fn model(self) -> (Style, Seq<char>) {
        (self.style, self.text@)
    }
}

/// The mathematical value of one rendered line: its fragments in order.
pub open spec fn line_model(l: Seq<Fragment>) -> Seq<(Style, Seq<char>)> {
    l.map(|i: int, f: Fragment| f.model())
}

/// The mathematical value of a render cache: its lines in order.
pub open spec fn cache_model(c: Seq<Vec<Fragment>>) -> Seq<Seq<(Style, Seq<char>)>> {
    c.map(|i: int, l: Vec<Fragment>| line_model(l@))
}

/// The text of one rendered line: its fragment texts concatenated, in
/// order, styles disregarded.
pub open spec fn frags_text(l: Seq<(Style, Seq<char>)>) -> Seq<char>
    decreases l.len(),
{
    if l.len() == 0 {
        Seq::empty()
    } else {
        l[0].1 + frags_text(l.drop_first())
    }
}

} // verus!
