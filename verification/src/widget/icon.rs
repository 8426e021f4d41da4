//! The glyphs of the icon font.

use vstd::prelude::*;

verus! {

/// An icon of the wallet's own font.
#[derive(Clone, Copy, Debug, PartialEq, Eq, Structural)]
pub enum Icon {
    Artboard,
    Copy,
    ArrowDownToArc,
    ArrowDownFromArc,
    ArrowsExchange,
    At,
}

/// The code point at which the font holds an icon, in its private use area.
pub open spec fn glyph(icon: Icon) -> char {
    match icon {
        Icon::Artboard => '\u{E000}',
        Icon::Copy => '\u{E001}',
        Icon::ArrowDownToArc => '\u{E003}',
        Icon::ArrowDownFromArc => '\u{E004}',
        Icon::ArrowsExchange => '\u{E005}',
        Icon::At => '\u{E006}',
    }
}

impl Icon {
    /// The character that draws this icon.
    pub fn as_char(&self) -> (c: char)
        ensures
            c == glyph(*self),
    {
        match self {
            Icon::Artboard => '\u{E000}',
            Icon::Copy => '\u{E001}',
            Icon::ArrowDownToArc => '\u{E003}',
            Icon::ArrowDownFromArc => '\u{E004}',
            Icon::ArrowsExchange => '\u{E005}',
            Icon::At => '\u{E006}',
        }
    }
}

/// No two icons share a glyph.
pub proof fn lemma_glyphs_differ(a: Icon, b: Icon)
    requires
        a != b,
    ensures
        glyph(a) != glyph(b),
{
}

} // verus!
