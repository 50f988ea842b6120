use vstd::prelude::*;

verus! {

/// One of the 16 fixed palette entries (8 base colors and their light
/// variants), or the distinguished `Default` entry that maps to the
/// terminal's own default rendering.
///
/// The real palette entries carry the contiguous device codes 0..=15 in
/// declaration order; `Default` carries the out-of-band negative code -1.
#[derive(Debug, Clone, Copy, PartialEq, Eq, Structural, PartialOrd, Ord, Hash)]
pub enum Color {
    Black,
    Blue,
    Green,
    Cyan,
    Red,
    Pink,
    Yellow,
    White,
    LightBlack,
    LightBlue,
    LightGreen,
    LightCyan,
    LightRed,
    LightPink,
    LightYellow,
    LightWhite,
    Default,
}

impl Color {
    /// The device code of this palette entry: 0..=15 for the real colors in
    /// declaration order, -1 for `Default`.
    pub open spec fn spec_code(self) -> i8 {
        match self {
            Color::Black => 0,
            Color::Blue => 1,
            Color::Green => 2,
            Color::Cyan => 3,
            Color::Red => 4,
            Color::Pink => 5,
            Color::Yellow => 6,
            Color::White => 7,
            Color::LightBlack => 8,
            Color::LightBlue => 9,
            Color::LightGreen => 10,
            Color::LightCyan => 11,
            Color::LightRed => 12,
            Color::LightPink => 13,
            Color::LightYellow => 14,
            Color::LightWhite => 15,
            Color::Default => -1i8,
        }
    }

    /// The device code handed to the external styling primitives.
    pub fn code(self) -> (c: i8)
        ensures
            c == self.spec_code(),
    {
        match self {
            Color::Black => 0,
            Color::Blue => 1,
            Color::Green => 2,
            Color::Cyan => 3,
            Color::Red => 4,
            Color::Pink => 5,
            Color::Yellow => 6,
            Color::White => 7,
            Color::LightBlack => 8,
            Color::LightBlue => 9,
            Color::LightGreen => 10,
            Color::LightCyan => 11,
            Color::LightRed => 12,
            Color::LightPink => 13,
            Color::LightYellow => 14,
            Color::LightWhite => 15,
            Color::Default => -1,
        }
    }
}

/// `Default` is the only palette entry with a negative device code: the code
/// distinguishes it from every real color.
pub proof fn lemma_default_code_out_of_band(c: Color)
    ensures
        c == Color::Default <==> c.spec_code() < 0,
        c != Color::Default ==> 0 <= c.spec_code() <= 15,
{
}

} // verus!
