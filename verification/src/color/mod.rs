//! The colour model: three wire formats behind one closed type.
pub mod classic_term;
pub mod eight_bit;
pub mod tagged;
pub mod true_color;

use vstd::prelude::*;
pub use crate::color::classic_term::FourBitColor;
pub use crate::color::eight_bit::EightBitColor;
pub use crate::color::true_color::TrueColor;

verus! {

/// What every colour format renders.
///
/// None of these looks at the environment: whether styling is wanted at all
/// is the caller's question.
pub trait DisplayColor: Into<Color> {
    /// The format's own text: mode selector and parameters.
    spec fn payload_spec(&self) -> Seq<char>;

    /// The complete sequence that sets the text colour.
    spec fn color_spec(&self) -> Seq<char>;

    /// The complete sequence that sets the background colour.
    spec fn background_color_spec(&self) -> Seq<char>;

    /// Renders the format's own text.
    fn payload(&self) -> (text: String)
        ensures
            text@ == self.payload_spec(),
    ;

    /// Renders the sequence that sets the text colour.
    fn color(&self) -> (text: String)
        ensures
            text@ == self.color_spec(),
    ;

    /// Renders the sequence that sets the background colour.
    fn background_color(&self) -> (text: String)
        ensures
            text@ == self.background_color_spec(),
    ;
}

/// The sixteen colour names, free of any format.
///
/// Through `Color::from` a name is its entry among the first sixteen of the
/// 256-colour palette; `four_bit` gives the classic colour of the same name.
#[derive(Debug, Clone, Copy, PartialEq, Eq, Structural)]
pub enum DefaultColor {
    Black,
    Red,
    Green,
    Yellow,
    Blue,
    Magenta,
    Cyan,
    White,
    Gray,
    BrightRed,
    BrightGreen,
    BrightYellow,
    BrightBlue,
    BrightMagenta,
    BrightCyan,
    BrightWhite,
}

impl DefaultColor {
    /// The name's place among the sixteen, black first, bright white last.
    pub open spec fn index(&self) -> nat {
        match self {
            DefaultColor::Black => 0,
            DefaultColor::Red => 1,
            DefaultColor::Green => 2,
            DefaultColor::Yellow => 3,
            DefaultColor::Blue => 4,
            DefaultColor::Magenta => 5,
            DefaultColor::Cyan => 6,
            DefaultColor::White => 7,
            DefaultColor::Gray => 8,
            DefaultColor::BrightRed => 9,
            DefaultColor::BrightGreen => 10,
            DefaultColor::BrightYellow => 11,
            DefaultColor::BrightBlue => 12,
            DefaultColor::BrightMagenta => 13,
            DefaultColor::BrightCyan => 14,
            DefaultColor::BrightWhite => 15,
        }
    }
}

/// The format in which a colour name is rendered.
#[derive(Debug, Clone, Copy, PartialEq, Eq, Structural)]
pub enum DefaultMode {
    /// As an entry of the 256-colour palette.
    EightBit,
    /// As a classic colour.
    FourBit,
}

impl DefaultColor {
    /// The colour of this name in the chosen format: the palette entry of
    /// the name's place, or the classic colour of the same name.
    pub open spec fn color_in_spec(&self, mode: DefaultMode) -> Color {
        match mode {
            DefaultMode::EightBit => Color::EightBitColor(EightBitColor(self.index() as u8)),
            DefaultMode::FourBit => Color::FourBitColor(FourBitColor::with_value(self.index())),
        }
    }

    /// The colour of this name in the chosen format.
    pub fn color_in(&self, mode: DefaultMode) -> (color: Color)
        ensures
            color == self.color_in_spec(mode),
    {
        match mode {
            DefaultMode::EightBit => Color::from(*self),
            DefaultMode::FourBit => Color::FourBitColor(self.four_bit()),
        }
    }
}

/// A colour in any of the three formats.
#[derive(Debug, Clone, Copy, PartialEq, Eq, Structural)]
pub enum Color {
    /// 24-bit colour.
    TrueColor(TrueColor),
    /// An entry of the 256-colour palette.
    EightBitColor(EightBitColor),
    /// One of the sixteen classic colours.
    FourBitColor(FourBitColor),
}

impl DisplayColor for Color {
    open spec fn payload_spec(&self) -> Seq<char> {
        match self {
            Color::TrueColor(color) => color.payload_spec(),
            Color::EightBitColor(color) => color.payload_spec(),
            Color::FourBitColor(color) => color.payload_spec(),
        }
    }

    open spec fn color_spec(&self) -> Seq<char> {
        match self {
            Color::TrueColor(color) => color.color_spec(),
            Color::EightBitColor(color) => color.color_spec(),
            Color::FourBitColor(color) => color.color_spec(),
        }
    }

    open spec fn background_color_spec(&self) -> Seq<char> {
        match self {
            Color::TrueColor(color) => color.background_color_spec(),
            Color::EightBitColor(color) => color.background_color_spec(),
            Color::FourBitColor(color) => color.background_color_spec(),
        }
    }

    fn payload(&self) -> (text: String) {
        match self {
            Color::TrueColor(color) => color.payload(),
            Color::EightBitColor(color) => color.payload(),
            Color::FourBitColor(color) => color.payload(),
        }
    }

    fn color(&self) -> (text: String) {
        match self {
            Color::TrueColor(color) => color.color(),
            Color::EightBitColor(color) => color.color(),
            Color::FourBitColor(color) => color.color(),
        }
    }

    fn background_color(&self) -> (text: String) {
        match self {
            Color::TrueColor(color) => color.background_color(),
            Color::EightBitColor(color) => color.background_color(),
            Color::FourBitColor(color) => color.background_color(),
        }
    }
}

} // verus!
