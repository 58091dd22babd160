//! The sixteen classic colours.
use vstd::prelude::*;
use vstd::std_specs::convert::FromSpecImpl;
use crate::color::{Color, DefaultColor, DisplayColor};
use crate::decimal::{parse_byte, parsed_byte};
use crate::error::{InvalidStyleError, StyleError};
use crate::escape::{classic, classic_sequence};

verus! {

/// One of the sixteen classic colours: eight normal ones and their bright
/// forms. Only use this for the sake of older terminals.
#[derive(Debug, Clone, Copy, PartialEq, Eq, Structural)]
pub enum FourBitColor {
    Black,
    Red,
    Green,
    Yellow,
    Blue,
    Magenta,
    Cyan,
    White,
    Gray,
    BrightRed,
    BrightGreen,
    BrightYellow,
    BrightBlue,
    BrightMagenta,
    BrightCyan,
    BrightWhite,
}

/// The colour number, 0 to 15, that a raw code stands for, if it stands for
/// one: a number already in that range, or a rendition code for text colour
/// (30 to 37, bright 90 to 97) or for background (40 to 47, bright 100 to
/// 107), less its base. Bright codes land in 8 to 15.
pub open spec fn raw_value(code: u8) -> Option<nat> {
    if code <= 15 {
        Some(code as nat)
    } else if 30 <= code <= 37 {
        Some((code - 30) as nat)
    } else if 40 <= code <= 47 {
        Some((code - 40) as nat)
    } else if 90 <= code <= 97 {
        Some((code - 90 + 8) as nat)
    } else if 100 <= code <= 107 {
        Some((code - 100 + 8) as nat)
    } else {
        None
    }
}

/// The rendition code that selects colour number `value` as text colour: base
/// 30 for the normal colours, base 90 for the bright ones.
pub open spec fn foreground_code_of(value: nat) -> nat {
    if value < 8 {
        30 + value
    } else {
        (90 + value - 8) as nat
    }
}

/// The rendition code that selects colour number `value` as background: base
/// 40 for the normal colours, base 100 for the bright ones.
pub open spec fn background_code_of(value: nat) -> nat {
    if value < 8 {
        40 + value
    } else {
        (100 + value - 8) as nat
    }
}

impl FourBitColor {
    /// The colour's number: 0 to 7 for black to white, 8 to 15 for gray and
    /// the bright colours.
    pub open spec fn value_spec(&self) -> nat {
        match self {
            FourBitColor::Black => 0,
            FourBitColor::Red => 1,
            FourBitColor::Green => 2,
            FourBitColor::Yellow => 3,
            FourBitColor::Blue => 4,
            FourBitColor::Magenta => 5,
            FourBitColor::Cyan => 6,
            FourBitColor::White => 7,
            FourBitColor::Gray => 8,
            FourBitColor::BrightRed => 9,
            FourBitColor::BrightGreen => 10,
            FourBitColor::BrightYellow => 11,
            FourBitColor::BrightBlue => 12,
            FourBitColor::BrightMagenta => 13,
            FourBitColor::BrightCyan => 14,
            FourBitColor::BrightWhite => 15,
        }
    }

    /// The colour's number.
    pub fn value(&self) -> (value: u8)
        ensures
            value == self.value_spec(),
            value <= 15,
    {
        match self {
            FourBitColor::Black => 0,
            FourBitColor::Red => 1,
            FourBitColor::Green => 2,
            FourBitColor::Yellow => 3,
            FourBitColor::Blue => 4,
            FourBitColor::Magenta => 5,
            FourBitColor::Cyan => 6,
            FourBitColor::White => 7,
            FourBitColor::Gray => 8,
            FourBitColor::BrightRed => 9,
            FourBitColor::BrightGreen => 10,
            FourBitColor::BrightYellow => 11,
            FourBitColor::BrightBlue => 12,
            FourBitColor::BrightMagenta => 13,
            FourBitColor::BrightCyan => 14,
            FourBitColor::BrightWhite => 15,
        }
    }

    /// The colour with the given number.
    pub open spec fn with_value(value: nat) -> Self
        recommends
            value <= 15,
    {
        if value == 0 {
            FourBitColor::Black
        } else if value == 1 {
            FourBitColor::Red
        } else if value == 2 {
            FourBitColor::Green
        } else if value == 3 {
            FourBitColor::Yellow
        } else if value == 4 {
            FourBitColor::Blue
        } else if value == 5 {
            FourBitColor::Magenta
        } else if value == 6 {
            FourBitColor::Cyan
        } else if value == 7 {
            FourBitColor::White
        } else if value == 8 {
            FourBitColor::Gray
        } else if value == 9 {
            FourBitColor::BrightRed
        } else if value == 10 {
            FourBitColor::BrightGreen
        } else if value == 11 {
            FourBitColor::BrightYellow
        } else if value == 12 {
            FourBitColor::BrightBlue
        } else if value == 13 {
            FourBitColor::BrightMagenta
        } else if value == 14 {
            FourBitColor::BrightCyan
        } else {
            FourBitColor::BrightWhite
        }
    }

    /// The colour that a raw code stands for, if it stands for one.
    pub open spec fn from_raw_spec(code: u8) -> Option<Self> {
        match raw_value(code) {
            Some(value) => Some(Self::with_value(value)),
            None => None,
        }
    }

    /// The colour with the given number.
    pub fn from_value(value: u8) -> (color: Self)
        requires
            value <= 15,
        ensures
            color == Self::with_value(value as nat),
            color.value_spec() == value,
    {
        match value {
            0 => FourBitColor::Black,
            1 => FourBitColor::Red,
            2 => FourBitColor::Green,
            3 => FourBitColor::Yellow,
            4 => FourBitColor::Blue,
            5 => FourBitColor::Magenta,
            6 => FourBitColor::Cyan,
            7 => FourBitColor::White,
            8 => FourBitColor::Gray,
            9 => FourBitColor::BrightRed,
            10 => FourBitColor::BrightGreen,
            11 => FourBitColor::BrightYellow,
            12 => FourBitColor::BrightBlue,
            13 => FourBitColor::BrightMagenta,
            14 => FourBitColor::BrightCyan,
            _ => FourBitColor::BrightWhite,
        }
    }

    /// Makes the colour that a raw code stands for.
    ///
    /// Succeeds exactly on the codes that `raw_value` knows, with the colour
    /// of that number; every other byte is refused.
    pub fn from_raw(code: u8) -> (made: Result<Self, InvalidStyleError>)
        ensures
            match made {
                Ok(color) => Self::from_raw_spec(code) == Some(color),
                Err(_) => Self::from_raw_spec(code) is None,
            },
    {
        if code <= 15 {
            Ok(Self::from_value(code))
        } else if 30 <= code && code <= 37 {
            Ok(Self::from_value(code - 30))
        } else if 40 <= code && code <= 47 {
            Ok(Self::from_value(code - 40))
        } else if 90 <= code && code <= 97 {
            Ok(Self::from_value(code - 90 + 8))
        } else if 100 <= code && code <= 107 {
            Ok(Self::from_value(code - 100 + 8))
        } else {
            Err(InvalidStyleError)
        }
    }

    /// Reads a colour from the decimal numeral of a raw code.
    ///
    /// Text that is no numeral of a byte gives `StyleError::Parse`; a byte
    /// that is no raw code gives `StyleError::Invalid`.
    pub fn from_str(s: &str) -> (parsed: Result<Self, StyleError>)
        ensures
            match parsed {
                Ok(color) => parsed_byte(s@) is Some && Self::from_raw_spec(parsed_byte(s@)->0)
                    == Some(color),
                Err(StyleError::Parse) => parsed_byte(s@) is None,
                Err(StyleError::Invalid) => parsed_byte(s@) is Some && Self::from_raw_spec(
                    parsed_byte(s@)->0,
                ) is None,
            },
    {
        match parse_byte(s) {
            Ok(code) => match Self::from_raw(code) {
                Ok(color) => Ok(color),
                Err(_) => Err(StyleError::Invalid),
            },
            Err(_) => Err(StyleError::Parse),
        }
    }

    /// The code of this colour as text colour.
    pub fn foreground_code(&self) -> (code: u8)
        ensures
            code == foreground_code_of(self.value_spec()),
    {
        match self {
            FourBitColor::Black => 30,
            FourBitColor::Red => 31,
            FourBitColor::Green => 32,
            FourBitColor::Yellow => 33,
            FourBitColor::Blue => 34,
            FourBitColor::Magenta => 35,
            FourBitColor::Cyan => 36,
            FourBitColor::White => 37,
            FourBitColor::Gray => 90,
            FourBitColor::BrightRed => 91,
            FourBitColor::BrightGreen => 92,
            FourBitColor::BrightYellow => 93,
            FourBitColor::BrightBlue => 94,
            FourBitColor::BrightMagenta => 95,
            FourBitColor::BrightCyan => 96,
            FourBitColor::BrightWhite => 97,
        }
    }

    /// The code of this colour as background.
    pub fn background_code(&self) -> (code: u8)
        ensures
            code == background_code_of(self.value_spec()),
    {
        match self {
            FourBitColor::Black => 40,
            FourBitColor::Red => 41,
            FourBitColor::Green => 42,
            FourBitColor::Yellow => 43,
            FourBitColor::Blue => 44,
            FourBitColor::Magenta => 45,
            FourBitColor::Cyan => 46,
            FourBitColor::White => 47,
            FourBitColor::Gray => 100,
            FourBitColor::BrightRed => 101,
            FourBitColor::BrightGreen => 102,
            FourBitColor::BrightYellow => 103,
            FourBitColor::BrightBlue => 104,
            FourBitColor::BrightMagenta => 105,
            FourBitColor::BrightCyan => 106,
            FourBitColor::BrightWhite => 107,
        }
    }
}

impl core::str::FromStr for FourBitColor {
    type Err = StyleError;

    fn from_str(s: &str) -> (parsed: Result<Self, StyleError>)
        ensures
            match parsed {
                Ok(color) => parsed_byte(s@) is Some && Self::from_raw_spec(parsed_byte(s@)->0)
                    == Some(color),
                Err(StyleError::Parse) => parsed_byte(s@) is None,
                Err(StyleError::Invalid) => parsed_byte(s@) is Some && Self::from_raw_spec(
                    parsed_byte(s@)->0,
                ) is None,
            },
    {
        FourBitColor::from_str(s)
    }
}

impl DisplayColor for FourBitColor {
    /// A classic colour has no payload for the generic wrapping: its own text
    /// is its complete text-colour sequence.
    open spec fn payload_spec(&self) -> Seq<char> {
        self.color_spec()
    }

    /// Escape, `[1;`, the text-colour code, `m`; never the generic selector.
    open spec fn color_spec(&self) -> Seq<char> {
        classic_sequence(foreground_code_of(self.value_spec()))
    }

    /// Escape, `[1;`, the background code, `m`; never the generic selector.
    open spec fn background_color_spec(&self) -> Seq<char> {
        classic_sequence(background_code_of(self.value_spec()))
    }

    fn payload(&self) -> (text: String) {
        self.color()
    }

    fn color(&self) -> (text: String) {
        classic(self.foreground_code())
    }

    fn background_color(&self) -> (text: String) {
        classic(self.background_code())
    }
}

impl DefaultColor {
    /// The classic colour of the same name.
    pub fn four_bit(&self) -> (color: FourBitColor)
        ensures
            color == FourBitColor::with_value(self.index()),
    {
        match self {
            DefaultColor::Black => FourBitColor::Black,
            DefaultColor::Red => FourBitColor::Red,
            DefaultColor::Green => FourBitColor::Green,
            DefaultColor::Yellow => FourBitColor::Yellow,
            DefaultColor::Blue => FourBitColor::Blue,
            DefaultColor::Magenta => FourBitColor::Magenta,
            DefaultColor::Cyan => FourBitColor::Cyan,
            DefaultColor::White => FourBitColor::White,
            DefaultColor::Gray => FourBitColor::Gray,
            DefaultColor::BrightRed => FourBitColor::BrightRed,
            DefaultColor::BrightGreen => FourBitColor::BrightGreen,
            DefaultColor::BrightYellow => FourBitColor::BrightYellow,
            DefaultColor::BrightBlue => FourBitColor::BrightBlue,
            DefaultColor::BrightMagenta => FourBitColor::BrightMagenta,
            DefaultColor::BrightCyan => FourBitColor::BrightCyan,
            DefaultColor::BrightWhite => FourBitColor::BrightWhite,
        }
    }
}

impl From<FourBitColor> for Color {
    fn from(color: FourBitColor) -> (wrapped: Self) {
        Color::FourBitColor(color)
    }
}

impl FromSpecImpl<FourBitColor> for Color {
    open spec fn obeys_from_spec() -> bool {
        true
    }

    open spec fn from_spec(color: FourBitColor) -> Self {
        Color::FourBitColor(color)
    }
}

} // verus!
