//! The 256-entry palette.
use vstd::prelude::*;
use vstd::string::*;
use vstd::std_specs::convert::FromSpecImpl;
use crate::color::{Color, DefaultColor, DisplayColor};
use crate::decimal::{decimal, parse_byte, parsed_byte, push_decimal, ParseError};
use crate::escape::{background_wrapped, foreground_wrapped, wrap_background, wrap_foreground};

verus! {

/// An index into the standard 256-colour palette. Every byte is an index.
#[derive(Debug, Clone, Copy, PartialEq, Eq, Structural)]
pub struct EightBitColor(pub u8);

impl From<u8> for EightBitColor {
    fn from(index: u8) -> (color: Self) {
        EightBitColor(index)
    }
}

impl FromSpecImpl<u8> for EightBitColor {
    open spec fn obeys_from_spec() -> bool {
        true
    }

    open spec fn from_spec(index: u8) -> Self {
        EightBitColor(index)
    }
}

impl EightBitColor {
    /// Reads a palette index from its decimal numeral.
    ///
    /// Fails exactly on text that is no numeral of a byte; a byte never fails
    /// for its range, since the whole range is palette.
    pub fn from_str(s: &str) -> (parsed: Result<Self, ParseError>)
        ensures
            match parsed {
                Ok(color) => parsed_byte(s@) == Some(color.0),
                Err(_) => parsed_byte(s@) is None,
            },
    {
        match parse_byte(s) {
            Ok(index) => Ok(EightBitColor(index)),
            Err(e) => Err(e),
        }
    }
}

impl core::str::FromStr for EightBitColor {
    type Err = ParseError;

    fn from_str(s: &str) -> (parsed: Result<Self, ParseError>)
        ensures
            match parsed {
                Ok(color) => parsed_byte(s@) == Some(color.0),
                Err(_) => parsed_byte(s@) is None,
            },
    {
        EightBitColor::from_str(s)
    }
}

impl DisplayColor for EightBitColor {
    /// Mode selector 5, then the index in decimal: `5;N`.
    open spec fn payload_spec(&self) -> Seq<char> {
        seq!['5', ';'] + decimal(self.0 as nat)
    }

    open spec fn color_spec(&self) -> Seq<char> {
        foreground_wrapped(self.payload_spec())
    }

    open spec fn background_color_spec(&self) -> Seq<char> {
        background_wrapped(self.payload_spec())
    }

    fn payload(&self) -> (text: String) {
        let mut text = String::new();
        proof {
            reveal_strlit("5;");
        }
        text.append("5;");
        push_decimal(&mut text, self.0);
        assert(text@ =~= self.payload_spec());
        text
    }

    fn color(&self) -> (text: String) {
        let payload = self.payload();
        wrap_foreground(payload.as_str())
    }

    fn background_color(&self) -> (text: String) {
        let payload = self.payload();
        wrap_background(payload.as_str())
    }
}

impl From<DefaultColor> for Color {
    /// A default colour is its palette entry among the first sixteen.
    fn from(value: DefaultColor) -> (color: Self) {
        let index: u8 = match value {
            DefaultColor::Black => 0,
            DefaultColor::Red => 1,
            DefaultColor::Green => 2,
            DefaultColor::Yellow => 3,
            DefaultColor::Blue => 4,
            DefaultColor::Magenta => 5,
            DefaultColor::Cyan => 6,
            DefaultColor::White => 7,
            DefaultColor::Gray => 8,
            DefaultColor::BrightRed => 9,
            DefaultColor::BrightGreen => 10,
            DefaultColor::BrightYellow => 11,
            DefaultColor::BrightBlue => 12,
            DefaultColor::BrightMagenta => 13,
            DefaultColor::BrightCyan => 14,
            DefaultColor::BrightWhite => 15,
        };
        Color::EightBitColor(EightBitColor(index))
    }
}

impl FromSpecImpl<DefaultColor> for Color {
    open spec fn obeys_from_spec() -> bool {
        true
    }

    open spec fn from_spec(value: DefaultColor) -> Self {
        Color::EightBitColor(EightBitColor(value.index() as u8))
    }
}

impl From<EightBitColor> for Color {
    fn from(color: EightBitColor) -> (wrapped: Self) {
        Color::EightBitColor(color)
    }
}

impl FromSpecImpl<EightBitColor> for Color {
    open spec fn obeys_from_spec() -> bool {
        true
    }

    open spec fn from_spec(color: EightBitColor) -> Self {
        Color::EightBitColor(color)
    }
}

} // verus!
