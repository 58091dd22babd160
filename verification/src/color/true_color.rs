//! 24-bit colour.
use vstd::prelude::*;
use vstd::string::*;
use vstd::std_specs::convert::FromSpecImpl;
use crate::color::{Color, DisplayColor};
use crate::decimal::{decimal, push_decimal};
use crate::escape::{background_wrapped, foreground_wrapped, wrap_background, wrap_foreground};

verus! {

/// A colour of three independent channels: red, green, blue.
///
/// Every triple is a colour; make one with `TrueColor::from((r, g, b))`.
#[derive(Debug, Clone, Copy, PartialEq, Eq, Structural)]
pub struct TrueColor(pub u8, pub u8, pub u8);

impl From<(u8, u8, u8)> for TrueColor {
    fn from(channels: (u8, u8, u8)) -> (color: Self) {
        TrueColor(channels.0, channels.1, channels.2)
    }
}

impl FromSpecImpl<(u8, u8, u8)> for TrueColor {
    open spec fn obeys_from_spec() -> bool {
        true
    }

    open spec fn from_spec(channels: (u8, u8, u8)) -> Self {
        TrueColor(channels.0, channels.1, channels.2)
    }
}

impl DisplayColor for TrueColor {
    /// Mode selector 2, then the three channels in decimal: `2;R;G;B`.
    open spec fn payload_spec(&self) -> Seq<char> {
        seq!['2', ';'] + decimal(self.0 as nat) + seq![';'] + decimal(self.1 as nat) + seq![';']
            + decimal(self.2 as nat)
    }

    open spec fn color_spec(&self) -> Seq<char> {
        foreground_wrapped(self.payload_spec())
    }

    open spec fn background_color_spec(&self) -> Seq<char> {
        background_wrapped(self.payload_spec())
    }

    fn payload(&self) -> (text: String) {
        let mut text = String::new();
        proof {
            reveal_strlit("2;");
            reveal_strlit(";");
        }
        text.append("2;");
        push_decimal(&mut text, self.0);
        text.append(";");
        push_decimal(&mut text, self.1);
        text.append(";");
        push_decimal(&mut text, self.2);
        assert(text@ =~= self.payload_spec());
        text
    }

    fn color(&self) -> (text: String) {
        let payload = self.payload();
        wrap_foreground(payload.as_str())
    }

    fn background_color(&self) -> (text: String) {
        let payload = self.payload();
        wrap_background(payload.as_str())
    }
}

impl From<TrueColor> for Color {
    fn from(color: TrueColor) -> (wrapped: Self) {
        Color::TrueColor(color)
    }
}

impl FromSpecImpl<TrueColor> for Color {
    open spec fn obeys_from_spec() -> bool {
        true
    }

    open spec fn from_spec(color: TrueColor) -> Self {
        Color::TrueColor(color)
    }
}

} // verus!
