//! Text attributes: bold, italic, underline, reset, or any code by number.
use vstd::prelude::*;
use vstd::string::*;
use vstd::std_specs::convert::FromSpecImpl;
use crate::decimal::{decimal, parse_byte, parsed_byte, push_decimal, ParseError};
use crate::escape::sgr;

verus! {

/// The attributes that have a name.
#[derive(Debug, Clone, Copy, PartialEq, Eq, Structural)]
pub enum Styles {
    Reset,
    Bold,
    Italic,
    Underline,
}

impl Styles {
    /// The rendition code of the attribute.
    pub open spec fn code(&self) -> u8 {
        match self {
            Styles::Reset => 0,
            Styles::Bold => 1,
            Styles::Italic => 3,
            Styles::Underline => 4,
        }
    }
}

/// One attribute by its rendition code, rendered as escape, `[`, the code,
/// `m`. Any byte is taken: whether a terminal knows the code is the caller's
/// concern.
#[derive(Debug, Clone, Copy, PartialEq, Eq, Structural)]
pub struct Style(pub u8);

impl From<Styles> for Style {
    fn from(style: Styles) -> (made: Self) {
        match style {
            Styles::Reset => Style(0),
            Styles::Bold => Style(1),
            Styles::Italic => Style(3),
            Styles::Underline => Style(4),
        }
    }
}

impl FromSpecImpl<Styles> for Style {
    open spec fn obeys_from_spec() -> bool {
        true
    }

    open spec fn from_spec(style: Styles) -> Self {
        Style(style.code())
    }
}

impl From<u8> for Style {
    fn from(code: u8) -> (made: Self) {
        Style(code)
    }
}

impl FromSpecImpl<u8> for Style {
    open spec fn obeys_from_spec() -> bool {
        true
    }

    open spec fn from_spec(code: u8) -> Self {
        Style(code)
    }
}

impl core::str::FromStr for Style {
    type Err = ParseError;

    fn from_str(s: &str) -> (parsed: Result<Self, ParseError>)
        ensures
            match parsed {
                Ok(style) => parsed_byte(s@) == Some(style.0),
                Err(_) => parsed_byte(s@) is None,
            },
    {
        Style::from_str(s)
    }
}

/// The sequence that ends all styling.
pub open spec fn reset_sequence() -> Seq<char> {
    Style(0).render_spec()
}

/// The sequences of `styles`, one after the other, first to last.
pub open spec fn styles_text(styles: Seq<Style>) -> Seq<char>
    decreases styles.len(),
{
    if styles.len() == 0 {
        Seq::empty()
    } else {
        styles_text(styles.drop_last()) + styles.last().render_spec()
    }
}

impl Style {
    /// The attribute's escape sequence.
    pub open spec fn render_spec(&self) -> Seq<char> {
        sgr(decimal(self.0 as nat))
    }

    /// Reads an attribute from the decimal numeral of its code.
    ///
    /// Fails exactly on text that is no numeral of a byte; no byte is refused.
    pub fn from_str(s: &str) -> (parsed: Result<Self, ParseError>)
        ensures
            match parsed {
                Ok(style) => parsed_byte(s@) == Some(style.0),
                Err(_) => parsed_byte(s@) is None,
            },
    {
        match parse_byte(s) {
            Ok(code) => Ok(Style(code)),
            Err(e) => Err(e),
        }
    }

    /// Appends the attribute's escape sequence to `out`.
    pub fn render_into(&self, out: &mut String)
        ensures
            final(out)@ == old(out)@ + self.render_spec(),
    {
        proof {
            reveal_strlit("\x1b[");
            reveal_strlit("m");
        }
        out.append("\x1b[");
        push_decimal(out, self.0);
        out.append("m");
        assert(out@ =~= old(out)@ + self.render_spec());
    }

    /// Renders the attribute's escape sequence.
    pub fn render(&self) -> (text: String)
        ensures
            text@ == self.render_spec(),
    {
        let mut text = String::new();
        self.render_into(&mut text);
        assert(text@ =~= self.render_spec());
        text
    }
}

} // verus!
