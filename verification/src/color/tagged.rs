//! Colours as tagged data: a discriminant that names the format, and the
//! format's payload as plain bytes. This is the shape in which a colour is
//! stored outside the program and read back.
use vstd::prelude::*;
use crate::color::{Color, EightBitColor, FourBitColor, TrueColor};
use crate::error::InvalidStyleError;

verus! {

/// Which of the three formats a tagged colour holds.
#[derive(Debug, Clone, Copy, PartialEq, Eq, Structural)]
pub enum ColorType {
    TrueColor,
    EightBitColor,
    FourBitColor,
}

/// A tagged colour as a value.
pub struct Tagged {
    pub color_type: ColorType,
    pub value: Seq<u8>,
}

/// A colour taken apart: the format's name and its payload.
///
/// The payload of a 24-bit colour is its three channels; that of a palette
/// colour its index; that of a classic colour its number, 0 to 15.
#[derive(Debug, Clone)]
pub struct TaggedColor {
    pub color_type: ColorType,
    pub value: Vec<u8>,
}

impl View for TaggedColor {
    type V = Tagged;

    open spec fn view(&self) -> Tagged {
        Tagged { color_type: self.color_type, value: self.value@ }
    }
}

/// The tagged form of a colour.
pub open spec fn tagged_spec(color: Color) -> Tagged {
    match color {
        Color::TrueColor(c) => Tagged { color_type: ColorType::TrueColor, value: seq![c.0, c.1, c.2] },
        Color::EightBitColor(c) => Tagged { color_type: ColorType::EightBitColor, value: seq![c.0] },
        Color::FourBitColor(c) => Tagged {
            color_type: ColorType::FourBitColor,
            value: seq![c.value_spec() as u8],
        },
    }
}

/// The colour that a tagged form holds, if its payload fits its format:
/// three bytes for a 24-bit colour, one for a palette colour, and for a
/// classic colour one byte that is a raw code of one.
pub open spec fn untagged_spec(tagged: Tagged) -> Option<Color> {
    match tagged.color_type {
        ColorType::TrueColor => if tagged.value.len() == 3 {
            Some(Color::TrueColor(TrueColor(tagged.value[0], tagged.value[1], tagged.value[2])))
        } else {
            None
        },
        ColorType::EightBitColor => if tagged.value.len() == 1 {
            Some(Color::EightBitColor(EightBitColor(tagged.value[0])))
        } else {
            None
        },
        ColorType::FourBitColor => if tagged.value.len() == 1 {
            match FourBitColor::from_raw_spec(tagged.value[0]) {
                Some(c) => Some(Color::FourBitColor(c)),
                None => None,
            }
        } else {
            None
        },
    }
}

impl Color {
    /// Takes the colour apart into its tagged form.
    pub fn to_tagged(&self) -> (tagged: TaggedColor)
        ensures
            tagged@ == tagged_spec(*self),
    {
        let mut value: Vec<u8> = Vec::new();
        let color_type = match self {
            Color::TrueColor(c) => {
                value.push(c.0);
                value.push(c.1);
                value.push(c.2);
                assert(value@ =~= seq![c.0, c.1, c.2]);
                ColorType::TrueColor
            },
            Color::EightBitColor(c) => {
                value.push(c.0);
                assert(value@ =~= seq![c.0]);
                ColorType::EightBitColor
            },
            Color::FourBitColor(c) => {
                value.push(c.value());
                assert(value@ =~= seq![c.value_spec() as u8]);
                ColorType::FourBitColor
            },
        };
        TaggedColor { color_type, value }
    }

    /// Puts a colour together from its tagged form.
    ///
    /// Fails exactly where the payload does not fit the format named.
    pub fn from_tagged(tagged: &TaggedColor) -> (made: Result<Color, InvalidStyleError>)
        ensures
            match made {
                Ok(color) => untagged_spec(tagged@) == Some(color),
                Err(_) => untagged_spec(tagged@) is None,
            },
    {
        match tagged.color_type {
            ColorType::TrueColor => {
                if tagged.value.len() == 3 {
                    Ok(
                        Color::TrueColor(
                            TrueColor(tagged.value[0], tagged.value[1], tagged.value[2]),
                        ),
                    )
                } else {
                    Err(InvalidStyleError)
                }
            },
            ColorType::EightBitColor => {
                if tagged.value.len() == 1 {
                    Ok(Color::EightBitColor(EightBitColor(tagged.value[0])))
                } else {
                    Err(InvalidStyleError)
                }
            },
            ColorType::FourBitColor => {
                if tagged.value.len() == 1 {
                    match FourBitColor::from_raw(tagged.value[0]) {
                        Ok(c) => Ok(Color::FourBitColor(c)),
                        Err(e) => Err(e),
                    }
                } else {
                    Err(InvalidStyleError)
                }
            },
        }
    }
}

} // verus!
