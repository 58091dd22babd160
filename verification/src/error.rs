//! What construction can refuse. Rendering never fails.
use vstd::prelude::*;

verus! {

/// A byte that is a number, but none that stands for a classic colour.
#[derive(Debug, Clone, Copy, PartialEq, Eq, Structural)]
pub struct InvalidStyleError;

impl InvalidStyleError {
    /// The error in words.
    pub fn message(&self) -> (text: &'static str)
        ensures
            text@ == "The Value provided is not compatible with ANSI escape code standards"@,
    {
        "The Value provided is not compatible with ANSI escape code standards"
    }
}

/// Why text could not be read as a classic colour.
#[derive(Debug, Clone, Copy, PartialEq, Eq, Structural)]
pub enum StyleError {
    /// The text is no numeral of a byte.
    Parse,
    /// The byte stands for no classic colour.
    Invalid,
}

} // verus!
