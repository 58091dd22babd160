//! The frame shared by every escape sequence of the library.
use vstd::prelude::*;
use vstd::string::*;

verus! {

/// The escape character that opens a control sequence.
pub open spec fn esc() -> char {
    '\u{1b}'
}

/// A complete graphic-rendition sequence around `body`: escape, `[`, the
/// body, `m`.
pub open spec fn sgr(body: Seq<char>) -> Seq<char> {
    seq![esc(), '['] + body + seq!['m']
}

/// The generic text-colour sequence: selector 38, then the colour's payload.
pub open spec fn foreground_wrapped(payload: Seq<char>) -> Seq<char> {
    sgr(seq!['3', '8', ';'] + payload)
}

/// The generic background sequence: selector 48, then the colour's payload.
pub open spec fn background_wrapped(payload: Seq<char>) -> Seq<char> {
    sgr(seq!['4', '8', ';'] + payload)
}

/// The classic sequence: bold, then a complete colour code of its own.
pub open spec fn classic_sequence(code: nat) -> Seq<char> {
    sgr(seq!['1', ';'] + crate::decimal::decimal(code))
}

/// Wraps a payload as a text colour.
pub fn wrap_foreground(payload: &str) -> (text: String)
    ensures
        text@ == foreground_wrapped(payload@),
{
    let mut text = String::new();
    proof {
        reveal_strlit("\x1b[38;");
        reveal_strlit("m");
    }
    text.append("\x1b[38;");
    text.append(payload);
    text.append("m");
    assert(text@ =~= foreground_wrapped(payload@));
    text
}

/// Wraps a payload as a background colour.
pub fn wrap_background(payload: &str) -> (text: String)
    ensures
        text@ == background_wrapped(payload@),
{
    let mut text = String::new();
    proof {
        reveal_strlit("\x1b[48;");
        reveal_strlit("m");
    }
    text.append("\x1b[48;");
    text.append(payload);
    text.append("m");
    assert(text@ =~= background_wrapped(payload@));
    text
}

/// Renders the classic sequence for a complete colour code.
pub fn classic(code: u8) -> (text: String)
    ensures
        text@ == classic_sequence(code as nat),
{
    let mut text = String::new();
    proof {
        reveal_strlit("\x1b[1;");
        reveal_strlit("m");
    }
    text.append("\x1b[1;");
    crate::decimal::push_decimal(&mut text, code);
    text.append("m");
    assert(text@ =~= classic_sequence(code as nat));
    text
}

} // verus!
