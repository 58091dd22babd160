//! Decimal numerals of bytes: written into escape sequences, and read back
//! from text.
use vstd::prelude::*;
use vstd::slice::*;
use vstd::string::*;
use vstd::utf8::*;

verus! {

/// The character that stands for the digit `d`.
pub open spec fn digit_char(d: nat) -> char
    recommends
        d < 10,
{
    if d == 0 {
        '0'
    } else if d == 1 {
        '1'
    } else if d == 2 {
        '2'
    } else if d == 3 {
        '3'
    } else if d == 4 {
        '4'
    } else if d == 5 {
        '5'
    } else if d == 6 {
        '6'
    } else if d == 7 {
        '7'
    } else if d == 8 {
        '8'
    } else {
        '9'
    }
}

/// The decimal numeral of `n`: no sign, no leading zero, `"0"` for zero.
pub open spec fn decimal(n: nat) -> Seq<char>
    decreases n,
{
    if n < 10 {
        seq![digit_char(n)]
    } else {
        decimal(n / 10).push(digit_char(n % 10))
    }
}

/// One digit as text.
pub fn digit_text(d: u8) -> (text: &'static str)
    requires
        d < 10,
    ensures
        text@ == seq![digit_char(d as nat)],
{
    proof {
        reveal_strlit("0");
        reveal_strlit("1");
        reveal_strlit("2");
        reveal_strlit("3");
        reveal_strlit("4");
        reveal_strlit("5");
        reveal_strlit("6");
        reveal_strlit("7");
        reveal_strlit("8");
        reveal_strlit("9");
    }
    let text = match d {
        0 => "0",
        1 => "1",
        2 => "2",
        3 => "3",
        4 => "4",
        5 => "5",
        6 => "6",
        7 => "7",
        8 => "8",
        _ => "9",
    };
    assert(text@ =~= seq![digit_char(d as nat)]);
    text
}

/// Appends the decimal numeral of `n` to `out`.
pub fn push_decimal(out: &mut String, n: u8)
    ensures
        final(out)@ == old(out)@ + decimal(n as nat),
{
    let ones: u8 = n % 10;
    let tens: u8 = (n / 10) % 10;
    let hundreds: u8 = n / 100;
    proof {
        reveal_with_fuel(decimal, 3);
    }
    if hundreds > 0 {
        out.append(digit_text(hundreds));
    }
    if hundreds > 0 || tens > 0 {
        out.append(digit_text(tens));
    }
    out.append(digit_text(ones));
    assert(out@ =~= old(out)@ + decimal(n as nat));
}

/// Text that is no numeral of a byte.
#[derive(Debug, Clone, Copy, PartialEq, Eq, Structural)]
pub struct ParseError;

/// Whether `c` is one of the ten digits.
pub open spec fn is_digit(c: char) -> bool {
    '0' <= c && c <= '9'
}

/// The number that the digit `c` stands for.
pub open spec fn digit_value(c: char) -> nat
    recommends
        is_digit(c),
{
    (c as int - '0' as int) as nat
}

/// Whether every character of `text` is a digit.
pub open spec fn all_digits(text: Seq<char>) -> bool {
    forall|i: int| 0 <= i < text.len() ==> is_digit(#[trigger] text[i])
}

/// The number that a run of digits stands for, leading zeros allowed.
pub open spec fn numeral_value(digits: Seq<char>) -> nat
    decreases digits.len(),
{
    if digits.len() == 0 {
        0
    } else {
        numeral_value(digits.drop_last()) * 10 + digit_value(digits.last())
    }
}

/// The text without one leading `+`, if it has one.
pub open spec fn without_sign(text: Seq<char>) -> Seq<char> {
    if text.len() > 0 && text[0] == '+' {
        text.drop_first()
    } else {
        text
    }
}

/// The byte that `text` is a numeral of: an optional `+`, then one or more
/// digits whose number is at most 255. Any other text is no numeral.
pub open spec fn parsed_byte(text: Seq<char>) -> Option<u8> {
    let digits = without_sign(text);
    if digits.len() > 0 && all_digits(digits) && numeral_value(digits) <= 255 {
        Some(numeral_value(digits) as u8)
    } else {
        None
    }
}

/// A run of digits stands for at least as much as any of its beginnings.
pub proof fn lemma_numeral_value_grows(digits: Seq<char>, k: int)
    requires
        0 <= k <= digits.len(),
    ensures
        numeral_value(digits.subrange(0, k)) <= numeral_value(digits),
    decreases digits.len() - k,
{
    if k == digits.len() {
        assert(digits.subrange(0, k) =~= digits);
    } else {
        lemma_numeral_value_grows(digits.drop_last(), k);
        assert(digits.drop_last().subrange(0, k) =~= digits.subrange(0, k));
    }
}

/// Reads a byte from its decimal numeral.
pub fn parse_byte(s: &str) -> (parsed: Result<u8, ParseError>)
    ensures
        match parsed {
            Ok(n) => parsed_byte(s@) == Some(n),
            Err(_) => parsed_byte(s@) is None,
        },
{
    broadcast use {is_ascii_spec_bytes, group_slice_axioms};

    let ghost digits = without_sign(s@);
    if !s.is_ascii() {
        proof {
            let i = choose|i: int| 0 <= i < s@.len() && !('\0' <= #[trigger] s@[i] <= '\u{7f}');
            if s@[0] == '+' {
                assert(digits[i - 1] == s@[i]);
            } else {
                assert(digits[i] == s@[i]);
            }
        }
        return Err(ParseError);
    }
    let bytes = s.as_bytes();
    let len: usize = bytes.len();
    assert(len == s@.len());
    assert(forall|k: int| 0 <= k < len ==> bytes@[k] == s@[k] as u8);
    let start: usize = if len > 0 && bytes[0] == 43 {
        assert(s@[0] == '+');
        1
    } else {
        assert(len > 0 ==> s@[0] != '+');
        0
    };
    assert(digits =~= s@.subrange(start as int, len as int));
    if start == len {
        return Err(ParseError);
    }
    let mut value: u16 = 0;
    let mut i: usize = start;
    while i < len
        invariant
            start <= i <= len,
            len == s@.len(),
            len == bytes@.len(),
            is_ascii(s),
            forall|k: int| 0 <= k < len ==> bytes@[k] == s@[k] as u8,
            digits == without_sign(s@),
            digits == s@.subrange(start as int, len as int),
            all_digits(digits.subrange(0, i - start)),
            value == numeral_value(digits.subrange(0, i - start)),
            value <= 255,
        decreases len - i,
    {
        let byte: u8 = bytes[i];
        let ghost read = digits.subrange(0, i - start);
        let ghost more = digits.subrange(0, i + 1 - start);
        assert(digits[i - start] == s@[i as int]);
        assert(more.drop_last() =~= read);
        assert(more.last() == s@[i as int]);
        if byte < 48 || byte > 57 {
            assert(!is_digit(digits[i - start]));
            return Err(ParseError);
        }
        assert(is_digit(s@[i as int]));
        let next: u16 = value * 10 + (byte - 48) as u16;
        assert(next == numeral_value(more));
        if next > 255 {
            proof {
                lemma_numeral_value_grows(digits, i + 1 - start);
            }
            return Err(ParseError);
        }
        assert(all_digits(more)) by {
            assert forall|j: int| 0 <= j < more.len() implies is_digit(#[trigger] more[j]) by {
                if j < read.len() {
                    assert(more[j] == read[j]);
                }
            }
        }
        value = next;
        i += 1;
    }
    assert(digits.subrange(0, len - start) =~= digits);
    Ok(value as u8)
}

} // verus!
