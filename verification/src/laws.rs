//! What holds of the library as a whole, stated over the same functions that
//! the contracts speak of, and proved.
use vstd::prelude::*;
use crate::color::tagged::{tagged_spec, untagged_spec};
use crate::color::{Color, DisplayColor, EightBitColor, FourBitColor, TrueColor};
use crate::decimal::{all_digits, decimal, numeral_value, parsed_byte, without_sign};
use crate::escape::{classic_sequence, esc};
use crate::no_color::{styles_shown, Environment};
use crate::{StyleSet, StyledText};

verus! {

/// A 24-bit colour renders as escape, `[38;2;`, its three channels in decimal
/// with `;` between them, and `m`; as background with 48 in place of 38.
pub proof fn true_color_sequences(r: u8, g: u8, b: u8)
    ensures
        TrueColor(r, g, b).color_spec() == seq![esc(), '[', '3', '8', ';', '2', ';'] + decimal(
            r as nat,
        ) + seq![';'] + decimal(g as nat) + seq![';'] + decimal(b as nat) + seq!['m'],
        TrueColor(r, g, b).background_color_spec() == seq![esc(), '[', '4', '8', ';', '2', ';']
            + decimal(r as nat) + seq![';'] + decimal(g as nat) + seq![';'] + decimal(b as nat)
            + seq!['m'],
{
    let color = TrueColor(r, g, b);
    assert(color.color_spec() =~= seq![esc(), '[', '3', '8', ';', '2', ';'] + decimal(r as nat)
        + seq![';'] + decimal(g as nat) + seq![';'] + decimal(b as nat) + seq!['m']);
    assert(color.background_color_spec() =~= seq![esc(), '[', '4', '8', ';', '2', ';'] + decimal(
        r as nat,
    ) + seq![';'] + decimal(g as nat) + seq![';'] + decimal(b as nat) + seq!['m']);
}

/// A palette colour renders as escape, `[38;5;`, its index in decimal, and
/// `m`; as background with 48 in place of 38.
pub proof fn eight_bit_sequences(n: u8)
    ensures
        EightBitColor(n).color_spec() == seq![esc(), '[', '3', '8', ';', '5', ';'] + decimal(
            n as nat,
        ) + seq!['m'],
        EightBitColor(n).background_color_spec() == seq![esc(), '[', '4', '8', ';', '5', ';']
            + decimal(n as nat) + seq!['m'],
{
    let color = EightBitColor(n);
    assert(color.color_spec() =~= seq![esc(), '[', '3', '8', ';', '5', ';'] + decimal(n as nat)
        + seq!['m']);
    assert(color.background_color_spec() =~= seq![esc(), '[', '4', '8', ';', '5', ';'] + decimal(
        n as nat,
    ) + seq!['m']);
}

/// The numeral of a number is a run of digits, at least one, that stands for
/// that number.
pub proof fn numeral_stands_for_its_number(n: nat)
    ensures
        decimal(n).len() >= 1,
        all_digits(decimal(n)),
        numeral_value(decimal(n)) == n,
    decreases n,
{
    if n < 10 {
        assert(decimal(n).drop_last() =~= Seq::<char>::empty());
        reveal_with_fuel(numeral_value, 2);
    } else {
        numeral_stands_for_its_number(n / 10);
        assert(decimal(n).drop_last() =~= decimal(n / 10));
    }
}

/// Every byte is read back from its own numeral.
pub proof fn byte_is_read_back_from_its_numeral(n: u8)
    ensures
        parsed_byte(decimal(n as nat)) == Some(n),
{
    numeral_stands_for_its_number(n as nat);
    assert(without_sign(decimal(n as nat)) == decimal(n as nat));
}

/// A text-colour code, 30 to 37 or 90 to 97, makes a classic colour whose
/// text-colour sequence carries that very code.
pub proof fn raw_foreground_code_renders_itself(code: u8)
    requires
        30 <= code <= 37 || 90 <= code <= 97,
    ensures
        FourBitColor::from_raw_spec(code) is Some,
        FourBitColor::from_raw_spec(code)->0.color_spec() == classic_sequence(code as nat),
{
}

/// A background code, 40 to 47 or 100 to 107, makes a classic colour whose
/// background sequence carries that very code.
pub proof fn raw_background_code_renders_itself(code: u8)
    requires
        40 <= code <= 47 || 100 <= code <= 107,
    ensures
        FourBitColor::from_raw_spec(code) is Some,
        FourBitColor::from_raw_spec(code)->0.background_color_spec() == classic_sequence(
            code as nat,
        ),
{
}

/// A byte above 15 that is no rendition code of a colour makes no classic
/// colour.
pub proof fn raw_code_outside_ranges_is_refused(code: u8)
    requires
        16 <= code <= 29 || 38 <= code <= 39 || 48 <= code <= 89 || 98 <= code <= 99 || 108
            <= code,
    ensures
        FourBitColor::from_raw_spec(code) is None,
{
}

/// A number from 0 to 15 makes the classic colour of that number as it is,
/// with no base taken off.
pub proof fn raw_direct_value_is_kept(code: u8)
    requires
        code <= 15,
    ensures
        FourBitColor::from_raw_spec(code) is Some,
        FourBitColor::from_raw_spec(code)->0.value_spec() == code,
{
}

/// The sixteen colours and the numbers 0 to 15 stand for each other.
pub proof fn classic_colors_match_numbers(color: FourBitColor, value: nat)
    requires
        value <= 15,
    ensures
        color.value_spec() <= 15,
        FourBitColor::with_value(color.value_spec()) == color,
        FourBitColor::with_value(value).value_spec() == value,
{
}

/// A colour taken apart into its tagged form and put together again is the
/// same colour, and so renders the same, as text colour and as background.
pub proof fn tagged_form_gives_color_back(color: Color)
    ensures
        untagged_spec(tagged_spec(color)) == Some(color),
        untagged_spec(tagged_spec(color))->0.color_spec() == color.color_spec(),
        untagged_spec(tagged_spec(color))->0.background_color_spec()
            == color.background_color_spec(),
{
}

/// With styling on, text under the empty style set renders as the text and
/// one reset.
pub proof fn empty_style_set_adds_only_reset(content: Seq<char>)
    ensures
        StyleSet::empty().rendered(content, true) == content + seq![esc(), '[', '0', 'm'],
{
    reveal_with_fuel(decimal, 1);
    assert(StyleSet::empty().rendered(content, true) =~= content + seq![esc(), '[', '0', 'm']);
}

/// Where `NO_COLOR` is there, whatever it holds, every styled string renders
/// as its bare content.
pub proof fn no_color_gives_bare_content(env: Environment, styled: StyledText)
    requires
        env.no_color is Some,
    ensures
        !styles_shown(env),
        styled.rendered(styles_shown(env)) == styled.content,
{
}

/// Without `NO_COLOR`, and with styling not switched off for good: text for a
/// terminal named `dumb` or `xterm` renders bare; for one named
/// `xterm-256color`, or with no terminal named, it is styled.
pub proof fn term_decides_without_no_color(env: Environment, styled: StyledText)
    requires
        !env.color_disabled,
        env.no_color is None,
    ensures
        env.term is Some && env.term->0@ == seq!['d', 'u', 'm', 'b'] ==> styled.rendered(
            styles_shown(env),
        ) == styled.content,
        env.term is Some && env.term->0@ == seq!['x', 't', 'e', 'r', 'm'] ==> styled.rendered(
            styles_shown(env),
        ) == styled.content,
        env.term is Some && env.term->0@ == seq![
            'x',
            't',
            'e',
            'r',
            'm',
            '-',
            '2',
            '5',
            '6',
            'c',
            'o',
            'l',
            'o',
            'r',
        ] ==> styled.rendered(styles_shown(env)) == styled.rendered(true),
        env.term is None ==> styled.rendered(styles_shown(env)) == styled.rendered(true),
{
    // the three names differ in length
    assert(seq!['d', 'u', 'm', 'b'].len() == 4);
    assert(seq!['x', 't', 'e', 'r', 'm'].len() == 5);
}

} // verus!
