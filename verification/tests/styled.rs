use style_term::color::tagged::{ColorType, TaggedColor};
use style_term::color::FourBitColor;
use style_term::no_color::{show_styles, Environment};
use style_term::styles::Styles;
use style_term::{
    Color, DefaultColor, DisplayColor, EightBitColor, Style, StyleString, StyledString, StylesContainer,
    TrueColor,
};

fn env(no_color: Option<&str>, term: Option<&str>) -> Environment {
    Environment {
        color_disabled: false,
        no_color: no_color.map(String::from),
        term: term.map(String::from),
    }
}

fn on() -> Environment {
    env(None, None)
}

#[test]
pub fn general_test() {
    println!("{}", "Bright Blue BG: Black Bold".style().text_color(DefaultColor::BrightBlue).background_color(FourBitColor::Black).add_style(Styles::Bold).render(&on()));
    println!("{}", "Bright Blue BG: Black Italic".style().text_color(DefaultColor::BrightBlue).background_color(FourBitColor::Black).add_style(Styles::Italic).render(&on()));
    println!("{}", "Bright Blue BG: Black Reset".style().text_color(DefaultColor::BrightBlue).background_color(FourBitColor::Black).add_style(Styles::Reset).render(&on()));
    println!("{}", "Bright Blue BG: Black Underline".style().text_color(DefaultColor::BrightBlue).background_color(FourBitColor::Black).add_style(Styles::Underline).render(&on()));
    println!("{}", "Bright Blue BG: Black".style().text_color(DefaultColor::BrightBlue).background_color(FourBitColor::Black).render(&on()));
}

#[test]
pub fn serde_test() {
    let true_color = Color::TrueColor(TrueColor::from((5, 5, 5)));
    let eight_bit_color = Color::EightBitColor(EightBitColor::from(5));
    let four_bit_color = Color::FourBitColor(FourBitColor::Black);
    println!("true_color: {:?}", true_color.to_tagged());
    println!("eight_bit_color: {:?}", eight_bit_color.to_tagged());
    println!("for_bit_color: {:?}", four_bit_color.to_tagged());
    assert_eq!(true_color.to_tagged().color_type, ColorType::TrueColor);
    assert_eq!(true_color.to_tagged().value, vec![5, 5, 5]);
    assert_eq!(eight_bit_color.to_tagged().color_type, ColorType::EightBitColor);
    assert_eq!(eight_bit_color.to_tagged().value, vec![5]);
    assert_eq!(four_bit_color.to_tagged().color_type, ColorType::FourBitColor);
    assert_eq!(four_bit_color.to_tagged().value, vec![0]);
}

#[test]
fn general_test_renders_exactly() {
    let bold = "Bright Blue BG: Black Bold"
        .style()
        .text_color(DefaultColor::BrightBlue)
        .background_color(FourBitColor::Black)
        .add_style(Styles::Bold)
        .render(&on());
    assert_eq!(bold, "\x1b[1m\x1b[1;40m\x1b[38;5;12mBright Blue BG: Black Bold\x1b[0m");
    let plain = "Bright Blue BG: Black"
        .style()
        .text_color(DefaultColor::BrightBlue)
        .background_color(FourBitColor::Black)
        .render(&on());
    assert_eq!(plain, "\x1b[1;40m\x1b[38;5;12mBright Blue BG: Black\x1b[0m");
}

#[test]
fn howdy_end_to_end() {
    let background = FourBitColor::from_raw(97).unwrap();
    assert_eq!(background.value(), 15);
    let styled = "Howdy"
        .style()
        .text_color(EightBitColor::from(9))
        .background_color(background)
        .add_style(Style::from(4));
    assert_eq!(styled.render_with(true), "\x1b[4m\x1b[1;107m\x1b[38;5;9mHowdy\x1b[0m");
    assert_eq!(styled.render(&on()), "\x1b[4m\x1b[1;107m\x1b[38;5;9mHowdy\x1b[0m");
    assert_eq!(styled.render_with(false), "Howdy");
}

#[test]
fn empty_style_set_renders_content_and_reset() {
    assert_eq!("plain".style().render_with(true), "plain\x1b[0m");
    assert_eq!("".style().render_with(true), "\x1b[0m");
    let owned = String::from("owned");
    assert_eq!(owned.style().render_with(true), "owned\x1b[0m");
    assert_eq!((&owned).style().render_with(true), "owned\x1b[0m");
    assert_eq!(StyledString::new("new").render_with(true), "new\x1b[0m");
    let preset = StylesContainer::default();
    assert_eq!("preset".apply_styles(&preset).render_with(true), "preset\x1b[0m");
}

#[test]
fn no_color_present_forces_bare_content() {
    let styled = "text"
        .style()
        .text_color(TrueColor::from((1, 2, 3)))
        .background_color(FourBitColor::Red)
        .add_style(Styles::Bold);
    for value in ["", "0", "1", "false", "anything"] {
        let surroundings = env(Some(value), Some("xterm-256color"));
        assert!(!show_styles(&surroundings));
        assert_eq!(styled.render(&surroundings), "text");
    }
    assert_eq!(styled.render(&env(Some("1"), None)), "text");
}

#[test]
fn term_denylist_is_dumb_and_xterm() {
    let styled = "text".style().add_style(Styles::Underline);
    assert!(!show_styles(&env(None, Some("dumb"))));
    assert_eq!(styled.render(&env(None, Some("dumb"))), "text");
    assert!(!show_styles(&env(None, Some("xterm"))));
    assert_eq!(styled.render(&env(None, Some("xterm"))), "text");
    assert!(show_styles(&env(None, Some("xterm-256color"))));
    assert_eq!(styled.render(&env(None, Some("xterm-256color"))), "\x1b[4mtext\x1b[0m");
    assert!(show_styles(&env(None, None)));
    assert_eq!(styled.render(&env(None, None)), "\x1b[4mtext\x1b[0m");
    assert!(show_styles(&env(None, Some("Dumb"))));
    assert!(show_styles(&env(None, Some("dumb "))));
    assert!(show_styles(&env(None, Some(""))));
    assert!(show_styles(&env(None, Some("xter"))));
}

#[test]
fn disabled_for_good_wins_over_everything() {
    let surroundings = Environment { color_disabled: true, no_color: None, term: None };
    assert!(!show_styles(&surroundings));
    let styled = "text".style().add_style(Styles::Bold);
    assert_eq!(styled.render(&surroundings), "text");
}

#[test]
fn variable_names() {
    assert_eq!(style_term::no_color::NO_COLOR, "NO_COLOR");
    assert_eq!(style_term::no_color::TERM, "TERM");
}

#[test]
fn attributes_keep_order_and_duplicates() {
    let styled = "x"
        .style()
        .add_style(Styles::Underline)
        .add_style(Styles::Bold)
        .add_style(Styles::Underline)
        .add_style(200);
    assert_eq!(styled.render_with(true), "\x1b[4m\x1b[1m\x1b[4m\x1b[200mx\x1b[0m");
}

#[test]
fn colors_overwrite_earlier_ones() {
    let styled = "x"
        .style()
        .text_color(EightBitColor::from(1))
        .text_color(EightBitColor::from(2))
        .background_color(EightBitColor::from(3))
        .background_color(TrueColor::from((0, 10, 255)));
    assert_eq!(styled.render_with(true), "\x1b[48;2;0;10;255m\x1b[38;5;2mx\x1b[0m");
}

#[test]
fn colors_and_attributes_given_as_themselves() {
    let styled = "x"
        .style()
        .text_color(Color::TrueColor(TrueColor(7, 8, 9)))
        .background_color(Color::FourBitColor(FourBitColor::Blue))
        .add_style(Style(3));
    assert_eq!(styled.render_with(true), "\x1b[3m\x1b[1;44m\x1b[38;2;7;8;9mx\x1b[0m");
    assert_eq!(styled.content(), "x");
    assert_eq!(styled.styles().text_color, Some(Color::TrueColor(TrueColor(7, 8, 9))));
    assert_eq!(styled.styles().background_color, Some(Color::FourBitColor(FourBitColor::Blue)));
    assert_eq!(styled.styles().styles, vec![Style(3)]);
}

#[test]
fn preset_replaces_styles_wholesale() {
    let preset = StylesContainer {
        text_color: Some(Color::from(FourBitColor::BrightRed)),
        background_color: None,
        styles: vec![Style::from(Styles::Italic), Style::from(Styles::Bold)],
    };
    let styled = "a"
        .style()
        .background_color(EightBitColor::from(7))
        .add_style(Styles::Underline)
        .set_styles_from_config(preset.clone());
    assert_eq!(styled.render_with(true), "\x1b[3m\x1b[1m\x1b[1;91ma\x1b[0m");
    assert_eq!("b".apply_styles(&preset).render_with(true), "\x1b[3m\x1b[1m\x1b[1;91mb\x1b[0m");
    let copy = preset.duplicate();
    assert_eq!(copy.styles, preset.styles);
    assert_eq!(copy.text_color, preset.text_color);
    assert_eq!(copy.background_color, preset.background_color);
    let mut out = String::from(">");
    preset.render_prefix_into(&mut out);
    assert_eq!(out, ">\x1b[3m\x1b[1m\x1b[1;91m");
}

#[test]
fn tagged_round_trip_renders_the_same() {
    let colors = [
        Color::TrueColor(TrueColor::from((5, 50, 250))),
        Color::EightBitColor(EightBitColor::from(5)),
        Color::FourBitColor(FourBitColor::Black),
        Color::FourBitColor(FourBitColor::BrightCyan),
    ];
    for color in colors {
        let back = Color::from_tagged(&color.to_tagged()).unwrap();
        assert_eq!(back, color);
        assert_eq!(back.color(), color.color());
        assert_eq!(back.background_color(), color.background_color());
    }
}

#[test]
fn tagged_payload_must_fit() {
    let tagged = |color_type, value: &[u8]| TaggedColor { color_type, value: value.to_vec() };
    assert!(Color::from_tagged(&tagged(ColorType::TrueColor, &[1, 2])).is_err());
    assert!(Color::from_tagged(&tagged(ColorType::TrueColor, &[1, 2, 3, 4])).is_err());
    assert!(Color::from_tagged(&tagged(ColorType::EightBitColor, &[])).is_err());
    assert!(Color::from_tagged(&tagged(ColorType::EightBitColor, &[1, 2])).is_err());
    assert!(Color::from_tagged(&tagged(ColorType::FourBitColor, &[16])).is_err());
    assert!(Color::from_tagged(&tagged(ColorType::FourBitColor, &[])).is_err());
    assert_eq!(
        Color::from_tagged(&tagged(ColorType::FourBitColor, &[101])),
        Ok(Color::FourBitColor(FourBitColor::BrightRed))
    );
    assert_eq!(
        Color::from_tagged(&tagged(ColorType::TrueColor, &[1, 2, 3])),
        Ok(Color::TrueColor(TrueColor(1, 2, 3)))
    );
    assert_eq!(
        Color::from_tagged(&tagged(ColorType::EightBitColor, &[200])),
        Ok(Color::EightBitColor(EightBitColor(200)))
    );
}
