//! Typed, composable ANSI styling for terminal text.
//!
//! A colour is one of three wire formats (24-bit, 256-entry palette, classic
//! sixteen colours); a style set joins attributes with an optional text colour
//! and an optional background colour; a styled string renders its content
//! between the escape sequences of its style set and a closing reset.
pub mod color;
pub mod convert;
pub mod decimal;
pub mod error;
pub mod escape;
pub mod laws;
pub mod no_color;
pub mod styles;

use vstd::prelude::*;
use vstd::string::*;
pub use crate::color::{Color, DefaultColor, DefaultMode, DisplayColor, EightBitColor, TrueColor};
pub use crate::decimal::ParseError;
pub use crate::error::{InvalidStyleError, StyleError};
use crate::no_color::{show_styles, styles_shown, Environment};
use crate::styles::{reset_sequence, styles_text};
pub use crate::styles::{Style, Styles};

verus! {

/// A style set as a value: what its rendering depends on, and nothing else.
pub struct StyleSet {
    pub text_color: Option<Color>,
    pub background_color: Option<Color>,
    pub styles: Seq<Style>,
}

impl StyleSet {
    /// The style set that styles nothing.
    pub open spec fn empty() -> StyleSet {
        StyleSet { text_color: None, background_color: None, styles: Seq::empty() }
    }

    /// The text colour's sequence, or nothing.
    pub open spec fn foreground_text(self) -> Seq<char> {
        match self.text_color {
            Some(color) => color.color_spec(),
            None => Seq::empty(),
        }
    }

    /// The background's sequence, or nothing.
    pub open spec fn background_text(self) -> Seq<char> {
        match self.background_color {
            Some(color) => color.background_color_spec(),
            None => Seq::empty(),
        }
    }

    /// What goes before styled content: every attribute in the order it was
    /// added, then the background, then the text colour.
    pub open spec fn prefix(self) -> Seq<char> {
        styles_text(self.styles) + self.background_text() + self.foreground_text()
    }

    /// The rendering of `content` under this style set. With styling off it
    /// is the content alone; with styling on, the prefix, the content and one
    /// reset, which is there even when the set is empty.
    pub open spec fn rendered(self, content: Seq<char>, shown: bool) -> Seq<char> {
        if shown {
            self.prefix() + content + reset_sequence()
        } else {
            content
        }
    }
}

/// All the styles applied to a string: a preset that can be kept apart from
/// any text and put on many.
#[derive(Debug, Clone)]
pub struct StylesContainer {
    pub text_color: Option<Color>,
    pub background_color: Option<Color>,
    pub styles: Vec<Style>,
}

impl View for StylesContainer {
    type V = StyleSet;

    open spec fn view(&self) -> StyleSet {
        StyleSet {
            text_color: self.text_color,
            background_color: self.background_color,
            styles: self.styles@,
        }
    }
}

impl Default for StylesContainer {
    fn default() -> (made: Self)
        ensures
            made@ == StyleSet::empty(),
    {
        StylesContainer { text_color: None, background_color: None, styles: Vec::new() }
    }
}

impl StylesContainer {
    /// A copy that holds the same styles in the same order.
    pub fn duplicate(&self) -> (copy: Self)
        ensures
            copy@ == self@,
    {
        let mut styles: Vec<Style> = Vec::new();
        let mut i: usize = 0;
        while i < self.styles.len()
            invariant
                i <= self.styles.len(),
                styles@ == self.styles@.subrange(0, i as int),
            decreases self.styles.len() - i,
        {
            styles.push(self.styles[i]);
            i += 1;
            assert(styles@ =~= self.styles@.subrange(0, i as int));
        }
        assert(styles@ =~= self.styles@);
        StylesContainer {
            text_color: self.text_color,
            background_color: self.background_color,
            styles,
        }
    }

    /// Appends what goes before styled content to `out`.
    pub fn render_prefix_into(&self, out: &mut String)
        ensures
            final(out)@ == old(out)@ + self@.prefix(),
    {
        let mut i: usize = 0;
        while i < self.styles.len()
            invariant
                i <= self.styles.len(),
                out@ == old(out)@ + styles_text(self.styles@.subrange(0, i as int)),
            decreases self.styles.len() - i,
        {
            let ghost before = self.styles@.subrange(0, i as int);
            let ghost after = self.styles@.subrange(0, i + 1);
            assert(after.drop_last() =~= before);
            assert(after.last() == self.styles@[i as int]);
            self.styles[i].render_into(out);
            i += 1;
            assert(out@ =~= old(out)@ + styles_text(after));
        }
        assert(self.styles@.subrange(0, i as int) =~= self.styles@);
        if let Some(background) = &self.background_color {
            let text = background.background_color();
            out.append(text.as_str());
        }
        if let Some(color) = &self.text_color {
            let text = color.color();
            out.append(text.as_str());
        }
        assert(out@ =~= old(out)@ + self@.prefix());
    }
}

/// A styled string as a value: its content and its style set.
pub struct StyledText {
    pub content: Seq<char>,
    pub styles: StyleSet,
}

impl StyledText {
    /// What the string renders to, with styling on or off.
    pub open spec fn rendered(self, shown: bool) -> Seq<char> {
        self.styles.rendered(self.content, shown)
    }
}

/// A piece of text with the styles to show it in.
///
/// Rendering looks at the surroundings each time and keeps nothing, so it is
/// the one way of showing styled text that honours `NO_COLOR`.
#[derive(Debug, Clone)]
pub struct StyledString<'content> {
    content: &'content str,
    styles: StylesContainer,
}

impl<'content> View for StyledString<'content> {
    type V = StyledText;

    closed spec fn view(&self) -> StyledText {
        StyledText { content: self.content@, styles: self.styles@ }
    }
}

impl<'content> StyledString<'content> {
    /// The given text with no styles yet.
    pub fn new(content: &'content str) -> (styled: StyledString<'content>)
        ensures
            styled@ == (StyledText { content: content@, styles: StyleSet::empty() }),
    {
        StyledString { content, styles: StylesContainer::default() }
    }

    /// The text that is styled.
    pub fn content(&self) -> (content: &'content str)
        ensures
            content@ == self@.content,
    {
        self.content
    }

    /// The styles that the text is shown in.
    pub fn styles(&self) -> (styles: &StylesContainer)
        ensures
            styles@ == self@.styles,
    {
        &self.styles
    }

    /// Sets the text colour, in place of any earlier one.
    pub fn text_color<C: Into<Color>>(self, text: C) -> (styled: Self)
        ensures
            styled@.content == self@.content,
            styled@.styles.background_color == self@.styles.background_color,
            styled@.styles.styles == self@.styles.styles,
            styled@.styles.text_color is Some,
            call_ensures(<C as Into<Color>>::into, (text,), styled@.styles.text_color->0),
    {
        let mut styled = self;
        styled.styles.text_color = Some(text.into());
        styled
    }

    /// Sets the background colour, in place of any earlier one.
    pub fn background_color<C: Into<Color>>(self, text: C) -> (styled: Self)
        ensures
            styled@.content == self@.content,
            styled@.styles.text_color == self@.styles.text_color,
            styled@.styles.styles == self@.styles.styles,
            styled@.styles.background_color is Some,
            call_ensures(<C as Into<Color>>::into, (text,), styled@.styles.background_color->0),
    {
        let mut styled = self;
        styled.styles.background_color = Some(text.into());
        styled
    }

    /// Adds one attribute after those already there. Nothing is merged: an
    /// attribute added twice is rendered twice.
    pub fn add_style<S: Into<Style>>(self, style: S) -> (styled: Self)
        ensures
            styled@.content == self@.content,
            styled@.styles.text_color == self@.styles.text_color,
            styled@.styles.background_color == self@.styles.background_color,
            styled@.styles.styles.len() == self@.styles.styles.len() + 1,
            styled@.styles.styles.drop_last() == self@.styles.styles,
            call_ensures(<S as Into<Style>>::into, (style,), styled@.styles.styles.last()),
    {
        let mut styled = self;
        styled.styles.styles.push(style.into());
        assert(styled.styles.styles@.drop_last() =~= self.styles.styles@);
        styled
    }

    /// Puts a whole style set in place of the one the string has.
    pub fn set_styles_from_config(self, value: StylesContainer) -> (styled: StyledString<
        'content,
    >)
        ensures
            styled@ == (StyledText { content: self@.content, styles: value@ }),
    {
        let mut styled = self;
        styled.styles = value;
        styled
    }

    /// Renders the string with styling on or off.
    pub fn render_with(&self, shown: bool) -> (text: String)
        ensures
            text@ == self@.rendered(shown),
    {
        let mut text = String::new();
        if !shown {
            text.append(self.content);
            assert(text@ =~= self@.rendered(shown));
            return text;
        }
        self.styles.render_prefix_into(&mut text);
        text.append(self.content);
        crate::styles::Style(0).render_into(&mut text);
        assert(text@ =~= self@.rendered(shown));
        text
    }

    /// Renders the string with styling on or off, as the given surroundings ask.
    pub fn render(&self, env: &Environment) -> (text: String)
        ensures
            text@ == self@.rendered(styles_shown(*env)),
    {
        self.render_with(show_styles(env))
    }
}

/// Text that can be shown styled.
pub trait StyleString {
    /// The text itself.
    spec fn text(&self) -> Seq<char>;

    /// The text as a styled string with no styles yet.
    fn style(&self) -> (styled: StyledString<'_>)
        ensures
            styled@ == (StyledText { content: self.text(), styles: StyleSet::empty() }),
    ;

    /// The text as a styled string that carries the given preset.
    fn apply_styles<'content>(&'content self, styles: &'content StylesContainer) -> (styled:
        StyledString<'content>)
        ensures
            styled@ == (StyledText { content: self.text(), styles: styles@ }),
    {
        let styled = self.style();
        styled.set_styles_from_config(styles.duplicate())
    }
}

impl StyleString for String {
    open spec fn text(&self) -> Seq<char> {
        self@
    }

    fn style(&self) -> (styled: StyledString<'_>) {
        StyledString::new(self.as_str())
    }
}

impl<'content> StyleString for &'content String {
    open spec fn text(&self) -> Seq<char> {
        self@
    }

    fn style(&self) -> (styled: StyledString<'content>) {
        StyledString::new(self.as_str())
    }
}

impl<'content> StyleString for &'content str {
    open spec fn text(&self) -> Seq<char> {
        self@
    }

    fn style(&self) -> (styled: StyledString<'_>) {
        StyledString::new(self)
    }
}

} // verus!
