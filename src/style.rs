//! Colors, attributes and styles, with the patch law by which styles compose.

use vstd::prelude::*;

mod adaptive;
mod attributes;
mod color;
mod styled;

pub use adaptive::{AdaptiveColor, AdaptiveStyle};
pub use attributes::{all_attributes, lemma_minus_bit, lemma_or_bit, Attribute, Attributes};
pub use color::Color;
pub use styled::StyledString;

verus! {

/// Gives access to the style of a value.
pub trait AsStyle {
    /// The value's style.
    fn as_style(&self) -> &Style;
}

/// Gives mutable access to the style of a value.
pub trait AsStyleMut {
    /// The value's style, for modification.
    fn as_style_mut(&mut self) -> &mut Style;
}

/// Values that can be given colors and attributes.
pub trait Stylize: Sized {
    /// The styled form of the value.
    type Styled: AsStyle + AsStyleMut;

    /// The styled form of the value, with its current style.
    fn stylize(self) -> Self::Styled;

    /// Sets the foreground color.
    fn with(self, color: Color) -> Self::Styled {
        let mut styled = self.stylize();
        styled.as_style_mut().fg = Some(color);
        styled
    }

    /// Sets the background color.
    fn on(self, color: Color) -> Self::Styled {
        let mut styled = self.stylize();
        styled.as_style_mut().bg = Some(color);
        styled
    }

    /// Sets the underline color.
    fn underline(self, color: Color) -> Self::Styled {
        let mut styled = self.stylize();
        styled.as_style_mut().underline = Some(color);
        styled
    }

    /// Adds an attribute.
    fn attribute(self, attribute: Attribute) -> Self::Styled {
        let mut styled = self.stylize();
        styled.as_style_mut().attributes.set(attribute);
        styled
    }

    /// Sets the foreground color to [`Color::Reset`].
    fn reset(self) -> Self::Styled {
        self.with(Color::Reset)
    }
}

impl Stylize for Style {
    type Styled = Style;

    fn stylize(self) -> Style {
        self
    }
}

impl<D> Stylize for StyledString<D> {
    type Styled = StyledString<D>;

    fn stylize(self) -> StyledString<D> {
        self
    }
}

impl Stylize for String {
    type Styled = StyledString<String>;

    fn stylize(self) -> StyledString<String> {
        style(self)
    }
}

impl<'a> Stylize for &'a str {
    type Styled = StyledString<&'a str>;

    fn stylize(self) -> StyledString<&'a str> {
        style(self)
    }
}

impl Stylize for char {
    type Styled = StyledString<char>;

    fn stylize(self) -> StyledString<char> {
        style(self)
    }
}

/// A value with an unstyled [`StyledString`] around it.
pub fn style<D>(val: D) -> (r: StyledString<D>)
    ensures
        r.style == Style::empty_spec(),
        r.content == val,
{
    Style::new().apply(val)
}

/// The output style of a piece of text: optional colors and a set of attributes.
#[derive(Debug, Clone, Copy, PartialEq, Eq, Structural, Hash)]
pub struct Style {
    /// The foreground color, if any.
    pub fg: Option<Color>,
    /// The background color, if any.
    pub bg: Option<Color>,
    /// The underline color, if any.
    pub underline: Option<Color>,
    /// The attributes.
    pub attributes: Attributes,
}

/// `a` when present, otherwise `b`.
pub open spec fn or_color(a: Option<Color>, b: Option<Color>) -> Option<Color> {
    if a is Some {
        a
    } else {
        b
    }
}

impl AsStyle for Style {
    fn as_style(&self) -> &Style {
        self
    }
}

impl AsStyleMut for Style {
    fn as_style_mut(&mut self) -> &mut Style {
        self
    }
}

impl Style {
    pub open spec fn empty_spec() -> Style {
        Style { fg: None, bg: None, underline: None, attributes: Attributes(0) }
    }

    /// `self` patched with `other`: colors of `self` win where present, attributes are unioned.
    pub open spec fn patch_spec(self, other: Style) -> Style {
        Style {
            fg: or_color(self.fg, other.fg),
            bg: or_color(self.bg, other.bg),
            underline: or_color(self.underline, other.underline),
            attributes: Attributes(self.attributes.0 | other.attributes.0),
        }
    }

    /// Wraps a value with this style.
    pub fn apply<D>(self, val: D) -> (r: StyledString<D>)
        ensures
            r.style == self,
            r.content == val,
    {
        StyledString::new(self, val)
    }

    /// A style with no colors and no attributes.
    pub fn new() -> (r: Self)
        ensures
            r == Style::empty_spec(),
    {
        Style { fg: None, bg: None, underline: None, attributes: Attributes::none() }
    }

    /// Sets the foreground color.
    pub fn fg(self, color: Color) -> (r: Self)
        ensures
            r == (Style { fg: Some(color), ..self }),
    {
        Style { fg: Some(color), ..self }
    }

    /// Sets the background color.
    pub fn bg(self, color: Color) -> (r: Self)
        ensures
            r == (Style { bg: Some(color), ..self }),
    {
        Style { bg: Some(color), ..self }
    }

    /// Sets the underline color.
    pub fn underline(self, color: Color) -> (r: Self)
        ensures
            r == (Style { underline: Some(color), ..self }),
    {
        Style { underline: Some(color), ..self }
    }

    /// Replaces the attributes.
    pub fn attributes(self, attributes: Attributes) -> (r: Self)
        ensures
            r == (Style { attributes, ..self }),
    {
        Style { attributes, ..self }
    }

    /// Adds one attribute.
    pub fn attribute(self, attr: Attribute) -> (r: Self)
        ensures
            r == (Style { attributes: Attributes(self.attributes.0 | attr.bit()), ..self }),
    {
        let mut s = self;
        s.attributes.set(attr);
        s
    }

    /// Patches this style with `other`: the colors of `self` are kept where present and
    /// taken from `other` otherwise; the attributes of both are kept.
    pub fn patch(&self, other: Style) -> (r: Self)
        ensures
            r == self.patch_spec(other),
    {
        Style {
            fg: if self.fg.is_some() { self.fg } else { other.fg },
            bg: if self.bg.is_some() { self.bg } else { other.bg },
            underline: if self.underline.is_some() { self.underline } else { other.underline },
            attributes: self.attributes.patch(other.attributes),
        }
    }
}

impl Default for Style {
    fn default() -> (r: Self)
        ensures
            r == Style::empty_spec(),
    {
        Style::new()
    }
}

/// Patching never removes an attribute, and an attribute present in either style is
/// present in the patched style.
pub proof fn lemma_patch_keeps_attributes(a: Style, b: Style, attr: Attribute)
    ensures
        a.patch_spec(b).attributes.has_spec(attr) == (a.attributes.has_spec(attr)
            || b.attributes.has_spec(attr)),
{
    attributes::lemma_or_bit(a.attributes.0, b.attributes.0, attr.code_spec());
}

/// Patching with a style that sets nothing leaves a style unchanged.
pub proof fn lemma_patch_identity(a: Style)
    ensures
        a.patch_spec(Style::empty_spec()) == a,
{
    assert(a.attributes.0 | 0u32 == a.attributes.0) by (bit_vector);
}

} // verus!
