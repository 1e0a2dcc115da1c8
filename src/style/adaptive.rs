use vstd::prelude::*;

use crate::style::{Color, Style};

verus! {

/// A color that depends on whether the terminal background is light or dark.
#[derive(Debug, Clone, Copy, PartialEq, Eq, Structural, Hash)]
pub struct AdaptiveColor {
    /// The color used on a light background.
    pub light: Color,
    /// The color used on a dark background.
    pub dark: Color,
}

impl AdaptiveColor {
    pub open spec fn get_spec(self, light_background: bool) -> Color {
        if light_background {
            self.light
        } else {
            self.dark
        }
    }

    /// Both colors set to [`Color::Reset`].
    pub fn empty() -> (r: Self)
        ensures
            r.light == Color::Reset && r.dark == Color::Reset,
    {
        AdaptiveColor { light: Color::Reset, dark: Color::Reset }
    }

    /// Creates an adaptive color from its light and dark colors.
    pub fn new(light: Color, dark: Color) -> (r: Self)
        ensures
            r.light == light && r.dark == dark,
    {
        AdaptiveColor { light, dark }
    }

    /// The color for the given background: the light color on a light background,
    /// the dark one otherwise.
    pub fn get(&self, light_background: bool) -> (r: Color)
        ensures
            r == self.get_spec(light_background),
    {
        if light_background {
            self.light
        } else {
            self.dark
        }
    }

    /// Sets the dark color.
    pub fn dark(self, dark: Color) -> (r: Self)
        ensures
            r == (AdaptiveColor { dark, ..self }),
    {
        AdaptiveColor { dark, ..self }
    }

    /// Sets the light color.
    pub fn light(self, light: Color) -> (r: Self)
        ensures
            r == (AdaptiveColor { light, ..self }),
    {
        AdaptiveColor { light, ..self }
    }

    /// Sets the dark color in place.
    pub fn set_dark(&mut self, dark: Color)
        ensures
            *final(self) == (AdaptiveColor { dark, ..*old(self) }),
    {
        self.dark = dark;
    }

    /// Sets the light color in place.
    pub fn set_light(&mut self, light: Color)
        ensures
            *final(self) == (AdaptiveColor { light, ..*old(self) }),
    {
        self.light = light;
    }

    /// A style whose foreground is this color, for the given background.
    pub fn as_fg(&self, light_background: bool) -> (r: Style)
        ensures
            r == (Style { fg: Some(self.get_spec(light_background)), ..Style::empty_spec() }),
    {
        Style::new().fg(self.get(light_background))
    }

    /// A style whose background is this color, for the given background.
    pub fn as_bg(&self, light_background: bool) -> (r: Style)
        ensures
            r == (Style { bg: Some(self.get_spec(light_background)), ..Style::empty_spec() }),
    {
        Style::new().bg(self.get(light_background))
    }

    /// A style whose underline color is this color, for the given background.
    pub fn as_underline(&self, light_background: bool) -> (r: Style)
        ensures
            r == (Style { underline: Some(self.get_spec(light_background)), ..Style::empty_spec() }),
    {
        Style::new().underline(self.get(light_background))
    }
}

/// A style that depends on whether the terminal background is light or dark.
#[derive(Debug, Clone, Copy, PartialEq, Eq, Structural, Hash)]
pub struct AdaptiveStyle {
    /// The style used on a light background.
    pub light: Style,
    /// The style used on a dark background.
    pub dark: Style,
}

impl AdaptiveStyle {
    /// An adaptive style from its light and dark styles.
    pub fn new(light: Style, dark: Style) -> (r: Self)
        ensures
            r.light == light && r.dark == dark,
    {
        AdaptiveStyle { light, dark }
    }

    /// The style for the given background: the light style on a light background, the
    /// dark one otherwise.
    pub fn get(&self, light_background: bool) -> (r: Style)
        ensures
            r == if light_background {
                self.light
            } else {
                self.dark
            },
    {
        if light_background {
            self.light
        } else {
            self.dark
        }
    }
}

impl Default for AdaptiveStyle {
    fn default() -> (r: Self)
        ensures
            r.light == Style::empty_spec() && r.dark == Style::empty_spec(),
    {
        AdaptiveStyle { light: Style::new(), dark: Style::new() }
    }
}

impl From<Style> for AdaptiveStyle {
    fn from(value: Style) -> (r: Self) {
        AdaptiveStyle { light: value, dark: value }
    }
}

impl vstd::std_specs::convert::FromSpecImpl<Style> for AdaptiveStyle {
    open spec fn obeys_from_spec() -> bool {
        true
    }

    open spec fn from_spec(value: Style) -> AdaptiveStyle {
        AdaptiveStyle { light: value, dark: value }
    }
}

impl Default for AdaptiveColor {
    fn default() -> (r: Self)
        ensures
            r.light == Color::Reset && r.dark == Color::Reset,
    {
        AdaptiveColor::empty()
    }
}

impl From<Color> for AdaptiveColor {
    fn from(value: Color) -> (r: Self) {
        AdaptiveColor { light: value, dark: value }
    }
}

impl vstd::std_specs::convert::FromSpecImpl<Color> for AdaptiveColor {
    open spec fn obeys_from_spec() -> bool {
        true
    }

    open spec fn from_spec(value: Color) -> AdaptiveColor {
        AdaptiveColor { light: value, dark: value }
    }
}

} // verus!
