//! A set of adaptive colors for widgets and application output, and a set of adaptive
//! styles for the same roles.

use vstd::prelude::*;

use crate::style::{AdaptiveColor, AdaptiveStyle, Color, Style};

verus! {

/// Output colors that adapt to the terminal background.
#[derive(Debug, Clone, Copy, PartialEq, Eq, Structural, Hash)]
pub struct Theme {
    /// The primary color.
    pub primary: AdaptiveColor,
    /// The secondary color.
    pub secondary: AdaptiveColor,
    /// The color of errors.
    pub error: AdaptiveColor,
    /// The color of warnings.
    pub warning: AdaptiveColor,
    /// The color of success messages.
    pub success: AdaptiveColor,
    /// The color of informational messages.
    pub info: AdaptiveColor,
    /// The color of plain output, usually no color at all.
    pub default: AdaptiveColor,
}

/// The same color on light and dark backgrounds.
pub open spec fn fixed(c: Color) -> AdaptiveColor {
    AdaptiveColor { light: c, dark: c }
}

impl Theme {
    /// The theme with every color set to [`Color::Reset`].
    pub open spec fn empty_spec() -> Theme {
        Theme {
            primary: fixed(Color::Reset),
            secondary: fixed(Color::Reset),
            error: fixed(Color::Reset),
            warning: fixed(Color::Reset),
            success: fixed(Color::Reset),
            info: fixed(Color::Reset),
            default: fixed(Color::Reset),
        }
    }

    /// Cyan primary, green secondary and success, red errors, yellow warnings, blue
    /// information, and no color for plain output.
    pub open spec fn default_spec() -> Theme {
        Theme {
            primary: fixed(Color::Cyan),
            secondary: fixed(Color::Green),
            error: fixed(Color::Red),
            warning: fixed(Color::Yellow),
            success: fixed(Color::Green),
            info: fixed(Color::Blue),
            default: fixed(Color::Reset),
        }
    }

    /// A theme from its seven colors.
    pub fn new(
        primary: AdaptiveColor,
        secondary: AdaptiveColor,
        error: AdaptiveColor,
        warning: AdaptiveColor,
        success: AdaptiveColor,
        info: AdaptiveColor,
        default: AdaptiveColor,
    ) -> (r: Self)
        ensures
            r == (Theme { primary, secondary, error, warning, success, info, default }),
    {
        Theme { primary, secondary, error, warning, success, info, default }
    }

    /// The theme with every color set to [`Color::Reset`].
    pub fn empty() -> (r: Self)
        ensures
            r == Theme::empty_spec(),
    {
        let e = AdaptiveColor::empty();
        Theme::new(e, e, e, e, e, e, e)
    }

    /// Sets the primary color.
    pub fn primary(self, color: AdaptiveColor) -> (r: Self)
        ensures
            r == (Theme { primary: color, ..self }),
    {
        Theme { primary: color, ..self }
    }

    /// Sets the secondary color.
    pub fn secondary(self, color: AdaptiveColor) -> (r: Self)
        ensures
            r == (Theme { secondary: color, ..self }),
    {
        Theme { secondary: color, ..self }
    }

    /// Sets the color of errors.
    pub fn error(self, color: AdaptiveColor) -> (r: Self)
        ensures
            r == (Theme { error: color, ..self }),
    {
        Theme { error: color, ..self }
    }

    /// Sets the color of warnings.
    pub fn warning(self, color: AdaptiveColor) -> (r: Self)
        ensures
            r == (Theme { warning: color, ..self }),
    {
        Theme { warning: color, ..self }
    }

    /// Sets the color of success messages.
    pub fn success(self, color: AdaptiveColor) -> (r: Self)
        ensures
            r == (Theme { success: color, ..self }),
    {
        Theme { success: color, ..self }
    }

    /// Sets the color of informational messages.
    pub fn info(self, color: AdaptiveColor) -> (r: Self)
        ensures
            r == (Theme { info: color, ..self }),
    {
        Theme { info: color, ..self }
    }

    /// Sets the color of plain output.
    pub fn default_color(self, color: AdaptiveColor) -> (r: Self)
        ensures
            r == (Theme { default: color, ..self }),
    {
        Theme { default: color, ..self }
    }
}

impl Default for Theme {
    /// Cyan primary, green secondary and success, red errors, yellow warnings, blue
    /// information, and no color for plain output.
    fn default() -> (r: Self)
        ensures
            r == Theme::default_spec(),
    {
        Theme {
            primary: AdaptiveColor::new(Color::Cyan, Color::Cyan),
            secondary: AdaptiveColor::new(Color::Green, Color::Green),
            error: AdaptiveColor::new(Color::Red, Color::Red),
            warning: AdaptiveColor::new(Color::Yellow, Color::Yellow),
            success: AdaptiveColor::new(Color::Green, Color::Green),
            info: AdaptiveColor::new(Color::Blue, Color::Blue),
            default: AdaptiveColor::new(Color::Reset, Color::Reset),
        }
    }
}

/// The roles of the styles of a [`ThemeStyles`].
#[derive(Debug, Clone, Copy, PartialEq, Eq, Structural, Hash)]
pub enum ThemeStyle {
    /// The primary style
    Primary,
    /// The secondary style
    Secondary,
    /// The style of errors
    Error,
    /// The style of warnings
    Warning,
    /// The style of success messages
    Success,
    /// The style of informational messages
    Info,
    /// The style of plain output
    Output,
}

impl Default for ThemeStyle {
    fn default() -> (r: Self)
        ensures
            r == ThemeStyle::Output,
    {
        ThemeStyle::Output
    }
}

/// One adaptive style for each role of output.
#[derive(Debug, Clone, Copy, PartialEq, Eq, Structural, Hash)]
pub struct ThemeStyles {
    /// The style of output in the application's own color.
    pub primary: AdaptiveStyle,
    /// The style of accented output.
    pub secondary: AdaptiveStyle,
    /// The style of errors.
    pub error: AdaptiveStyle,
    /// The style of warnings.
    pub warning: AdaptiveStyle,
    /// The style of success messages.
    pub success: AdaptiveStyle,
    /// The style of informational messages.
    pub info: AdaptiveStyle,
    /// The style of plain output.
    pub output: AdaptiveStyle,
}

impl ThemeStyles {
    /// `self` with the style of role `identifier` replaced by `style`.
    pub open spec fn with_spec(self, identifier: ThemeStyle, style: AdaptiveStyle) -> ThemeStyles {
        match identifier {
            ThemeStyle::Primary => ThemeStyles { primary: style, ..self },
            ThemeStyle::Secondary => ThemeStyles { secondary: style, ..self },
            ThemeStyle::Error => ThemeStyles { error: style, ..self },
            ThemeStyle::Warning => ThemeStyles { warning: style, ..self },
            ThemeStyle::Success => ThemeStyles { success: style, ..self },
            ThemeStyle::Info => ThemeStyles { info: style, ..self },
            ThemeStyle::Output => ThemeStyles { output: style, ..self },
        }
    }

    /// Every role with the empty style.
    pub fn new() -> (r: Self)
        ensures
            r.primary == (AdaptiveStyle { light: Style::empty_spec(), dark: Style::empty_spec() }),
            r.output == r.primary,
            r.secondary == r.primary && r.error == r.primary && r.warning == r.primary
                && r.success == r.primary && r.info == r.primary,
    {
        let e = AdaptiveStyle::default();
        ThemeStyles { primary: e, secondary: e, error: e, warning: e, success: e, info: e, output: e }
    }

    /// Replaces the style of one role.
    pub fn style(self, identifier: ThemeStyle, style: AdaptiveStyle) -> (r: Self)
        ensures
            r == self.with_spec(identifier, style),
    {
        let mut r = self;
        r.set_style(identifier, style);
        r
    }

    /// Replaces the style of one role in place.
    pub fn set_style(&mut self, identifier: ThemeStyle, style: AdaptiveStyle)
        ensures
            *final(self) == old(self).with_spec(identifier, style),
    {
        match identifier {
            ThemeStyle::Primary => self.primary = style,
            ThemeStyle::Secondary => self.secondary = style,
            ThemeStyle::Error => self.error = style,
            ThemeStyle::Warning => self.warning = style,
            ThemeStyle::Success => self.success = style,
            ThemeStyle::Info => self.info = style,
            ThemeStyle::Output => self.output = style,
        }
    }

    /// Replaces the primary style in place.
    pub fn set_primary(&mut self, style: AdaptiveStyle)
        ensures
            *final(self) == (ThemeStyles { primary: style, ..*old(self) }),
    {
        self.primary = style;
    }

    /// Replaces the primary style.
    pub fn primary(self, style: AdaptiveStyle) -> (r: Self)
        ensures
            r == (ThemeStyles { primary: style, ..self }),
    {
        ThemeStyles { primary: style, ..self }
    }
}

impl Default for ThemeStyles {
    fn default() -> (r: Self)
        ensures
            r.primary == (AdaptiveStyle { light: Style::empty_spec(), dark: Style::empty_spec() }),
            r.secondary == r.primary && r.error == r.primary && r.warning == r.primary
                && r.success == r.primary && r.info == r.primary && r.output == r.primary,
    {
        ThemeStyles::new()
    }
}

} // verus!
