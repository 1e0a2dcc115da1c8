//! A yes/no confirmation prompt. Reading input and updating the state is left to the
//! application.

use vstd::prelude::*;

use crate::buffer::Buffer;
use crate::component::StatefulComponent;
use crate::layout::Rect;
use crate::style::{Attribute, Style};
use crate::text::{Line, Span};
use crate::theme::Theme;

verus! {

/// The state of a confirmation prompt.
#[derive(Debug, Clone, Copy, PartialEq, Eq, Structural, Hash)]
pub struct ConfirmationState {
    /// Whether "yes" is selected.
    pub selected: bool,
    /// Whether the answer has been given.
    pub done: bool,
}

/// A yes/no question.
#[derive(Debug)]
pub struct Confirmation {
    theme: Theme,
    question: String,
    light_background: bool,
}

impl Confirmation {
    pub closed spec fn question_spec(&self) -> Seq<char> {
        self.question@
    }

    pub closed spec fn theme_spec(&self) -> Theme {
        self.theme
    }

    pub closed spec fn light_spec(&self) -> bool {
        self.light_background
    }

    /// A prompt for `question` with the default theme, for a dark background.
    pub fn new(question: &str) -> (r: Self)
        ensures
            r.question_spec() == question@,
            r.theme_spec() == Theme::default_spec(),
            !r.light_spec(),
    {
        Confirmation {
            theme: Theme::default(),
            question: String::from_str(question),
            light_background: false,
        }
    }

    /// Sets the theme.
    pub fn theme(self, theme: Theme) -> (r: Self)
        ensures
            r.theme_spec() == theme,
            r.question_spec() == self.question_spec(),
            r.light_spec() == self.light_spec(),
    {
        Confirmation { theme, ..self }
    }

    /// Chooses the theme colors for a light background or a dark one.
    pub fn light_background(self, light: bool) -> (r: Self)
        ensures
            r.theme_spec() == self.theme_spec(),
            r.question_spec() == self.question_spec(),
            r.light_spec() == light,
    {
        Confirmation { light_background: light, ..self }
    }

    /// The prompt line: the question, then `[Y]es/[N]o`, with the selected answer
    /// highlighted by its background color and the other shown in its text color.
    pub fn get_line(&self, state: &ConfirmationState) -> (r: Line)
        ensures
            r@.spans.len() == 5,
            r@.spans[0].content == self.question_spec(),
            r@.spans[2].style == (if state.selected {
                (Style { bg: Some(self.theme_spec().success.get_spec(self.light_spec())), ..Style::empty_spec() })
            } else {
                (Style { fg: Some(self.theme_spec().success.get_spec(self.light_spec())), ..Style::empty_spec() })
            }),
            r@.spans[4].style == (if state.selected {
                (Style { fg: Some(self.theme_spec().error.get_spec(self.light_spec())), ..Style::empty_spec() })
            } else {
                (Style { bg: Some(self.theme_spec().error.get_spec(self.light_spec())), ..Style::empty_spec() })
            }),
    {
        let success = self.theme.success.get(self.light_background);
        let error = self.theme.error.get(self.light_background);
        let (yes_style, no_style) = if state.selected {
            (Style::new().bg(success), Style::new().fg(error))
        } else {
            (Style::new().fg(success), Style::new().bg(error))
        };
        Line::default().spans(
            vec![
                Span::raw(self.question.as_str()),
                Span::raw(" "),
                Span::styled("[Y]es", yes_style),
                Span::raw("/"),
                Span::styled("[N]o", no_style),
            ],
        )
    }

    /// The line shown once answered: a bold check mark in the success color, or a bold
    /// cross in the error color, followed by the question.
    pub fn completed_line(&self, state: &ConfirmationState) -> (r: Line)
        ensures
            r@.spans.len() == 2,
            r@.spans[1].content == self.question_spec(),
    {
        let mark = if state.selected {
            Span::styled(
                "✓",
                Style::new().fg(self.theme.success.get(self.light_background)).attribute(
                    Attribute::Bold,
                ),
            )
        } else {
            Span::styled(
                "x",
                Style::new().fg(self.theme.error.get(self.light_background)).attribute(
                    Attribute::Bold,
                ),
            )
        };
        let mut line = Line::default().spans(vec![mark]);
        line.push_span(Span::raw(self.question.as_str()));
        line
    }
}

impl StatefulComponent for Confirmation {
    type State = ConfirmationState;

    /// Draws the prompt, or the answered line once the state is done; asks to be drawn
    /// again until then.
    fn render(self, area: Rect, buffer: &mut Buffer, state: &mut ConfirmationState) -> (r: bool) {
        if state.done {
            let line = self.completed_line(state);
            line.render_with_alignment(area, buffer, None);
            false
        } else {
            let line = self.get_line(state);
            line.render_with_alignment(area, buffer, None);
            true
        }
    }
}

} // verus!
