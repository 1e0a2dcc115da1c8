use vstd::prelude::*;

use crate::buffer::Buffer;
use crate::component::Component;
use crate::layout::{Alignment, Rect};
use crate::style::Style;
use crate::text::line::{line_width_spec, sat_usize, Line, LineView};
use crate::text::span::{Span, SpanView};
use crate::text::split::{lines_spec, split_lines};

verus! {

/// Lines of text, one per row, with a common alignment and style.
#[derive(Debug, Hash)]
pub struct Text {
    /// The alignment of lines that have none of their own.
    pub alignment: Option<Alignment>,
    /// The style of the text.
    pub style: Style,
    /// The lines, top to bottom.
    pub lines: Vec<Line>,
}

/// The widest of `widths`, or zero.
pub open spec fn max_width_spec(widths: Seq<int>) -> int
    decreases widths.len(),
{
    if widths.len() == 0 {
        0
    } else {
        let m = max_width_spec(widths.drop_last());
        if widths.last() > m {
            widths.last()
        } else {
            m
        }
    }
}

/// The widths of the lines of a text.
pub open spec fn line_widths(lines: Seq<Line>) -> Seq<int> {
    lines.map_values(|l: Line| sat_usize(line_width_spec(l@.spans)))
}

impl Text {
    /// One unstyled line per line of `content`, each a single span; the empty string
    /// gives one empty line.
    pub fn raw(content: &str) -> (r: Self)
        ensures
            r.style == Style::empty_spec(),
            r.alignment is None,
            content@.len() == 0 ==> r.lines@.len() == 1 && r.lines@[0]@.spans == seq![
                SpanView { content: Seq::empty(), style: Style::empty_spec() },
            ],
            content@.len() > 0 ==> r.lines@.len() == lines_spec(content@).len(),
            content@.len() > 0 ==> forall|i: int|
                0 <= i < r.lines@.len() ==> (#[trigger] r.lines@[i])@ == (LineView {
                    style: Style::empty_spec(),
                    alignment: None,
                    spans: seq![SpanView { content: lines_spec(content@)[i], style: Style::empty_spec() }],
                }),
    {
        let mut lines: Vec<Line> = Vec::new();
        if content.unicode_len() == 0 {
            let line = Line::default().spans(vec![Span::raw(content)]);
            assert(content@ =~= Seq::<char>::empty());
            assert(line@.spans =~= seq![SpanView { content: content@, style: Style::empty_spec() }]);
            lines.push(line);
            return Text { alignment: None, style: Style::new(), lines };
        }
        let pieces = split_lines(content);
        let mut i: usize = 0;
        while i < pieces.len()
            invariant
                i <= pieces@.len(),
                pieces@.len() == lines_spec(content@).len(),
                forall|j: int| 0 <= j < pieces@.len() ==> #[trigger] pieces@[j]@ == lines_spec(content@)[j],
                lines@.len() == i,
                forall|j: int|
                    0 <= j < i ==> (#[trigger] lines@[j])@ == (LineView {
                        style: Style::empty_spec(),
                        alignment: None,
                        spans: seq![SpanView { content: lines_spec(content@)[j], style: Style::empty_spec() }],
                    }),
            decreases pieces@.len() - i,
        {
            let line = Line::default().spans(vec![Span::raw(pieces[i].as_str())]);
            assert(line@.spans =~= seq![SpanView { content: lines_spec(content@)[i as int], style: Style::empty_spec() }]);
            lines.push(line);
            i = i + 1;
        }
        Text { alignment: None, style: Style::new(), lines }
    }

    /// [`Text::raw`] with its style patched with `style`.
    pub fn styled(content: &str, style: Style) -> (r: Self)
        ensures
            r.style == Style::empty_spec().patch_spec(style),
            r.alignment is None,
    {
        Text::raw(content).patch_style(style)
    }

    /// The width of the widest line.
    pub fn width(&self) -> (r: usize)
        ensures
            r == max_width_spec(line_widths(self.lines@)),
    {
        let ghost ws = line_widths(self.lines@);
        let mut best: usize = 0;
        let mut i: usize = 0;
        while i < self.lines.len()
            invariant
                ws == line_widths(self.lines@),
                i <= self.lines@.len(),
                best == max_width_spec(ws.subrange(0, i as int)),
            decreases self.lines@.len() - i,
        {
            proof {
                assert(ws.subrange(0, i + 1).drop_last() =~= ws.subrange(0, i as int));
            }
            let w = self.lines[i].width();
            if w > best {
                best = w;
            }
            i = i + 1;
        }
        proof {
            assert(ws.subrange(0, ws.len() as int) =~= ws);
        }
        best
    }

    /// The number of lines.
    pub fn height(&self) -> (r: usize)
        ensures
            r == self.lines@.len(),
    {
        self.lines.len()
    }

    /// Patches the style with `style` (the text's own colors win where present).
    pub fn patch_style(self, style: Style) -> (r: Self)
        ensures
            r.style == self.style.patch_spec(style),
            r.alignment == self.alignment,
            r.lines == self.lines,
    {
        let patched = self.style.patch(style);
        Text { style: patched, ..self }
    }

    /// Replaces the style.
    pub fn style(self, style: Style) -> (r: Self)
        ensures
            r.style == style,
            r.alignment == self.alignment,
            r.lines == self.lines,
    {
        Text { style, ..self }
    }

    /// Removes every color and attribute from the style.
    pub fn reset_style(self) -> (r: Self)
        ensures
            r.style == Style::empty_spec(),
            r.alignment == self.alignment,
            r.lines == self.lines,
    {
        Text { style: Style::new(), ..self }
    }

    /// Sets the alignment.
    pub fn alignment(self, alignment: Alignment) -> (r: Self)
        ensures
            r.alignment == Some(alignment),
            r.style == self.style,
            r.lines == self.lines,
    {
        Text { alignment: Some(alignment), ..self }
    }

    /// The lines, top to bottom.
    pub fn iter(&self) -> (r: &[Line])
        ensures
            r@ == self.lines@,
    {
        self.lines.as_slice()
    }

    /// The lines, for modification.
    pub fn iter_mut(&mut self) -> &mut [Line] {
        self.lines.as_mut_slice()
    }

    /// Renders line `i` into row `i` of `area`, with the text's alignment for lines that
    /// have none; lines past the bottom of `area` are not drawn.
    pub fn render_into(&self, area: Rect, buffer: &mut Buffer)
        requires
            old(buffer).wf(),
            old(buffer).addressable(),
        ensures
            final(buffer).wf(),
            final(buffer).area == old(buffer).area,
    {
        let room = 0x10000 - area.y as usize;
        let mut limit = self.lines.len();
        if (area.height as usize) < limit {
            limit = area.height as usize;
        }
        if room < limit {
            limit = room;
        }
        let mut i: usize = 0;
        while i < limit
            invariant
                limit <= self.lines@.len(),
                limit <= 0x10000 - area.y,
                buffer.wf(),
                buffer.addressable(),
                buffer.area == old(buffer).area,
                i <= self.lines@.len(),
            decreases self.lines@.len() - i,
        {
            let row = Rect { y: area.y + i as u16, height: 1, ..area };
            self.lines[i].render_with_alignment(row, buffer, self.alignment);
            i = i + 1;
        }
    }
}

impl Component for Text {
    fn render(self, area: Rect, buffer: &mut Buffer) {
        self.render_into(area, buffer);
    }
}

impl From<Vec<Line>> for Text {
    fn from(lines: Vec<Line>) -> (r: Text) {
        Text { alignment: None, style: Style::new(), lines }
    }
}

impl vstd::std_specs::convert::FromSpecImpl<Vec<Line>> for Text {
    open spec fn obeys_from_spec() -> bool {
        true
    }

    open spec fn from_spec(lines: Vec<Line>) -> Text {
        Text { alignment: None, style: Style::empty_spec(), lines }
    }
}

impl Default for Text {
    fn default() -> (r: Self)
        ensures
            r.lines@.len() == 0,
            r.style == Style::empty_spec(),
            r.alignment is None,
    {
        Text { alignment: None, style: Style::new(), lines: Vec::new() }
    }
}

} // verus!
