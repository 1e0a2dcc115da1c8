use vstd::prelude::*;

use crate::buffer::{style_region, write_result_in, Buffer, CellView};
use crate::component::Component;
use crate::layout::{sat_add, sat_sub, Alignment, Rect};
use crate::style::{AsStyle, AsStyleMut, Style, Stylize};
use crate::text::span::{Span, SpanView, StyledGrapheme, kept_graphemes};
use crate::unicode::graphemes_of;
use crate::text::split::{lines_spec, split_lines};
use crate::unicode::{str_width, truncatable, truncatable_spec, truncate_start, truncate_start_of};

verus! {

/// The value of a [`Line`].
pub struct LineView {
    pub style: Style,
    pub alignment: Option<Alignment>,
    pub spans: Seq<SpanView>,
}

/// Spans drawn one after another on one row, with one alignment.
#[derive(Debug, Hash)]
pub struct Line {
    /// The base style of the line.
    pub style: Style,
    /// The alignment of the line, if it has its own.
    pub alignment: Option<Alignment>,
    /// The spans, in order.
    pub spans: Vec<Span>,
}

impl View for Line {
    type V = LineView;

    open spec fn view(&self) -> LineView {
        LineView {
            style: self.style,
            alignment: self.alignment,
            spans: self.spans@.map_values(|s: Span| s@),
        }
    }
}

/// The total display width of `spans`.
pub open spec fn line_width_spec(spans: Seq<SpanView>) -> int
    decreases spans.len(),
{
    if spans.len() == 0 {
        0
    } else {
        line_width_spec(spans.drop_last()) + str_width(spans.last().content)
    }
}

/// `n` clamped to the largest `usize`.
pub open spec fn sat_usize(n: int) -> int {
    if n <= usize::MAX {
        n
    } else {
        usize::MAX as int
    }
}

/// `n` clamped to the largest `u16`.
pub open spec fn sat_u16(n: int) -> int {
    if n <= u16::MAX {
        n
    } else {
        u16::MAX as int
    }
}

/// The spans that remain once the first `skip` columns are dropped, each with its
/// width and the indent to put before it. Spans that lie wholly in the skipped columns
/// are dropped; the first one that does not is cut from its start to the columns left
/// of it, and the columns that a wide glyph at the cut leaves empty become its indent
/// (a span whose tails are not as wide as their clusters cannot be cut, and leaves its
/// remaining columns blank); the spans after it are kept as they are.
pub open spec fn after_width_spec(spans: Seq<SpanView>, skip: int) -> Seq<(SpanView, int, int)>
    decreases spans.len(),
{
    if spans.len() == 0 {
        seq![]
    } else {
        let s = spans[0];
        let w = str_width(s.content) as int;
        if skip >= w {
            after_width_spec(spans.drop_first(), skip - w)
        } else {
            let available = w - skip;
            let item = if w <= available {
                (s, w, 0)
            } else if !truncatable_spec(s.content) {
                (SpanView { content: seq![], style: s.style }, 0, sat_u16(available))
            } else {
                let t = truncate_start_of(s.content, available as usize);
                (
                    SpanView { content: t.0, style: s.style },
                    t.1 as int,
                    sat_u16(available - t.1),
                )
            };
            seq![item] + after_width_spec(spans.drop_first(), 0)
        }
    }
}

/// The values of a list of spans with widths and indents.
pub open spec fn placed_view(list: Seq<(Span, usize, u16)>) -> Seq<(SpanView, int, int)> {
    list.map_values(|t: (Span, usize, u16)| (t.0@, t.1 as int, t.2 as int))
}

/// The values of a list of spans.
pub open spec fn spans_view(spans: Seq<Span>) -> Seq<SpanView> {
    spans.map_values(|s: Span| s@)
}

/// The spans of `spans` that remain once the first `skip_width` columns are dropped,
/// each with its width and the indent to put before it.
pub fn spans_after_width(spans: &Vec<Span>, skip_width: usize) -> (r: Vec<(Span, usize, u16)>)
    ensures
        placed_view(r@) == after_width_spec(spans_view(spans@), skip_width as int),
{
    let ghost all = spans_view(spans@);
    let mut out: Vec<(Span, usize, u16)> = Vec::new();
    let mut skip = skip_width;
    let mut i: usize = 0;
    proof {
        assert(all.subrange(0, all.len() as int) =~= all);
        assert(placed_view(out@) =~= Seq::<(SpanView, int, int)>::empty());
        assert(placed_view(out@) + after_width_spec(all, skip_width as int) =~= after_width_spec(all, skip_width as int));
    }
    while i < spans.len()
        invariant
            all == spans_view(spans@),
            i <= spans@.len(),
            placed_view(out@) + after_width_spec(all.subrange(i as int, all.len() as int), skip as int)
                == after_width_spec(all, skip_width as int),
        decreases spans@.len() - i,
    {
        let ghost rest = all.subrange(i as int, all.len() as int);
        proof {
            assert(rest.drop_first() =~= all.subrange(i + 1, all.len() as int));
            assert(rest[0] == spans@[i as int]@);
        }
        let span = &spans[i];
        let span_width = span.width();
        if skip >= span_width {
            skip = skip - span_width;
        } else {
            let available_width = span_width - skip;
            skip = 0;
            let ghost before = out@;
            if span_width <= available_width {
                out.push((span.clone(), span_width, 0));
            } else if !truncatable(span.content.as_str()) {
                let offset: u16 = if available_width <= 65535 {
                    available_width as u16
                } else {
                    65535
                };
                out.push((Span { content: String::new(), style: span.style }, 0, offset));
            } else {
                let (content, actual_width) = truncate_start(span.content.as_str(), available_width);
                let gap = available_width - actual_width;
                let offset: u16 = if gap <= 65535 {
                    gap as u16
                } else {
                    65535
                };
                out.push((Span { content, style: span.style }, actual_width, offset));
            }
            proof {
                assert(placed_view(out@) =~= placed_view(before).push(after_width_spec(rest, (span_width - available_width) as int)[0]));
                assert(placed_view(out@) + after_width_spec(rest.drop_first(), 0) =~= placed_view(before) + after_width_spec(rest, (span_width - available_width) as int));
            }
        }
        i = i + 1;
    }
    proof {
        assert(all.subrange(all.len() as int, all.len() as int) =~= Seq::<SpanView>::empty());
        assert(placed_view(out@) + Seq::<(SpanView, int, int)>::empty() =~= placed_view(out@));
    }
    out
}

/// The columns to leave before a line of `line_width` columns that fits `area_width`
/// columns: none when left aligned or without alignment, half the room (rounded down)
/// when centered, all of it when right aligned.
pub open spec fn indent_spec(alignment: Option<Alignment>, line_width: int, area_width: int) -> int {
    match alignment {
        Some(Alignment::Center) => (area_width - line_width) / 2,
        Some(Alignment::Right) => area_width - line_width,
        _ => 0,
    }
}

/// The leading columns to drop from a line of `line_width` columns that does not fit
/// `area_width` columns: none when left aligned or without alignment, half the excess
/// (rounded down) when centered, all of it when right aligned.
pub open spec fn skip_spec(alignment: Option<Alignment>, line_width: int, area_width: int) -> int {
    match alignment {
        Some(Alignment::Center) => (line_width - area_width) / 2,
        Some(Alignment::Right) => line_width - area_width,
        _ => 0,
    }
}

/// The indent before a line that fits, or the columns to drop from one that does not.
pub fn align_offsets(alignment: Option<Alignment>, line_width: usize, area_width: usize) -> (r: (
    usize,
    usize,
))
    ensures
        line_width <= area_width ==> r == (indent_spec(alignment, line_width as int, area_width as int) as usize, 0usize),
        line_width > area_width ==> r == (0usize, skip_spec(alignment, line_width as int, area_width as int) as usize),
{
    if line_width <= area_width {
        let indent = match alignment {
            Some(Alignment::Center) => (area_width - line_width) / 2,
            Some(Alignment::Right) => area_width - line_width,
            _ => 0,
        };
        (indent, 0)
    } else {
        let skip = match alignment {
            Some(Alignment::Center) => (line_width - area_width) / 2,
            Some(Alignment::Right) => line_width - area_width,
            _ => 0,
        };
        (0, skip)
    }
}

/// `area` shifted right by `offset` columns and narrowed by as much.
pub open spec fn indent_rect(area: Rect, offset: int) -> Rect {
    Rect { x: sat_add(area.x, offset as u16), width: sat_sub(area.width, offset as u16), ..area }
}

/// The cells of a buffer over `barea` after one span is written into `area`, in its
/// style patched with the line's style `base`.
pub open spec fn span_write(barea: Rect, cells: Seq<CellView>, area: Rect, span: SpanView, base: Style) -> Seq<
    CellView,
> {
    let a = barea.intersection_spec(area);
    if a.width == 0 || a.height == 0 {
        cells
    } else {
        write_result_in(
            barea,
            cells,
            a.x as int,
            a.y as int,
            span.content,
            a.width as int,
            span.style.patch_spec(base),
        ).cells
    }
}

/// The cells of a buffer over `barea` after the placed spans of `list` are written one
/// after another from the left of `area`: each is indented by its own indent, the
/// writing stops where no column is left, and each span moves the next one right by
/// its width.
pub open spec fn render_list_spec(
    barea: Rect,
    cells: Seq<CellView>,
    area: Rect,
    list: Seq<(SpanView, int, int)>,
    base: Style,
) -> Seq<CellView>
    decreases list.len(),
{
    if list.len() == 0 {
        cells
    } else {
        let a1 = indent_rect(area, list[0].2);
        if a1.width == 0 {
            cells
        } else {
            render_list_spec(
                barea,
                span_write(barea, cells, a1, list[0].0, base),
                indent_rect(a1, sat_u16(list[0].1)),
                list.drop_first(),
                base,
            )
        }
    }
}

fn render_spans(spans: &Vec<Span>, area: Rect, buffer: &mut Buffer, skip_width: usize, base: Style)
    requires
        old(buffer).wf(),
        old(buffer).addressable(),
    ensures
        final(buffer).wf(),
        final(buffer).area == old(buffer).area,
        final(buffer).cells() == render_list_spec(
            old(buffer).area,
            old(buffer).cells(),
            area,
            after_width_spec(spans_view(spans@), skip_width as int),
            base,
        ),
{
    let list = spans_after_width(spans, skip_width);
    let ghost lv = placed_view(list@);
    let ghost area0 = area;
    let mut cur = area;
    let mut k: usize = 0;
    let mut stopped = false;
    proof {
        assert(lv.subrange(0, lv.len() as int) =~= lv);
    }
    while k < list.len() && !stopped
        invariant
            stopped ==> k < list@.len() && render_list_spec(
                old(buffer).area,
                buffer.cells(),
                cur,
                lv.subrange(k as int, lv.len() as int),
                base,
            ) == buffer.cells(),
            buffer.wf(),
            buffer.addressable(),
            buffer.area == old(buffer).area,
            lv == placed_view(list@),
            k <= list@.len(),
            render_list_spec(old(buffer).area, buffer.cells(), cur, lv.subrange(k as int, lv.len() as int), base)
                == render_list_spec(
                old(buffer).area,
                old(buffer).cells(),
                area0,
                after_width_spec(spans_view(spans@), skip_width as int),
                base,
            ),
        decreases list@.len() - k + (if stopped { 0int } else { 1int }),
    {
        proof {
            assert(lv.subrange(k as int, lv.len() as int).drop_first() =~= lv.subrange(k + 1, lv.len() as int));
        }
        let (span, span_width, offset) = &list[k];
        let shifted = cur.indent_x(*offset);
        proof {
            let rest = lv.subrange(k as int, lv.len() as int);
            assert(rest[0] == lv[k as int]);
            assert(lv[k as int] == (span@, *span_width as int, *offset as int));
            assert(indent_rect(cur, rest[0].2) == shifted);
        }
        if shifted.width == 0 {
            proof {
                let rest = lv.subrange(k as int, lv.len() as int);
                assert(render_list_spec(old(buffer).area, buffer.cells(), cur, rest, base) == buffer.cells());
            }
            stopped = true;
        } else {
            span.render_styled(shifted, buffer, span.style.patch(base));
            let w: u16 = if *span_width <= 65535 {
                *span_width as u16
            } else {
                65535
            };
            cur = shifted.indent_x(w);
            k = k + 1;
        }
    }
    proof {
        if k == list@.len() {
            assert(lv.subrange(k as int, lv.len() as int) =~= Seq::<(SpanView, int, int)>::empty());
        }
    }
}

impl Line {
    /// The line's spans, each one line of `content`, unstyled.
    pub fn raw(content: &str) -> (r: Self)
        ensures
            r@.style == Style::empty_spec(),
            r@.alignment is None,
            r@.spans.len() == lines_spec(content@).len(),
            forall|i: int|
                0 <= i < r@.spans.len() ==> #[trigger] r@.spans[i] == (SpanView {
                    content: lines_spec(content@)[i],
                    style: Style::empty_spec(),
                }),
    {
        let lines = split_lines(content);
        let mut spans: Vec<Span> = Vec::new();
        let mut i: usize = 0;
        while i < lines.len()
            invariant
                i <= lines@.len(),
                lines@.len() == lines_spec(content@).len(),
                forall|j: int| 0 <= j < lines@.len() ==> #[trigger] lines@[j]@ == lines_spec(content@)[j],
                spans@.len() == i,
                forall|j: int|
                    0 <= j < i ==> #[trigger] spans@[j]@ == (SpanView {
                        content: lines_spec(content@)[j],
                        style: Style::empty_spec(),
                    }),
            decreases lines@.len() - i,
        {
            spans.push(Span::raw(lines[i].as_str()));
            i = i + 1;
        }
        Line { style: Style::new(), alignment: None, spans }
    }

    /// [`Line::raw`] with a base style.
    pub fn styled(content: &str, style: Style) -> (r: Self)
        ensures
            r@.style == style,
            r@.alignment is None,
            r@.spans.len() == lines_spec(content@).len(),
            forall|i: int|
                0 <= i < r@.spans.len() ==> #[trigger] r@.spans[i] == (SpanView {
                    content: lines_spec(content@)[i],
                    style: Style::empty_spec(),
                }),
    {
        let line = Line::raw(content);
        Line { style, ..line }
    }

    /// Replaces the spans.
    pub fn spans(self, spans: Vec<Span>) -> (r: Self)
        ensures
            r@ == (LineView { spans: spans_view(spans@), ..self@ }),
    {
        Line { spans, ..self }
    }

    /// Replaces the base style.
    pub fn style(self, style: Style) -> (r: Self)
        ensures
            r@ == (LineView { style, ..self@ }),
    {
        Line { style, ..self }
    }

    /// Sets the alignment.
    pub fn alignment(self, alignment: Alignment) -> (r: Self)
        ensures
            r@ == (LineView { alignment: Some(alignment), ..self@ }),
    {
        Line { alignment: Some(alignment), ..self }
    }

    /// Aligns the line to the left.
    pub fn left_aligned(self) -> (r: Self)
        ensures
            r@ == (LineView { alignment: Some(Alignment::Left), ..self@ }),
    {
        self.alignment(Alignment::Left)
    }

    /// Centers the line.
    pub fn centered(self) -> (r: Self)
        ensures
            r@ == (LineView { alignment: Some(Alignment::Center), ..self@ }),
    {
        self.alignment(Alignment::Center)
    }

    /// Aligns the line to the right.
    pub fn right_aligned(self) -> (r: Self)
        ensures
            r@ == (LineView { alignment: Some(Alignment::Right), ..self@ }),
    {
        self.alignment(Alignment::Right)
    }

    /// Patches the base style with `style` (the line's own colors win where present).
    pub fn patch_style(self, style: Style) -> (r: Self)
        ensures
            r@ == (LineView { style: self.style.patch_spec(style), ..self@ }),
    {
        let patched = self.style.patch(style);
        Line { style: patched, ..self }
    }

    /// Appends a span.
    pub fn push_span(&mut self, span: Span)
        ensures
            final(self)@ == (LineView { spans: old(self)@.spans.push(span@), ..old(self)@ }),
    {
        self.spans.push(span);
        assert(spans_view(self.spans@) =~= spans_view(old(self).spans@).push(span@));
    }

    /// The total display width of the spans (clamped to the largest `usize`).
    pub fn width(&self) -> (r: usize)
        ensures
            r == sat_usize(line_width_spec(self@.spans)),
    {
        let ghost sv = self@.spans;
        let mut total: usize = 0;
        let mut i: usize = 0;
        while i < self.spans.len()
            invariant
                sv == self@.spans,
                i <= sv.len(),
                total == sat_usize(line_width_spec(sv.subrange(0, i as int))),
            decreases sv.len() - i,
        {
            proof {
                assert(sv.subrange(0, i + 1).drop_last() =~= sv.subrange(0, i as int));
                lemma_line_width_nonneg(sv.subrange(0, i as int));
            }
            total = total.saturating_add(self.spans[i].width());
            i = i + 1;
        }
        proof {
            assert(sv.subrange(0, sv.len() as int) =~= sv);
        }
        total
    }

    /// Renders the line into the first row of `area` (clipped to `buffer`), with its own
    /// alignment or else `parent_alignment`: after the row takes the line's style, each
    /// span is written in its own style patched with the line's (the span's colors win,
    /// attributes of both are kept); a line that fits is indented by its alignment, and
    /// one that does not loses leading columns by its alignment and is cut at the right
    /// edge.
    pub fn render_with_alignment(
        &self,
        area: Rect,
        buffer: &mut Buffer,
        parent_alignment: Option<Alignment>,
    )
        requires
            old(buffer).wf(),
            old(buffer).addressable(),
        ensures
            final(buffer).wf(),
            final(buffer).area == old(buffer).area,
            ({
                let clipped = old(buffer).area.intersection_spec(area);
                let row = Rect { height: 1, ..clipped };
                let lw = sat_usize(line_width_spec(self@.spans));
                let alignment = if self.alignment is Some {
                    self.alignment
                } else {
                    parent_alignment
                };
                let aw = row.width as int;
                let styled = style_region(
                    old(buffer).area,
                    old(buffer).cells(),
                    old(buffer).area.intersection_spec(row),
                    self.style,
                );
                if clipped.width == 0 || clipped.height == 0 || lw == 0 {
                    final(buffer).cells() == old(buffer).cells()
                } else if lw <= aw {
                    final(buffer).cells() == render_list_spec(
                        old(buffer).area,
                        styled,
                        indent_rect(row, sat_u16(indent_spec(alignment, lw, aw))),
                        after_width_spec(self@.spans, 0),
                        self.style,
                    )
                } else {
                    final(buffer).cells() == render_list_spec(
                        old(buffer).area,
                        styled,
                        row,
                        after_width_spec(self@.spans, skip_spec(alignment, lw, aw)),
                        self.style,
                    )
                }
            }),
    {
        let clipped = buffer.area.intersection(area);
        if clipped.width == 0 || clipped.height == 0 {
            return;
        }
        let row = Rect { height: 1, ..clipped };
        let line_width = self.width();
        if line_width == 0 {
            return;
        }
        buffer.set_style(row, self.style);
        let alignment = if self.alignment.is_some() {
            self.alignment
        } else {
            parent_alignment
        };
        let area_width = row.width as usize;
        let (indent, skip) = align_offsets(alignment, line_width, area_width);
        proof {
            assert(spans_view(self.spans@) == self@.spans);
        }
        if line_width <= area_width {
            let indent16: u16 = if indent <= 65535 {
                indent as u16
            } else {
                65535
            };
            render_spans(&self.spans, row.indent_x(indent16), buffer, 0, self.style);
        } else {
            render_spans(&self.spans, row, buffer, skip, self.style);
        }
    }
}

/// Each span of nonzero width, unchanged, with its width and no indent, in order.
pub open spec fn in_order(spans: Seq<SpanView>) -> Seq<(SpanView, int, int)>
    decreases spans.len(),
{
    if spans.len() == 0 {
        seq![]
    } else {
        let w = str_width(spans[0].content) as int;
        if w == 0 {
            in_order(spans.drop_first())
        } else {
            seq![(spans[0], w, 0)] + in_order(spans.drop_first())
        }
    }
}

/// A line that fits its area and is left aligned (or has no alignment) is drawn from
/// the left edge of its row as its spans in order, none of them cut and none indented,
/// each starting where the one before ends.
pub proof fn lemma_left_aligned_line_keeps_spans(
    spans: Seq<SpanView>,
    alignment: Option<Alignment>,
    area_width: int,
    row: Rect,
)
    requires
        alignment is None || alignment == Some(Alignment::Left),
        line_width_spec(spans) <= area_width,
    ensures
        indent_spec(alignment, line_width_spec(spans), area_width) == 0,
        indent_rect(row, 0) == row,
        after_width_spec(spans, 0) == in_order(spans),
{
    lemma_after_width_zero(spans);
}

/// The cells after writing each span of nonzero width alone, one after another from
/// the left of `area`, each starting where the one before ends, until no column is left.
pub open spec fn one_by_one(
    barea: Rect,
    cells: Seq<CellView>,
    area: Rect,
    spans: Seq<SpanView>,
    base: Style,
) -> Seq<CellView>
    decreases spans.len(),
{
    if spans.len() == 0 {
        cells
    } else {
        let w = str_width(spans[0].content) as int;
        if w == 0 {
            one_by_one(barea, cells, area, spans.drop_first(), base)
        } else if area.width == 0 {
            cells
        } else {
            one_by_one(
                barea,
                span_write(barea, cells, area, spans[0], base),
                indent_rect(area, sat_u16(w)),
                spans.drop_first(),
                base,
            )
        }
    }
}

/// Drawing a line that fits, left aligned, gives the same cells as writing its spans
/// alone, one after another at consecutive offsets from the left of the row.
pub proof fn lemma_left_aligned_line_is_its_spans_one_by_one(
    barea: Rect,
    cells: Seq<CellView>,
    row: Rect,
    spans: Seq<SpanView>,
    base: Style,
)
    ensures
        render_list_spec(barea, cells, indent_rect(row, 0), after_width_spec(spans, 0), base)
            == one_by_one(barea, cells, row, spans, base),
{
    lemma_after_width_zero(spans);
    lemma_in_order_one_by_one(barea, cells, row, spans, base);
}

proof fn lemma_in_order_one_by_one(
    barea: Rect,
    cells: Seq<CellView>,
    area: Rect,
    spans: Seq<SpanView>,
    base: Style,
)
    ensures
        render_list_spec(barea, cells, indent_rect(area, 0), in_order(spans), base) == one_by_one(
            barea,
            cells,
            area,
            spans,
            base,
        ),
    decreases spans.len(),
{
    assert(indent_rect(area, 0) == area);
    if spans.len() > 0 {
        let w = str_width(spans[0].content) as int;
        if w == 0 {
            lemma_in_order_one_by_one(barea, cells, area, spans.drop_first(), base);
        } else {
            let list = in_order(spans);
            assert(list[0] == (spans[0], w, 0int));
            assert(list.drop_first() == in_order(spans.drop_first()));
            if area.width != 0 {
                let next = indent_rect(area, sat_u16(w));
                lemma_in_order_one_by_one(
                    barea,
                    span_write(barea, cells, area, spans[0], base),
                    next,
                    spans.drop_first(),
                    base,
                );
                assert(indent_rect(next, 0) == next);
            }
        }
    }
}

proof fn lemma_after_width_zero(spans: Seq<SpanView>)
    ensures
        after_width_spec(spans, 0) == in_order(spans),
    decreases spans.len(),
{
    if spans.len() > 0 {
        lemma_after_width_zero(spans.drop_first());
    }
}

proof fn lemma_line_width_nonneg(spans: Seq<SpanView>)
    ensures
        line_width_spec(spans) >= 0,
    decreases spans.len(),
{
    if spans.len() > 0 {
        lemma_line_width_nonneg(spans.drop_last());
    }
}

impl Line {
    /// The spans, in order.
    pub fn iter(&self) -> (r: &[Span])
        ensures
            r@ == self.spans@,
    {
        self.spans.as_slice()
    }

    /// The spans, for modification.
    pub fn iter_mut(&mut self) -> &mut [Span] {
        self.spans.as_mut_slice()
    }

    /// The graphemes of every span that hold no control character, in order, each
    /// styled with `base_style` patched with the line's style, patched in turn with
    /// its span's style.
    pub fn styled_graphemes(&self, base_style: Style) -> (r: Vec<StyledGrapheme>)
        ensures
            r@.len() == line_graphemes(self@.spans).len(),
            forall|i: int|
                0 <= i < r@.len() ==> {
                    &&& (#[trigger] r@[i]).symbol@ == line_graphemes(self@.spans)[i].0
                    &&& r@[i].style == base_style.patch_spec(self.style).patch_spec(
                        line_graphemes(self@.spans)[i].1,
                    )
                },
    {
        let base = base_style.patch(self.style);
        let ghost sv = self@.spans;
        let mut out: Vec<StyledGrapheme> = Vec::new();
        let mut i: usize = 0;
        while i < self.spans.len()
            invariant
                sv == self@.spans,
                i <= sv.len(),
                base == base_style.patch_spec(self.style),
                out@.len() == line_graphemes(sv.subrange(0, i as int)).len(),
                forall|k: int|
                    0 <= k < out@.len() ==> {
                        &&& (#[trigger] out@[k]).symbol@ == line_graphemes(sv.subrange(0, i as int))[k].0
                        &&& out@[k].style == base.patch_spec(line_graphemes(sv.subrange(0, i as int))[k].1)
                    },
            decreases sv.len() - i,
        {
            proof {
                assert(sv.subrange(0, i + 1).drop_last() =~= sv.subrange(0, i as int));
            }
            let mut gs = self.spans[i].styled_graphemes(base);
            let ghost prev = out@;
            let ghost added = gs@;
            out.append(&mut gs);
            proof {
                assert(out@ == prev + added);
            }
            i = i + 1;
        }
        proof {
            assert(sv.subrange(0, sv.len() as int) =~= sv);
        }
        out
    }
}

/// The graphemes of `spans` that hold no control character, each with its span's style.
pub open spec fn line_graphemes(spans: Seq<SpanView>) -> Seq<(Seq<char>, Style)>
    decreases spans.len(),
{
    if spans.len() == 0 {
        seq![]
    } else {
        let s = spans.last();
        line_graphemes(spans.drop_last()) + kept_graphemes(graphemes_of(s.content)).map_values(
            |g: Seq<char>| (g, s.style),
        )
    }
}

/// The texts of `spans`, one after another.
pub open spec fn line_text(spans: Seq<SpanView>) -> Seq<char>
    decreases spans.len(),
{
    if spans.len() == 0 {
        seq![]
    } else {
        line_text(spans.drop_last()) + spans.last().content
    }
}

impl Line {
    /// The texts of the spans, one after another, without styles.
    pub fn plain_text(&self) -> (r: String)
        ensures
            r@ == line_text(self@.spans),
    {
        let ghost sv = self@.spans;
        let mut out = String::new();
        let mut i: usize = 0;
        while i < self.spans.len()
            invariant
                sv == self@.spans,
                i <= sv.len(),
                out@ == line_text(sv.subrange(0, i as int)),
            decreases sv.len() - i,
        {
            proof {
                assert(sv.subrange(0, i + 1).drop_last() =~= sv.subrange(0, i as int));
            }
            out.append(self.spans[i].content.as_str());
            i = i + 1;
        }
        proof {
            assert(sv.subrange(0, sv.len() as int) =~= sv);
        }
        out
    }
}

impl AsStyle for Line {
    fn as_style(&self) -> &Style {
        &self.style
    }
}

impl AsStyleMut for Line {
    fn as_style_mut(&mut self) -> &mut Style {
        &mut self.style
    }
}

impl Stylize for Line {
    type Styled = Line;

    fn stylize(self) -> Line {
        self
    }
}

impl From<Vec<Span>> for Line {
    fn from(spans: Vec<Span>) -> (r: Line) {
        Line { style: Style::new(), alignment: None, spans }
    }
}

impl vstd::std_specs::convert::FromSpecImpl<Vec<Span>> for Line {
    open spec fn obeys_from_spec() -> bool {
        true
    }

    open spec fn from_spec(spans: Vec<Span>) -> Line {
        Line { style: Style::empty_spec(), alignment: None, spans }
    }
}

impl Component for Line {
    fn render(self, area: Rect, buffer: &mut Buffer) {
        self.render_with_alignment(area, buffer, None);
    }
}

impl Clone for Line {
    fn clone(&self) -> (r: Self)
        ensures
            r@ == self@,
    {
        let mut spans: Vec<Span> = Vec::new();
        let mut i: usize = 0;
        while i < self.spans.len()
            invariant
                i <= self.spans@.len(),
                spans@.len() == i,
                forall|j: int| 0 <= j < i ==> #[trigger] spans@[j]@ == self.spans@[j]@,
            decreases self.spans@.len() - i,
        {
            spans.push(self.spans[i].clone());
            i = i + 1;
        }
        let r = Line { style: self.style, alignment: self.alignment, spans };
        assert(r@.spans =~= self@.spans);
        r
    }
}

impl Default for Line {
    fn default() -> (r: Self)
        ensures
            r@ == (LineView { style: Style::empty_spec(), alignment: None, spans: Seq::empty() }),
    {
        let r = Line { style: Style::new(), alignment: None, spans: Vec::new() };
        assert(r@.spans =~= Seq::<SpanView>::empty());
        r
    }
}

} // verus!
