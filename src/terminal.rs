//! The [`Terminal`]: two buffers, a backend, and the viewport they draw into.

use vstd::prelude::*;

use crate::backend::{Backend, ClearType};
use crate::buffer::{diff_spec, empty_cell, resized_cells, Buffer, CellView};
use crate::component::{Component, StatefulComponent};
use crate::layout::{min16, sat_sub};
use crate::layout::{Position, Rect, Size};
use crate::style::{Style, StyledString};

verus! {

/// Where the terminal draws.
#[derive(Debug, Clone, Copy, PartialEq, Eq, Structural, Hash)]
pub enum Viewport {
    /// A region `height` rows tall, as wide as the terminal, below the cursor.
    Inline(u16),
    /// A fixed region of the screen.
    Fixed(Rect),
}

/// How a [`Terminal`] is set up.
#[derive(Debug, Clone, Copy, PartialEq, Eq, Structural, Hash)]
pub struct Options {
    /// Whether the terminal should respect CTRL+C.
    pub respect_exit: bool,
    /// Where the terminal draws.
    pub viewport: Viewport,
}

/// The rows to add below the cursor, and the area of an inline viewport `height` rows
/// tall on a terminal of `size` whose cursor is on row `cursor_row`, when
/// `offset_in_previous_viewport` rows of the previous viewport lay above the cursor.
pub open spec fn inline_viewport_spec(
    height: u16,
    size: Size,
    offset_in_previous_viewport: u16,
    cursor_row: u16,
) -> (u16, Rect) {
    let lines_after_cursor = sat_sub(sat_sub(height, offset_in_previous_viewport), 1);
    let available_lines = sat_sub(sat_sub(size.height, cursor_row), 1);
    let missing_lines = sat_sub(lines_after_cursor, available_lines);
    let row = if missing_lines > 0 {
        sat_sub(cursor_row, missing_lines)
    } else {
        cursor_row
    };
    let row = sat_sub(row, offset_in_previous_viewport);
    (
        lines_after_cursor,
        Rect { x: 0, y: row, width: size.width, height: min16(size.height, height) },
    )
}

/// Places an inline viewport: the number of blank lines to append below the cursor, so
/// that the viewport has room without overwriting earlier output, and the viewport's
/// area, corrected for the scrolling that appending those lines causes.
pub fn inline_viewport(
    height: u16,
    size: Size,
    offset_in_previous_viewport: u16,
    cursor_row: u16,
) -> (r: (u16, Rect))
    ensures
        r == inline_viewport_spec(height, size, offset_in_previous_viewport, cursor_row),
{
    let lines_after_cursor = height.saturating_sub(offset_in_previous_viewport).saturating_sub(1);
    let available_lines = size.height.saturating_sub(cursor_row).saturating_sub(1);
    let missing_lines = lines_after_cursor.saturating_sub(available_lines);
    let mut row = cursor_row;
    if missing_lines > 0 {
        row = row.saturating_sub(missing_lines);
    }
    row = row.saturating_sub(offset_in_previous_viewport);
    let max_height = if size.height <= height {
        size.height
    } else {
        height
    };
    (lines_after_cursor, Rect { x: 0, y: row, width: size.width, height: max_height })
}

/// Every column and row of `r` can be written as a `u16` coordinate.
pub open spec fn addressable_rect(r: Rect) -> bool {
    r.x + r.width <= 0x10000 && r.y + r.height <= 0x10000
}

/// `r` cut to the columns and rows that a `u16` coordinate can address.
pub open spec fn clip_spec(r: Rect) -> Rect {
    Rect {
        width: if r.x + r.width <= 0x10000 {
            r.width
        } else {
            (0x10000 - r.x) as u16
        },
        height: if r.y + r.height <= 0x10000 {
            r.height
        } else {
            (0x10000 - r.y) as u16
        },
        ..r
    }
}

/// The rectangle cut to the columns and rows that a `u16` coordinate can address.
pub fn clip_to_addressable(r: Rect) -> (c: Rect)
    ensures
        c == clip_spec(r),
{
    let width = if r.x as u32 + r.width as u32 <= 0x10000 {
        r.width
    } else {
        (0x10000 - r.x as u32) as u16
    };
    let height = if r.y as u32 + r.height as u32 <= 0x10000 {
        r.height
    } else {
        (0x10000 - r.y as u32) as u16
    };
    Rect { width, height, ..r }
}

/// Asks the backend for the cursor, appends the blank lines that an inline viewport
/// needs below it, and returns the viewport's area with the cursor position read.
pub fn compute_inline_size<B: Backend>(
    backend: &mut B,
    height: u16,
    size: Size,
    offset_in_previous_viewport: u16,
) -> (r: Result<(Rect, Position), B::Error>)
    ensures
        r matches Ok(v) ==> v.0 == inline_viewport_spec(
            height,
            size,
            offset_in_previous_viewport,
            v.1.y,
        ).1,
{
    let pos = backend.get_cursor_position()?;
    let (lines_after_cursor, area) = inline_viewport(
        height,
        size,
        offset_in_previous_viewport,
        pos.y,
    );
    backend.append_lines(lines_after_cursor)?;
    Ok((area, pos))
}

/// The cursor moves and clears that empty a viewport on screen, in order: for an
/// inline viewport, one clear after the cursor from its top-left corner; for a fixed
/// one, which need not reach the screen's edge, one clear from the start of each of its
/// rows, top to bottom.
pub open spec fn clear_plan_spec(viewport: Viewport, area: Rect) -> Seq<(Position, ClearType)> {
    match viewport {
        Viewport::Inline(_) => seq![(Position { x: area.x, y: area.y }, ClearType::AfterCursor)],
        Viewport::Fixed(_) => Seq::new(
            (area.bottom_spec() - area.y) as nat,
            |i: int| (Position { x: 0, y: (area.y + i) as u16 }, ClearType::AfterCursor),
        ),
    }
}

/// The cursor moves and clears that empty a viewport on screen, in order.
pub fn clear_plan(viewport: Viewport, area: Rect) -> (r: Vec<(Position, ClearType)>)
    ensures
        r@ == clear_plan_spec(viewport, area),
{
    let mut plan: Vec<(Position, ClearType)> = Vec::new();
    match viewport {
        Viewport::Inline(_) => {
            plan.push((area.as_position(), ClearType::AfterCursor));
            assert(plan@ =~= clear_plan_spec(viewport, area));
        },
        Viewport::Fixed(_) => {
            let bottom = area.bottom();
            let mut y = area.top();
            while y < bottom
                invariant
                    area.y <= y <= bottom,
                    bottom == area.bottom_spec(),
                    plan@ =~= Seq::new(
                        (y - area.y) as nat,
                        |i: int| (Position { x: 0, y: (area.y + i) as u16 }, ClearType::AfterCursor),
                    ),
                decreases bottom - y,
            {
                plan.push((Position { x: 0, y }, ClearType::AfterCursor));
                y = y + 1;
            }
            assert(plan@ =~= clear_plan_spec(viewport, area));
        },
    }
    plan
}

/// The area a terminal with `viewport` resizes to once it has read the terminal size
/// `size`: for an inline viewport, the area at the origin of that size when it differs
/// from the last known area; otherwise none.
pub open spec fn autoresize_target_spec(viewport: Viewport, last_known_area: Rect, size: Size) -> Option<
    Rect,
> {
    let area = Rect { x: 0, y: 0, width: size.width, height: size.height };
    if viewport is Inline && area != last_known_area {
        Some(area)
    } else {
        None
    }
}

/// The area a terminal resizes to once it has read the terminal size, if any.
pub fn autoresize_target(viewport: Viewport, last_known_area: Rect, size: Size) -> (r: Option<Rect>)
    ensures
        r == autoresize_target_spec(viewport, last_known_area, size),
{
    let area = Rect { x: 0, y: 0, width: size.width, height: size.height };
    match viewport {
        Viewport::Inline(_) => if area != last_known_area {
            Some(area)
        } else {
            None
        },
        Viewport::Fixed(_) => None,
    }
}

/// Text handed to the terminal for output, with the style it asks for.
pub trait Input {
    /// The text.
    fn content(&self) -> String;

    /// The style; none by default.
    fn style(&self) -> Style {
        Style::new()
    }
}

impl Input for String {
    fn content(&self) -> String {
        self.clone()
    }
}

impl<'a> Input for &'a str {
    fn content(&self) -> String {
        String::from_str(*self)
    }
}

impl Input for StyledString<String> {
    fn content(&self) -> String {
        self.content.clone()
    }

    fn style(&self) -> Style {
        self.style
    }
}

/// The current buffer while one render pass draws into it, with the viewport area and
/// the cursor position the pass asks for.
pub struct Frame {
    cursor_position: Option<Position>,
    viewport_area: Rect,
    buffer: Buffer,
}

impl Frame {
    /// The buffer is well formed, addressable, and covers the viewport.
    pub closed spec fn wf(&self) -> bool {
        self.buffer.wf() && self.buffer.addressable() && self.buffer.area == self.viewport_area
    }

    pub closed spec fn cursor_spec(&self) -> Option<Position> {
        self.cursor_position
    }

    pub closed spec fn area_spec(&self) -> Rect {
        self.viewport_area
    }

    /// The buffer being drawn.
    pub closed spec fn buffer_spec(&self) -> Buffer {
        self.buffer
    }

    /// The area of the viewport.
    pub fn area(&self) -> (r: Rect)
        ensures
            r == self.area_spec(),
    {
        self.viewport_area
    }

    /// Asks for the cursor to be shown at `position` once the frame is drawn.
    pub fn set_cursor_position(&mut self, position: Position)
        requires
            old(self).wf(),
        ensures
            final(self).wf(),
            final(self).cursor_spec() == Some(position),
            final(self).area_spec() == old(self).area_spec(),
    {
        self.cursor_position = Some(position);
    }

    /// Renders a component into `area` of the frame's buffer.
    pub fn render_component<C: Component>(&mut self, component: C, area: Rect)
        requires
            old(self).wf(),
        ensures
            final(self).wf(),
            final(self).cursor_spec() == old(self).cursor_spec(),
            final(self).area_spec() == old(self).area_spec(),
    {
        component.render(area, &mut self.buffer);
    }

    /// Renders a stateful component into `area` of the frame's buffer; returns whether
    /// it wants to be rendered again.
    pub fn render_stateful_component<C: StatefulComponent>(
        &mut self,
        component: C,
        area: Rect,
        state: &mut C::State,
    ) -> (r: bool)
        requires
            old(self).wf(),
        ensures
            final(self).wf(),
            final(self).cursor_spec() == old(self).cursor_spec(),
            final(self).area_spec() == old(self).area_spec(),
    {
        component.render(area, &mut self.buffer, state)
    }
}

/// A frame that has been drawn: the buffer it left and the terminal area at the time.
pub struct CompletedFrame<'a> {
    pub buffer: &'a Buffer,
    pub area: Rect,
}

/// Double-buffered output through a backend: each pass draws only the cells that
/// changed since the last completed pass.
pub struct Terminal<B: Backend> {
    backend: B,
    buffers: [Buffer; 2],
    current: usize,
    hidden_cursor: bool,
    viewport: Viewport,
    viewport_area: Rect,
    last_known_area: Rect,
    last_known_cursor_pos: Position,
}

/// Every cell of `cells` is the empty cell.
pub open spec fn all_empty(cells: Seq<CellView>) -> bool {
    forall|i: int| 0 <= i < cells.len() ==> #[trigger] cells[i] == empty_cell()
}

impl<B: Backend> Terminal<B> {
    /// Both buffers are well formed over the viewport area, which is addressable.
    pub closed spec fn wf(&self) -> bool {
        &&& self.current < 2
        &&& self.buffers[0].wf()
        &&& self.buffers[1].wf()
        &&& self.buffers[0].area == self.viewport_area
        &&& self.buffers[1].area == self.viewport_area
        &&& self.buffers[0].addressable()
        &&& self.buffers[1].addressable()
    }

    pub closed spec fn index_spec(&self) -> usize {
        self.current
    }

    pub closed spec fn current_spec(&self) -> Buffer {
        self.buffers[self.current as int]
    }

    pub closed spec fn previous_spec(&self) -> Buffer {
        self.buffers[1 - self.current]
    }

    pub closed spec fn viewport_spec(&self) -> Viewport {
        self.viewport
    }

    pub closed spec fn viewport_area_spec(&self) -> Rect {
        self.viewport_area
    }

    pub closed spec fn last_known_area_spec(&self) -> Rect {
        self.last_known_area
    }

    pub closed spec fn cursor_spec(&self) -> Position {
        self.last_known_cursor_pos
    }

    pub closed spec fn hidden_cursor_spec(&self) -> bool {
        self.hidden_cursor
    }

    /// A terminal with an inline viewport one row tall.
    pub fn new(backend: B) -> (r: Result<Self, B::Error>)
        ensures
            r matches Ok(t) ==> t.wf() && t.viewport_spec() == Viewport::Inline(1),
    {
        Self::with_options(backend, Options { respect_exit: true, viewport: Viewport::Inline(1) })
    }

    /// A terminal drawing into the viewport of `options`, with two empty buffers. An
    /// inline viewport is placed below the cursor, on a terminal of the size the backend
    /// reports (cut to the rows a `u16` can address); a fixed one is taken as given and
    /// needs no backend call.
    pub fn with_options(backend: B, options: Options) -> (r: Result<Self, B::Error>)
        requires
            options.viewport matches Viewport::Fixed(rect) ==> addressable_rect(rect),
        ensures
            options.viewport is Fixed ==> r is Ok,
            r matches Ok(t) ==> {
                &&& t.wf()
                &&& t.viewport_spec() == options.viewport
                &&& t.index_spec() == 0
                &&& !t.hidden_cursor_spec()
                &&& all_empty(t.current_spec().cells())
                &&& all_empty(t.previous_spec().cells())
                &&& options.viewport matches Viewport::Fixed(rect) ==> {
                    &&& t.viewport_area_spec() == rect
                    &&& t.last_known_area_spec() == rect
                    &&& t.cursor_spec() == Position { x: rect.x, y: rect.y }
                }
                &&& options.viewport matches Viewport::Inline(h) ==> {
                    &&& t.last_known_area_spec().x == 0
                    &&& t.last_known_area_spec().y == 0
                    &&& t.viewport_area_spec() == clip_spec(
                        inline_viewport_spec(
                            h,
                            Size {
                                width: t.last_known_area_spec().width,
                                height: t.last_known_area_spec().height,
                            },
                            0,
                            t.cursor_spec().y,
                        ).1,
                    )
                }
            },
    {
        let mut backend = backend;
        let (area, viewport_area, cursor_pos) = match options.viewport {
            Viewport::Inline(height) => {
                let size = backend.size()?;
                let area = Rect { x: 0, y: 0, width: size.width, height: size.height };
                let (viewport_area, cursor_pos) = compute_inline_size(
                    &mut backend,
                    height,
                    size,
                    0,
                )?;
                (area, clip_to_addressable(viewport_area), cursor_pos)
            },
            Viewport::Fixed(rect) => (rect, rect, rect.as_position()),
        };
        Ok(Terminal {
            backend,
            buffers: [Buffer::empty(viewport_area), Buffer::empty(viewport_area)],
            current: 0,
            hidden_cursor: false,
            viewport: options.viewport,
            viewport_area,
            last_known_area: area,
            last_known_cursor_pos: cursor_pos,
        })
    }

    /// Begins a frame: the current buffer moves into the frame, with no cursor
    /// requested, and an empty buffer over the viewport takes its place until
    /// [`Terminal::end_frame`].
    pub fn get_frame(&mut self) -> (r: Frame)
        requires
            old(self).wf(),
        ensures
            final(self).wf(),
            r.wf(),
            r.cursor_spec() is None,
            r.area_spec() == old(self).viewport_area_spec(),
            r.buffer_spec() == old(self).current_spec(),
            all_empty(final(self).current_spec().cells()),
            final(self).previous_spec() == old(self).previous_spec(),
            final(self).index_spec() == old(self).index_spec(),
            final(self).viewport_spec() == old(self).viewport_spec(),
            final(self).viewport_area_spec() == old(self).viewport_area_spec(),
            final(self).last_known_area_spec() == old(self).last_known_area_spec(),
            final(self).cursor_spec() == old(self).cursor_spec(),
            final(self).hidden_cursor_spec() == old(self).hidden_cursor_spec(),
    {
        let c = self.current;
        let mut taken = Buffer::empty(self.viewport_area);
        core::mem::swap(&mut self.buffers[c], &mut taken);
        Frame { cursor_position: None, viewport_area: self.viewport_area, buffer: taken }
    }

    /// Ends a frame: its buffer, resized to the viewport area, becomes the current
    /// buffer again. Returns the cursor position the frame asked for.
    pub fn end_frame(&mut self, frame: Frame) -> (r: Option<Position>)
        requires
            old(self).wf(),
        ensures
            final(self).wf(),
            r == frame.cursor_spec(),
            final(self).current_spec().area == old(self).viewport_area_spec(),
            final(self).current_spec().cells() == resized_cells(
                frame.buffer_spec().cells(),
                old(self).viewport_area_spec().area_spec(),
            ),
            final(self).previous_spec() == old(self).previous_spec(),
            final(self).index_spec() == old(self).index_spec(),
            final(self).viewport_spec() == old(self).viewport_spec(),
            final(self).viewport_area_spec() == old(self).viewport_area_spec(),
            final(self).last_known_area_spec() == old(self).last_known_area_spec(),
            final(self).cursor_spec() == old(self).cursor_spec(),
            final(self).hidden_cursor_spec() == old(self).hidden_cursor_spec(),
    {
        let Frame { cursor_position, viewport_area: _, buffer } = frame;
        let mut buffer = buffer;
        buffer.resize(self.viewport_area);
        let c = self.current;
        core::mem::swap(&mut self.buffers[c], &mut buffer);
        cursor_position
    }

    /// The buffer that the next pass draws into.
    pub fn current_buffer_mut(&mut self) -> (r: &mut Buffer)
        requires
            old(self).wf(),
        ensures
            *r == old(self).current_spec(),
    {
        &mut self.buffers[self.current]
    }

    /// The backend.
    pub fn backend(&self) -> &B {
        &self.backend
    }

    /// The backend, for modification.
    pub fn backend_mut(&mut self) -> &mut B {
        &mut self.backend
    }

    /// Hands the backend the diff from the previous buffer to the current one, and
    /// remembers the position of its last update as the cursor position.
    pub fn flush(&mut self) -> (r: Result<(), B::Error>)
        requires
            old(self).wf(),
        ensures
            final(self).index_spec() == old(self).index_spec(),
            final(self).wf(),
            final(self).current_spec() == old(self).current_spec(),
            final(self).previous_spec() == old(self).previous_spec(),
            final(self).viewport_spec() == old(self).viewport_spec(),
            final(self).viewport_area_spec() == old(self).viewport_area_spec(),
            final(self).last_known_area_spec() == old(self).last_known_area_spec(),
            final(self).hidden_cursor_spec() == old(self).hidden_cursor_spec(),
            ({
                let d = diff_spec(
                    old(self).previous_spec().cells(),
                    old(self).current_spec().cells(),
                    old(self).viewport_area_spec(),
                    old(self).current_spec().cells().len(),
                );
                &&& d.len() == 0 ==> final(self).cursor_spec() == old(self).cursor_spec()
                &&& d.len() > 0 ==> final(self).cursor_spec().x == d.last().0
                    && final(self).cursor_spec().y == d.last().1
            }),
    {
        let previous_buffer = &self.buffers[1 - self.current];
        let current_buffer = &self.buffers[self.current];
        let updates = previous_buffer.diff(current_buffer);
        let n = updates.len();
        if n > 0 {
            let (col, row, _) = updates[n - 1];
            self.last_known_cursor_pos = Position { x: col, y: row };
        }
        self.backend.draw(&updates)
    }

    fn set_viewport_area(&mut self, area: Rect)
        requires
            old(self).wf(),
            addressable_rect(area),
        ensures
            final(self).wf(),
            final(self).viewport_area_spec() == area,
            final(self).previous_spec().cells() == resized_cells(
                old(self).previous_spec().cells(),
                area.area_spec(),
            ),
            final(self).current == old(self).current,
            final(self).viewport == old(self).viewport,
            final(self).last_known_area == old(self).last_known_area,
            final(self).last_known_cursor_pos == old(self).last_known_cursor_pos,
            final(self).hidden_cursor == old(self).hidden_cursor,
    {
        let c = self.current;
        self.buffers[c].resize(area);
        self.buffers[1 - c].resize(area);
        self.viewport_area = area;
    }

    /// Moves to a new terminal area: an inline viewport is placed again below the
    /// cursor (cut to the rows a `u16` can address), a fixed one takes the area as given;
    /// both buffers are resized and the viewport is cleared.
    pub fn resize(&mut self, area: Rect) -> (r: Result<(), B::Error>)
        requires
            old(self).wf(),
            old(self).viewport_spec() is Fixed ==> addressable_rect(area),
        ensures
            r is Err ==> final(self).last_known_area_spec() == old(self).last_known_area_spec(),
            r is Err && final(self).viewport_area_spec() == old(self).viewport_area_spec() ==> {
                &&& final(self).previous_spec().area == old(self).previous_spec().area
                &&& final(self).previous_spec().cells() == old(self).previous_spec().cells()
            },
            final(self).index_spec() == old(self).index_spec(),
            final(self).wf(),
            final(self).viewport_spec() == old(self).viewport_spec(),
            r is Ok ==> final(self).last_known_area_spec() == area,
            r is Ok ==> all_empty(final(self).previous_spec().cells()),
            old(self).viewport_spec() is Fixed ==> final(self).viewport_area_spec() == area,
            r is Ok ==> (old(self).viewport_spec() matches Viewport::Inline(h) ==> exists|row: u16|
                final(self).viewport_area_spec() == clip_spec(
                    #[trigger] inline_viewport_spec(
                        h,
                        Size { width: area.width, height: area.height },
                        sat_sub(old(self).cursor_spec().y, old(self).viewport_area_spec().y),
                        row,
                    ).1,
                )),
    {
        let ghost mut row_witness: u16 = 0;
        let next_area = match self.viewport {
            Viewport::Inline(height) => {
                let offset_in_previous_viewport = self.last_known_cursor_pos.y.saturating_sub(
                    self.viewport_area.top(),
                );
                let (next, pos) = compute_inline_size(
                    &mut self.backend,
                    height,
                    area.as_size(),
                    offset_in_previous_viewport,
                )?;
                proof {
                    row_witness = pos.y;
                }
                clip_to_addressable(next)
            },
            Viewport::Fixed(_) => area,
        };
        self.set_viewport_area(next_area);
        proof {
            if next_area == old(self).viewport_area {
                assert(self.previous_spec().cells() =~= old(self).previous_spec().cells());
            }
        }
        self.clear()?;
        self.last_known_area = area;
        proof {
            if let Viewport::Inline(h) = old(self).viewport_spec() {
                let _ = inline_viewport_spec(
                    h,
                    Size { width: area.width, height: area.height },
                    sat_sub(old(self).cursor_spec().y, old(self).viewport_area_spec().y),
                    row_witness,
                );
            }
        }
        Ok(())
    }

    /// Runs one render pass: adapts an inline viewport to the terminal size, then runs
    /// [`Terminal::render_pass`].
    pub fn try_draw<F>(&mut self, render_callback: F) -> (r: Result<CompletedFrame<'_>, B::Error>)
        where
            F: FnOnce(&mut Frame) -> Result<(), B::Error>,
        requires
            old(self).wf(),
            forall|f: &mut Frame| render_callback.requires((f,)),
        ensures
            final(self).wf(),
            final(self).viewport_spec() == old(self).viewport_spec(),
            r is Ok ==> all_empty(final(self).current_spec().cells()),
            r is Ok ==> exists|f: &mut Frame, res: Result<(), B::Error>|
                {
                    &&& #[trigger] render_callback.ensures((f,), res)
                    &&& (*f).cursor_spec() is None
                    &&& (*f).area_spec() == final(self).viewport_area_spec()
                    &&& (old(self).viewport_spec() is Fixed ==> (*f).buffer_spec()
                        == old(self).current_spec())
                    &&& final(self).previous_spec().area == final(self).viewport_area_spec()
                    &&& final(self).previous_spec().cells() == resized_cells(
                        final(f).buffer_spec().cells(),
                        final(self).viewport_area_spec().area_spec(),
                    )
                    &&& final(self).hidden_cursor_spec() == (final(f).cursor_spec() is None)
                },
            r is Ok ==> final(self).index_spec() == 1 - old(self).index_spec(),
            r matches Ok(frame) ==> *frame.buffer == final(self).previous_spec()
                && frame.area == final(self).last_known_area_spec(),
            r is Err && final(self).viewport_area_spec() == old(self).viewport_area_spec()
                && final(self).last_known_area_spec() == old(self).last_known_area_spec() ==> {
                &&& final(self).previous_spec().area == old(self).previous_spec().area
                &&& final(self).previous_spec().cells() == old(self).previous_spec().cells()
            },
            r is Err ==> final(self).index_spec() == old(self).index_spec(),
            r is Err && old(self).viewport_spec() is Fixed ==> final(self).previous_spec()
                == old(self).previous_spec(),
    {
        self.autoresize()?;
        self.render_pass(render_callback)
    }

    /// One render pass over the current viewport: lets `render_callback` draw into the
    /// current buffer, draws what changed since the previous buffer, shows the cursor
    /// where the callback asked for it (hides it otherwise), flushes, and swaps the
    /// buffers, so that the buffer just drawn becomes the previous one and the next pass
    /// starts from an empty buffer. An error of the callback or the backend ends the
    /// pass and is returned before the swap: the previous buffer and the buffer index
    /// are then unchanged.
    pub fn render_pass<F>(&mut self, render_callback: F) -> (r: Result<CompletedFrame<'_>, B::Error>)
        where
            F: FnOnce(&mut Frame) -> Result<(), B::Error>,
        requires
            old(self).wf(),
            forall|f: &mut Frame| render_callback.requires((f,)),
        ensures
            final(self).wf(),
            final(self).viewport_spec() == old(self).viewport_spec(),
            final(self).viewport_area_spec() == old(self).viewport_area_spec(),
            final(self).last_known_area_spec() == old(self).last_known_area_spec(),
            r is Ok ==> all_empty(final(self).current_spec().cells()),
            r is Ok ==> final(self).index_spec() == 1 - old(self).index_spec(),
            r is Ok ==> exists|f: &mut Frame, res: Result<(), B::Error>|
                {
                    &&& #[trigger] render_callback.ensures((f,), res)
                    &&& (*f).buffer_spec() == old(self).current_spec()
                    &&& (*f).cursor_spec() is None
                    &&& (*f).area_spec() == old(self).viewport_area_spec()
                    &&& final(self).previous_spec().area == old(self).viewport_area_spec()
                    &&& final(self).previous_spec().cells() == resized_cells(
                        final(f).buffer_spec().cells(),
                        old(self).viewport_area_spec().area_spec(),
                    )
                    &&& final(self).hidden_cursor_spec() == (final(f).cursor_spec() is None)
                },
            r matches Ok(frame) ==> *frame.buffer == final(self).previous_spec()
                && frame.area == final(self).last_known_area_spec(),
            r is Err ==> final(self).index_spec() == old(self).index_spec(),
            r is Err ==> final(self).previous_spec() == old(self).previous_spec(),
    {
        let mut frame = self.get_frame();
        let result = render_callback(&mut frame);
        let cursor_position = self.end_frame(frame);
        result?;
        self.flush()?;
        match cursor_position {
            None => self.hide_cursor()?,
            Some(position) => {
                self.show_cursor()?;
                self.set_cursor_position(position)?;
            },
        }
        self.backend.flush()?;
        self.swap_buffers();
        Ok(CompletedFrame { buffer: &self.buffers[1 - self.current], area: self.last_known_area })
    }

    /// [`Terminal::try_draw`] with a callback that cannot fail.
    pub fn draw<F>(&mut self, render_callback: F) -> (r: Result<CompletedFrame<'_>, B::Error>)
        where
            F: FnOnce(&mut Frame),
        requires
            old(self).wf(),
            forall|f: &mut Frame| render_callback.requires((f,)),
        ensures
            final(self).wf(),
            final(self).viewport_spec() == old(self).viewport_spec(),
            r is Ok ==> all_empty(final(self).current_spec().cells()),
            r is Ok ==> exists|f: &mut Frame, res: ()|
                {
                    &&& #[trigger] render_callback.ensures((f,), res)
                    &&& (*f).cursor_spec() is None
                    &&& (*f).area_spec() == final(self).viewport_area_spec()
                    &&& (old(self).viewport_spec() is Fixed ==> (*f).buffer_spec()
                        == old(self).current_spec())
                    &&& final(self).previous_spec().area == final(self).viewport_area_spec()
                    &&& final(self).previous_spec().cells() == resized_cells(
                        final(f).buffer_spec().cells(),
                        final(self).viewport_area_spec().area_spec(),
                    )
                    &&& final(self).hidden_cursor_spec() == (final(f).cursor_spec() is None)
                },
            r is Ok ==> final(self).index_spec() == 1 - old(self).index_spec(),
            r matches Ok(frame) ==> *frame.buffer == final(self).previous_spec()
                && frame.area == final(self).last_known_area_spec(),
            r is Err && final(self).viewport_area_spec() == old(self).viewport_area_spec()
                && final(self).last_known_area_spec() == old(self).last_known_area_spec() ==> {
                &&& final(self).previous_spec().area == old(self).previous_spec().area
                &&& final(self).previous_spec().cells() == old(self).previous_spec().cells()
            },
            r is Err ==> final(self).index_spec() == old(self).index_spec(),
            r is Err && old(self).viewport_spec() is Fixed ==> final(self).previous_spec()
                == old(self).previous_spec(),
    {
        self.autoresize()?;
        let mut frame = self.get_frame();
        render_callback(&mut frame);
        let cursor_position = self.end_frame(frame);
        self.flush()?;
        match cursor_position {
            None => self.hide_cursor()?,
            Some(position) => {
                self.show_cursor()?;
                self.set_cursor_position(position)?;
            },
        }
        self.backend.flush()?;
        self.swap_buffers();
        Ok(CompletedFrame { buffer: &self.buffers[1 - self.current], area: self.last_known_area })
    }

    /// Hides the cursor.
    pub fn hide_cursor(&mut self) -> (r: Result<(), B::Error>)
        requires
            old(self).wf(),
        ensures
            final(self).last_known_area_spec() == old(self).last_known_area_spec(),
            final(self).index_spec() == old(self).index_spec(),
            final(self).wf(),
            final(self).current_spec() == old(self).current_spec(),
            final(self).previous_spec() == old(self).previous_spec(),
            final(self).viewport_spec() == old(self).viewport_spec(),
            final(self).viewport_area_spec() == old(self).viewport_area_spec(),
            r is Ok ==> final(self).hidden_cursor_spec(),
            r is Err ==> final(self).hidden_cursor_spec() == old(self).hidden_cursor_spec(),
            final(self).cursor_spec() == old(self).cursor_spec(),
    {
        self.backend.hide_cursor()?;
        self.hidden_cursor = true;
        Ok(())
    }

    /// Shows the cursor.
    pub fn show_cursor(&mut self) -> (r: Result<(), B::Error>)
        requires
            old(self).wf(),
        ensures
            final(self).last_known_area_spec() == old(self).last_known_area_spec(),
            final(self).index_spec() == old(self).index_spec(),
            final(self).wf(),
            final(self).current_spec() == old(self).current_spec(),
            final(self).previous_spec() == old(self).previous_spec(),
            final(self).viewport_spec() == old(self).viewport_spec(),
            final(self).viewport_area_spec() == old(self).viewport_area_spec(),
            r is Ok ==> !final(self).hidden_cursor_spec(),
            r is Err ==> final(self).hidden_cursor_spec() == old(self).hidden_cursor_spec(),
            final(self).cursor_spec() == old(self).cursor_spec(),
    {
        self.backend.show_cursor()?;
        self.hidden_cursor = false;
        Ok(())
    }

    /// Moves the cursor, and remembers where it is.
    pub fn set_cursor_position(&mut self, position: Position) -> (r: Result<(), B::Error>)
        requires
            old(self).wf(),
        ensures
            final(self).last_known_area_spec() == old(self).last_known_area_spec(),
            final(self).wf(),
            final(self).current_spec() == old(self).current_spec(),
            final(self).previous_spec() == old(self).previous_spec(),
            final(self).viewport_spec() == old(self).viewport_spec(),
            final(self).viewport_area_spec() == old(self).viewport_area_spec(),
            final(self).index_spec() == old(self).index_spec(),
            r is Ok ==> final(self).cursor_spec() == position,
            r is Err ==> final(self).cursor_spec() == old(self).cursor_spec(),
            final(self).hidden_cursor_spec() == old(self).hidden_cursor_spec(),
    {
        self.backend.set_cursor_position(position)?;
        self.last_known_cursor_pos = position;
        Ok(())
    }

    /// Asks the backend where the cursor is.
    pub fn get_cursor_position(&mut self) -> (r: Result<Position, B::Error>)
        requires
            old(self).wf(),
        ensures
            final(self).index_spec() == old(self).index_spec(),
            final(self).wf(),
            final(self).current_spec() == old(self).current_spec(),
            final(self).previous_spec() == old(self).previous_spec(),
    {
        self.backend.get_cursor_position()
    }

    /// For an inline viewport, resizes when the terminal size differs from the last
    /// one known.
    pub fn autoresize(&mut self) -> (r: Result<(), B::Error>)
        requires
            old(self).wf(),
        ensures
            final(self).index_spec() == old(self).index_spec(),
            final(self).wf(),
            final(self).viewport_spec() == old(self).viewport_spec(),
            old(self).viewport_spec() is Fixed ==> *final(self) == *old(self) && r is Ok,
            r is Ok ==> *final(self) == *old(self) || ({
                &&& final(self).last_known_area_spec() != old(self).last_known_area_spec()
                &&& final(self).last_known_area_spec().x == 0
                &&& final(self).last_known_area_spec().y == 0
            }),
            r is Err ==> final(self).last_known_area_spec() == old(self).last_known_area_spec(),
            r is Err && final(self).viewport_area_spec() == old(self).viewport_area_spec() ==> {
                &&& final(self).previous_spec().area == old(self).previous_spec().area
                &&& final(self).previous_spec().cells() == old(self).previous_spec().cells()
            },
    {
        if let Viewport::Inline(_) = self.viewport {
            let size = self.size()?;
            if let Some(area) = autoresize_target(self.viewport, self.last_known_area, size) {
                self.resize(area)?;
            }
        }
        Ok(())
    }

    /// Clears the viewport on screen, moving the cursor and clearing as [`clear_plan`]
    /// lists, in order, and empties the previous buffer so that the next diff redraws
    /// every cell.
    pub fn clear(&mut self) -> (r: Result<(), B::Error>)
        requires
            old(self).wf(),
        ensures
            final(self).index_spec() == old(self).index_spec(),
            final(self).wf(),
            final(self).current_spec() == old(self).current_spec(),
            final(self).viewport_spec() == old(self).viewport_spec(),
            final(self).viewport_area_spec() == old(self).viewport_area_spec(),
            final(self).last_known_area_spec() == old(self).last_known_area_spec(),
            r is Ok ==> final(self).previous_spec().area == old(self).previous_spec().area,
            r is Ok ==> all_empty(final(self).previous_spec().cells()),
            r is Err ==> final(self).previous_spec() == old(self).previous_spec(),
            clear_plan_spec(old(self).viewport_spec(), old(self).viewport_area_spec()).len() == 0
                ==> r is Ok,
    {
        let plan = clear_plan(self.viewport, self.viewport_area);
        let mut i: usize = 0;
        while i < plan.len()
            invariant
                plan@ == clear_plan_spec(old(self).viewport_spec(), old(self).viewport_area_spec()),
                self.wf(),
                self.current_spec() == old(self).current_spec(),
                self.previous_spec() == old(self).previous_spec(),
                self.current == old(self).current,
                self.viewport == old(self).viewport,
                self.viewport_area == old(self).viewport_area,
                self.last_known_area == old(self).last_known_area,
            decreases plan@.len() - i,
        {
            let (position, clear_type) = plan[i];
            self.backend.set_cursor_position(position)?;
            self.backend.clear_region(clear_type)?;
            i = i + 1;
        }
        let p = 1 - self.current;
        self.buffers[p].reset();
        Ok(())
    }

    /// Makes the buffer just drawn the previous one, and gives the next pass an empty
    /// buffer.
    pub fn swap_buffers(&mut self)
        requires
            old(self).wf(),
        ensures
            final(self).hidden_cursor_spec() == old(self).hidden_cursor_spec(),
            final(self).cursor_spec() == old(self).cursor_spec(),
            final(self).wf(),
            final(self).previous_spec() == old(self).current_spec(),
            final(self).index_spec() == 1 - old(self).index_spec(),
            final(self).last_known_area_spec() == old(self).last_known_area_spec(),
            final(self).current_spec().area == old(self).previous_spec().area,
            all_empty(final(self).current_spec().cells()),
            final(self).viewport_spec() == old(self).viewport_spec(),
            final(self).viewport_area_spec() == old(self).viewport_area_spec(),
            final(self).last_known_area_spec() == old(self).last_known_area_spec(),
    {
        let p = 1 - self.current;
        self.buffers[p].reset();
        self.current = p;
    }

    /// The size of the terminal, as the backend reports it.
    pub fn size(&mut self) -> (r: Result<Size, B::Error>)
        requires
            old(self).wf(),
        ensures
            *final(self) == *old(self),
    {
        self.backend.size()
    }
}

} // verus!
