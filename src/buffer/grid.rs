use vstd::prelude::*;

use crate::buffer::cell::{empty_cell, Cell, CellView};
use crate::layout::{Position, Rect};
use crate::style::Style;
use crate::unicode::{contains_control, display_width, graphemes, graphemes_of, has_control, str_width};

verus! {

/// `n - 1`, clamped at zero.
pub open spec fn sat_dec(n: int) -> int {
    if n > 0 {
        n - 1
    } else {
        0
    }
}

pub open spec fn imax(a: int, b: int) -> int {
    if a >= b {
        a
    } else {
        b
    }
}

/// The column of the `i`-th cell of a buffer over `area`.
pub open spec fn pos_x(area: Rect, i: int) -> int {
    i % (area.width as int) + area.x
}

/// The row of the `i`-th cell of a buffer over `area`.
pub open spec fn pos_y(area: Rect, i: int) -> int {
    i / (area.width as int) + area.y
}

/// The index of the cell at column `x` and row `y` of a buffer over `area`.
pub open spec fn index_spec(area: Rect, x: int, y: int) -> int {
    (y - area.y) * (area.width as int) + (x - area.x)
}

/// The display width of the text a cell prints.
pub open spec fn glyph_width(c: CellView) -> int {
    str_width(c.text()) as int
}

/// The diff's `(invalidated, to_skip)` counters after it has walked the first `i` cells.
/// Both count down by one column per cell; a glyph `w` columns wide raises `to_skip`
/// to the `w - 1` columns it covers, and raises `invalidated` to the columns covered
/// by the wider of the two glyphs at that position.
pub open spec fn diff_state(prev: Seq<CellView>, next: Seq<CellView>, i: nat) -> (int, int)
    decreases i,
{
    if i == 0 {
        (0, 0)
    } else {
        let s = diff_state(prev, next, (i - 1) as nat);
        let w = glyph_width(next[i - 1]);
        let affected = imax(w, glyph_width(prev[i - 1]));
        (sat_dec(imax(affected, s.0)), sat_dec(imax(w, s.1)))
    }
}

/// Whether the diff reports the `i`-th cell: it is not a skipped cell, it changed or lies
/// in a range that a wide glyph invalidated, and it is not covered by the glyph just
/// emitted.
pub open spec fn reported(prev: Seq<CellView>, next: Seq<CellView>, i: nat) -> bool {
    let s = diff_state(prev, next, i);
    !next[i as int].skip && (next[i as int] != prev[i as int] || s.0 > 0) && s.1 == 0
}

/// The updates that the diff reports among the first `n` cells, in order.
pub open spec fn diff_spec(prev: Seq<CellView>, next: Seq<CellView>, area: Rect, n: nat) -> Seq<
    (int, int, CellView),
>
    decreases n,
{
    if n == 0 {
        seq![]
    } else {
        let rest = diff_spec(prev, next, area, (n - 1) as nat);
        if reported(prev, next, (n - 1) as nat) {
            rest.push((pos_x(area, n - 1), pos_y(area, n - 1), next[n - 1]))
        } else {
            rest
        }
    }
}

/// The progress of a string write: the cells, the next column, the columns still
/// available, and whether a grapheme that did not fit has ended the write.
pub struct WriteState {
    pub cells: Seq<CellView>,
    pub x: int,
    pub remaining: int,
    pub done: bool,
}

/// One grapheme of a string write. Graphemes holding a control character and
/// zero-width graphemes are passed over; the first grapheme wider than the columns
/// left ends the write. Otherwise the grapheme goes, styled, into the cell at the
/// current column, the cells that its further columns cover are reset to the empty
/// cell, and the column advances by its width. `base + x` is the index of column `x`.
pub open spec fn write_step(s: WriteState, g: Seq<char>, base: int, style: Style) -> WriteState {
    let w = str_width(g) as int;
    if s.done || has_control(g) || w == 0 {
        s
    } else if w > s.remaining {
        WriteState { done: true, ..s }
    } else {
        let at = base + s.x;
        let written = s.cells.update(at, CellView { symbol: Some(g), ..s.cells[at] }.styled(style));
        WriteState {
            cells: Seq::new(
                written.len(),
                |k: int|
                    if at < k < at + w {
                        empty_cell()
                    } else {
                        written[k]
                    },
            ),
            x: s.x + w,
            remaining: s.remaining - w,
            done: false,
        }
    }
}

/// The state of a string write after its first `k` graphemes.
pub open spec fn write_run(
    s0: WriteState,
    gs: Seq<Seq<char>>,
    k: nat,
    base: int,
    style: Style,
) -> WriteState
    decreases k,
{
    if k == 0 {
        s0
    } else {
        write_step(write_run(s0, gs, (k - 1) as nat, base, style), gs[k - 1], base, style)
    }
}

/// The state in which a write at column `x` limited to `max_width` columns starts, in
/// a buffer over `area` holding `cells`: the columns available are the fewer of
/// `max_width` and those up to the right edge.
pub open spec fn write_start_in(area: Rect, cells: Seq<CellView>, x: int, max_width: int) -> WriteState {
    let room = area.right_spec() - x;
    WriteState {
        cells,
        x,
        remaining: if room <= max_width {
            room
        } else {
            max_width
        },
        done: false,
    }
}

/// The index of column `0` of row `y` in a buffer over `area`, shifted so that
/// `base + x` is the index of column `x`.
pub open spec fn row_base_in(area: Rect, y: int) -> int {
    (y - area.y) * (area.width as int) - area.x
}

/// The state after writing `string` at `(x, y)` in at most `max_width` columns of a
/// buffer over `area` holding `cells`.
pub open spec fn write_result_in(
    area: Rect,
    cells: Seq<CellView>,
    x: int,
    y: int,
    string: Seq<char>,
    max_width: int,
    style: Style,
) -> WriteState {
    write_run(
        write_start_in(area, cells, x, max_width),
        graphemes_of(string),
        graphemes_of(string).len(),
        row_base_in(area, y),
        style,
    )
}

/// The first `n` cells of `cells`, padded with empty cells where `cells` is shorter.
pub open spec fn resized_cells(cells: Seq<CellView>, n: nat) -> Seq<CellView> {
    Seq::new(n, |i: int| if i < cells.len() { cells[i] } else { empty_cell() })
}

/// The cells of a buffer over `area` after applying `style` to the cells inside `region`.
pub open spec fn style_region(area: Rect, cells: Seq<CellView>, region: Rect, style: Style) -> Seq<
    CellView,
> {
    Seq::new(
        cells.len(),
        |i: int|
            if in_rect(region, pos_x(area, i), pos_y(area, i)) {
                cells[i].styled(style)
            } else {
                cells[i]
            },
    )
}

/// A rectangular grid of cells over an area of the terminal, stored row by row.
#[derive(Debug)]
pub struct Buffer {
    pub area: Rect,
    pub content: Vec<Cell>,
}

proof fn lemma_index_in_bounds(area: Rect, x: int, y: int)
    requires
        area.x <= x < area.x + area.width,
        area.y <= y < area.y + area.height,
    ensures
        0 <= index_spec(area, x, y),
        index_spec(area, x, y) + (area.x + area.width - x) <= area.area_spec(),
{
    let w = area.width as int;
    let h = area.height as int;
    let r = y - area.y;
    assert(0 <= r * w) by (nonlinear_arith)
        requires
            0 <= r,
            0 <= w,
    ;
    assert(r * w + w <= h * w) by (nonlinear_arith)
        requires
            0 <= r < h,
            0 <= w,
    ;
}

proof fn lemma_row_in_bounds(area: Rect, y: int)
    requires
        area.y <= y < area.y + area.height,
    ensures
        0 <= (y - area.y) * (area.width as int),
        (y - area.y) * (area.width as int) + area.width <= area.area_spec(),
{
    let w = area.width as int;
    let h = area.height as int;
    let r = y - area.y;
    assert(0 <= r * w) by (nonlinear_arith)
        requires
            0 <= r,
            0 <= w,
    ;
    assert(r * w + w <= h * w) by (nonlinear_arith)
        requires
            0 <= r < h,
            0 <= w,
    ;
}

proof fn lemma_pos_in_bounds(area: Rect, i: int)
    requires
        0 <= i < area.area_spec(),
    ensures
        area.width > 0,
        area.x <= pos_x(area, i) < area.x + area.width,
        area.y <= pos_y(area, i) < area.y + area.height,
        index_spec(area, pos_x(area, i), pos_y(area, i)) == i,
{
    let w = area.width as int;
    let h = area.height as int;
    assert(w > 0) by (nonlinear_arith)
        requires
            0 <= i < w * h,
            h >= 0,
    ;
    vstd::arithmetic::div_mod::lemma_fundamental_div_mod(i, w);
    let q = i / w;
    let m = i % w;
    assert(0 <= m < w);
    assert(0 <= q < h) by (nonlinear_arith)
        requires
            i == w * q + m,
            0 <= m < w,
            0 <= i < w * h,
            w > 0,
    ;
    assert(index_spec(area, pos_x(area, i), pos_y(area, i)) == q * w + m);
    assert(q * w == w * q) by (nonlinear_arith);
}

proof fn lemma_pos_of_index(area: Rect, x: int, y: int)
    requires
        area.x <= x < area.x + area.width,
        area.y <= y < area.y + area.height,
    ensures
        pos_x(area, index_spec(area, x, y)) == x,
        pos_y(area, index_spec(area, x, y)) == y,
{
    let w = area.width as int;
    let r = y - area.y;
    let c = x - area.x;
    vstd::arithmetic::div_mod::lemma_fundamental_div_mod_converse(r * w + c, w, r, c);
    assert(r * w == w * r) by (nonlinear_arith);
}

impl Buffer {
    /// The values of the cells, row by row.
    pub open spec fn cells(&self) -> Seq<CellView> {
        self.content@.map_values(|c: Cell| c@)
    }

    /// The buffer holds exactly one cell per position of its area.
    pub open spec fn wf(&self) -> bool {
        self.content@.len() == self.area.area_spec()
    }

    /// Every position of the area can be written as a `u16` coordinate.
    pub open spec fn addressable(&self) -> bool {
        self.area.x + self.area.width <= 0x10000 && self.area.y + self.area.height <= 0x10000
    }

    /// A buffer over `area` whose cells are all empty.
    pub fn empty(area: Rect) -> (r: Self)
        ensures
            r.wf(),
            r.area == area,
            forall|i: int| 0 <= i < r.cells().len() ==> #[trigger] r.cells()[i] == empty_cell(),
    {
        Buffer::filled(area, Cell::empty())
    }

    /// A buffer over `area` whose cells are all copies of `cell`.
    pub fn filled(area: Rect, cell: Cell) -> (r: Self)
        ensures
            r.wf(),
            r.area == area,
            forall|i: int| 0 <= i < r.cells().len() ==> #[trigger] r.cells()[i] == cell@,
    {
        let size = area.area() as usize;
        let content = vec![cell; size];
        let r = Buffer { area, content };
        assert forall|i: int| 0 <= i < r.cells().len() implies #[trigger] r.cells()[i] == cell@ by {
            assert(vstd::pervasive::cloned(cell, content@[i]));
        }
        r
    }

    /// The column and row of the `index`-th cell.
    pub fn pos_of(&self, index: usize) -> (r: (u16, u16))
        requires
            self.wf(),
            self.addressable(),
            index < self.content@.len(),
        ensures
            r.0 == pos_x(self.area, index as int),
            r.1 == pos_y(self.area, index as int),
    {
        proof {
            lemma_pos_in_bounds(self.area, index as int);
        }
        let w = self.area.width as usize;
        let x = index % w + self.area.x as usize;
        let y = index / w + self.area.y as usize;
        (x as u16, y as u16)
    }

    /// The index of the cell at column `x` and row `y`, which must lie in the area.
    pub fn index_of(&self, x: u16, y: u16) -> (r: usize)
        requires
            self.wf(),
            self.area.x <= x < self.area.x + self.area.width,
            self.area.y <= y < self.area.y + self.area.height,
        ensures
            r == index_spec(self.area, x as int, y as int),
            r < self.content@.len(),
    {
        proof {
            lemma_index_in_bounds(self.area, x as int, y as int);
        }
        let w = self.area.width as u32;
        let row = (y - self.area.y) as u32;
        let col = (x - self.area.x) as u32;
        proof {
            assert(row * w <= u32::MAX) by (nonlinear_arith)
                requires
                    row < 0x10000,
                    w < 0x10000,
            ;
            assert(row * w + col < self.content@.len());
            assert(self.area.width * self.area.height <= u32::MAX) by (nonlinear_arith)
                requires
                    self.area.width < 0x10000,
                    self.area.height < 0x10000,
            ;
        }
        (row * w + col) as usize
    }

    /// The index of the cell at `position`, or `None` outside the area.
    pub fn index_of_opt(&self, position: Position) -> (r: Option<usize>)
        requires
            self.wf(),
        ensures
            r is Some <==> (self.area.x <= position.x < self.area.x + self.area.width
                && self.area.y <= position.y < self.area.y + self.area.height),
            r is Some ==> r->0 == index_spec(self.area, position.x as int, position.y as int),
    {
        let a = self.area;
        if position.x >= a.x && (position.x as u32) < a.x as u32 + a.width as u32 && position.y
            >= a.y && (position.y as u32) < a.y as u32 + a.height as u32 {
            Some(self.index_of(position.x, position.y))
        } else {
            None
        }
    }

    /// The cell at `position`, which must lie in the area.
    pub fn get(&self, position: Position) -> (r: &Cell)
        requires
            self.wf(),
            self.area.x <= position.x < self.area.x + self.area.width,
            self.area.y <= position.y < self.area.y + self.area.height,
        ensures
            r@ == self.cells()[index_spec(self.area, position.x as int, position.y as int)],
    {
        let i = self.index_of(position.x, position.y);
        &self.content[i]
    }

    /// Turns every cell into the empty cell.
    pub fn reset(&mut self)
        requires
            old(self).wf(),
        ensures
            final(self).wf(),
            final(self).area == old(self).area,
            forall|i: int| 0 <= i < final(self).cells().len() ==> #[trigger] final(self).cells()[i] == empty_cell(),
    {
        let n = self.content.len();
        let mut i: usize = 0;
        while i < n
            invariant
                self.area == old(self).area,
                self.content@.len() == n,
                n == old(self).content@.len(),
                i <= n,
                forall|j: int| 0 <= j < i ==> #[trigger] self.cells()[j] == empty_cell(),
            decreases n - i,
        {
            let ghost before = self.cells();
            self.content.set(i, Cell::empty());
            assert(self.cells() == before.update(i as int, empty_cell()));
            i = i + 1;
        }
    }
}

impl Buffer {
    /// The cells of `other` that differ from this (previous) buffer, row by row, with
    /// their column and row. A cell is reported when it is not a skipped cell, it
    /// changed or lies in columns that a wide glyph of either buffer invalidated, and
    /// it is not covered by the wide glyph just emitted.
    pub fn diff<'a>(&self, other: &'a Self) -> (r: Vec<(u16, u16, &'a Cell)>)
        requires
            self.wf(),
            self.addressable(),
            other.area == self.area,
            other.wf(),
        ensures
            r@.len() == diff_spec(self.cells(), other.cells(), self.area, self.cells().len()).len(),
            forall|k: int|
                0 <= k < r@.len() ==> {
                    let u = #[trigger] r@[k];
                    (u.0 as int, u.1 as int, u.2@) == diff_spec(
                        self.cells(),
                        other.cells(),
                        self.area,
                        self.cells().len(),
                    )[k]
                },
    {
        let previous_buffer = &self.content;
        let next_buffer = &other.content;
        let n = next_buffer.len();
        let mut updates: Vec<(u16, u16, &'a Cell)> = Vec::new();
        let mut invalidated: usize = 0;
        let mut to_skip: usize = 0;
        let mut i: usize = 0;
        while i < n
            invariant
                n == next_buffer@.len(),
                n == previous_buffer@.len(),
                previous_buffer == &self.content,
                next_buffer == &other.content,
                self.wf(),
                self.addressable(),
                i <= n,
                (invalidated as int, to_skip as int) == diff_state(
                    self.cells(),
                    other.cells(),
                    i as nat,
                ),
                updates@.len() == diff_spec(self.cells(), other.cells(), self.area, i as nat).len(),
                forall|k: int|
                    0 <= k < updates@.len() ==> {
                        let u = #[trigger] updates@[k];
                        (u.0 as int, u.1 as int, u.2@) == diff_spec(
                            self.cells(),
                            other.cells(),
                            self.area,
                            i as nat,
                        )[k]
                    },
            decreases n - i,
        {
            let current = &next_buffer[i];
            let previous = &previous_buffer[i];
            if !current.skip && (current != previous || invalidated > 0) && to_skip == 0 {
                let (x, y) = self.pos_of(i);
                updates.push((x, y, current));
            }
            let current_width = display_width(current.symbol());
            let previous_width = display_width(previous.symbol());
            let covering = if current_width >= to_skip {
                current_width
            } else {
                to_skip
            };
            to_skip = covering.saturating_sub(1);
            let affected_width = if current_width >= previous_width {
                current_width
            } else {
                previous_width
            };
            let widest = if affected_width >= invalidated {
                affected_width
            } else {
                invalidated
            };
            invalidated = widest.saturating_sub(1);
            i = i + 1;
        }
        updates
    }
}

/// Diffing a buffer against itself reports nothing.
pub proof fn lemma_diff_self_empty(b: Buffer)
    ensures
        diff_spec(b.cells(), b.cells(), b.area, b.cells().len()) == Seq::<
            (int, int, CellView),
        >::empty(),
{
    lemma_diff_self_state(b.cells(), b.cells().len());
    lemma_diff_self_prefix(b.cells(), b.area, b.cells().len());
}

proof fn lemma_diff_self_state(b: Seq<CellView>, n: nat)
    requires
        n <= b.len(),
    ensures
        forall|i: nat| i <= n ==> {
            let s = #[trigger] diff_state(b, b, i);
            s.0 == s.1
        },
    decreases n,
{
    if n > 0 {
        lemma_diff_self_state(b, (n - 1) as nat);
        assert forall|i: nat| i <= n implies {
            let s = #[trigger] diff_state(b, b, i);
            s.0 == s.1
        } by {
            if i == n {
                let _ = diff_state(b, b, (n - 1) as nat);
            }
        }
    }
}

proof fn lemma_diff_self_prefix(b: Seq<CellView>, area: Rect, n: nat)
    requires
        n <= b.len(),
        forall|i: nat| i <= b.len() ==> {
            let s = #[trigger] diff_state(b, b, i);
            s.0 == s.1
        },
    ensures
        diff_spec(b, b, area, n) == Seq::<(int, int, CellView)>::empty(),
    decreases n,
{
    if n > 0 {
        lemma_diff_self_prefix(b, area, (n - 1) as nat);
        let _ = diff_state(b, b, (n - 1) as nat);
    }
}

impl Buffer {
    /// The state in which a write at column `x` limited to `max_width` columns starts.
    pub open spec fn write_start(&self, x: int, max_width: int) -> WriteState {
        write_start_in(self.area, self.cells(), x, max_width)
    }

    /// The index of column `0` of row `y`, shifted so that `base + x` is the index of column `x`.
    pub open spec fn row_base(&self, y: int) -> int {
        row_base_in(self.area, y)
    }

    /// The state after writing `string` at `(x, y)` in at most `max_width` columns.
    pub open spec fn write_result(
        &self,
        x: int,
        y: int,
        string: Seq<char>,
        max_width: int,
        style: Style,
    ) -> WriteState {
        write_result_in(self.area, self.cells(), x, y, string, max_width, style)
    }

    /// Writes the grapheme clusters of `string` from `(x, y)` onwards, in at most
    /// `max_width` columns and never past the right edge, and returns the position after
    /// the last grapheme written. Graphemes holding a control character and zero-width
    /// graphemes are passed over; a wide grapheme goes into its first cell and resets
    /// the cells of its further columns; the write ends at the first grapheme that does
    /// not fit.
    pub fn set_stringn(&mut self, x: u16, y: u16, string: &str, max_width: usize, style: Style) -> (r: (
        u16,
        u16,
    ))
        requires
            old(self).wf(),
            old(self).addressable(),
            old(self).area.x <= x <= old(self).area.right_spec(),
            old(self).area.y <= y < old(self).area.y + old(self).area.height,
        ensures
            final(self).wf(),
            final(self).area == old(self).area,
            final(self).cells() == old(self).write_result(
                x as int,
                y as int,
                string@,
                max_width as int,
                style,
            ).cells,
            r.0 == old(self).write_result(x as int, y as int, string@, max_width as int, style).x,
            r.1 == y,
            x <= r.0 <= old(self).area.right_spec(),
            r.0 <= x + max_width,
            forall|t: int|
                0 <= t < old(self).cells().len() && !(index_spec(old(self).area, x as int, y as int)
                    <= t < index_spec(old(self).area, r.0 as int, y as int)) ==> #[trigger] final(self).cells()[t]
                    == old(self).cells()[t],
    {
        let ghost s0 = self.write_start(x as int, max_width as int);
        let ghost base = self.row_base(y as int);
        let gs = graphemes(string);
        let ghost gsv = graphemes_of(string@);
        let right = self.area.right();
        let room = (right - x) as usize;
        let mut remaining: usize = if room <= max_width {
            room
        } else {
            max_width
        };
        let mut cx: u16 = x;
        let mut done = false;
        let mut k: usize = 0;
        proof {
            lemma_row_in_bounds(self.area, y as int);
        }
        while k < gs.len()
            invariant
                self.wf(),
                self.area == old(self).area,
                self.addressable(),
                gs@.len() == gsv.len(),
                forall|i: int| 0 <= i < gs@.len() ==> #[trigger] gs@[i]@ == gsv[i],
                gsv == graphemes_of(string@),
                s0 == old(self).write_start(x as int, max_width as int),
                base == old(self).row_base(y as int),
                old(self).area.y <= y < old(self).area.y + old(self).area.height,
                k <= gs@.len(),
                right == self.area.right_spec(),
                self.area.x <= x <= cx,
                cx + remaining <= right,
                cx + remaining <= x + max_width,
                write_run(s0, gsv, k as nat, base, style) == (WriteState {
                    cells: self.cells(),
                    x: cx as int,
                    remaining: remaining as int,
                    done,
                }),
                base + self.area.x >= 0,
                base + self.area.x + self.area.width <= self.area.area_spec(),
            decreases gs@.len() - k,
        {
            let g = gs[k].as_str();
            let ghost prev_state = write_run(s0, gsv, k as nat, base, style);
            assert(g@ == gsv[k as int]);
            assert(write_run(s0, gsv, (k + 1) as nat, base, style) == write_step(
                prev_state,
                gsv[k as int],
                base,
                style,
            ));
            if !done && !contains_control(g) {
                let w = display_width(g);
                if w > 0 {
                    if w > remaining {
                        done = true;
                    } else {
                        assert(cx + w <= self.area.x + self.area.width);
                        let at = self.index_of(cx, y);
                        let len = self.content.len();
                        assert(at + w <= len);
                        assert(at == base + cx);
                        let mut c = self.content[at].clone();
                        c.set_symbol(g);
                        c.set_style(style);
                        self.content.set(at, c);
                        let ghost written = self.cells();
                        let mut j: usize = at + 1;
                        let end: usize = at + w;
                        while j < end
                            invariant
                                self.wf(),
                                self.area == old(self).area,
                                at + 1 <= j <= end,
                                end <= self.content@.len(),
                                written.len() == self.content@.len(),
                                forall|t: int|
                                    0 <= t < written.len() ==> #[trigger] self.cells()[t] == if at < t
                                        < j {
                                        empty_cell()
                                    } else {
                                        written[t]
                                    },
                            decreases end - j,
                        {
                            let ghost before = self.cells();
                            self.content.set(j, Cell::empty());
                            assert(self.cells() == before.update(j as int, empty_cell()));
                            j = j + 1;
                        }
                        proof {
                            assert(self.cells() =~= Seq::new(
                                written.len(),
                                |t: int|
                                    if at < t < at + w {
                                        empty_cell()
                                    } else {
                                        written[t]
                                    },
                            ));
                        }
                        cx = cx + w as u16;
                        remaining = remaining - w;
                        assert(self.cells() == write_step(prev_state, gsv[k as int], base, style).cells);
                    }
                }
            }
            k = k + 1;
        }
        proof {
            lemma_write_run_frame(s0, gsv, gsv.len(), base, style);
        }
        (cx, y)
    }

    /// Writes `string` from `(x, y)` onwards, up to the right edge.
    pub fn set_string(&mut self, x: u16, y: u16, string: &str, style: Style) -> (r: (u16, u16))
        requires
            old(self).wf(),
            old(self).addressable(),
            old(self).area.x <= x <= old(self).area.right_spec(),
            old(self).area.y <= y < old(self).area.y + old(self).area.height,
        ensures
            final(self).wf(),
            final(self).area == old(self).area,
            final(self).cells() == old(self).write_result(
                x as int,
                y as int,
                string@,
                usize::MAX as int,
                style,
            ).cells,
            r.0 == old(self).write_result(x as int, y as int, string@, usize::MAX as int, style).x,
            r.1 == y,
    {
        self.set_stringn(x, y, string, usize::MAX, style)
    }
}

/// A string write only touches the cells from its starting column up to (not
/// including) the column it ends at, and it ends no further right than the columns it
/// was given allow.
pub proof fn lemma_write_run_frame(
    s0: WriteState,
    gs: Seq<Seq<char>>,
    k: nat,
    base: int,
    style: Style,
)
    requires
        k <= gs.len(),
        s0.remaining >= 0,
        0 <= base + s0.x,
        base + s0.x + s0.remaining <= s0.cells.len(),
    ensures
        ({
            let r = write_run(s0, gs, k, base, style);
            &&& r.cells.len() == s0.cells.len()
            &&& s0.x <= r.x
            &&& r.remaining >= 0
            &&& r.x + r.remaining == s0.x + s0.remaining
            &&& forall|t: int|
                0 <= t < s0.cells.len() && !(base + s0.x <= t < base + r.x) ==> #[trigger] r.cells[t]
                    == s0.cells[t]
        }),
    decreases k,
{
    if k > 0 {
        lemma_write_run_frame(s0, gs, (k - 1) as nat, base, style);
        let p = write_run(s0, gs, (k - 1) as nat, base, style);
        let g = gs[k - 1];
        let w = str_width(g) as int;
        let r = write_step(p, g, base, style);
        assert(r == write_run(s0, gs, k, base, style));
        if !(p.done || has_control(g) || w == 0) && w <= p.remaining {
            let at = base + p.x;
            assert forall|t: int|
                0 <= t < s0.cells.len() && !(base + s0.x <= t < base + r.x) implies #[trigger] r.cells[t]
                == s0.cells[t] by {
                assert(!(at <= t < at + w));
                assert(0 <= at < p.cells.len());
                assert(r.cells[t] == p.cells[t]);
            }
        }
    }
}

/// Writing a grapheme two columns wide at column `x` puts it in the cell of `x` and
/// leaves the cell of `x + 1` empty, without a symbol of its own to print.
pub proof fn lemma_wide_glyph_continuation(s: WriteState, g: Seq<char>, base: int, style: Style)
    requires
        !s.done,
        !has_control(g),
        str_width(g) == 2,
        2 <= s.remaining,
        0 <= base + s.x,
        base + s.x + 1 < s.cells.len(),
    ensures
        write_step(s, g, base, style).cells[base + s.x].symbol == Some(g),
        write_step(s, g, base, style).cells[base + s.x + 1] == empty_cell(),
        write_step(s, g, base, style).cells[base + s.x + 1].symbol is None,
        write_step(s, g, base, style).x == s.x + 2,
{
}

/// Where a glyph two columns wide of the previous buffer gives way to a different,
/// narrower cell, and no glyph emitted just before covers it, the diff reports both
/// the glyph's column and the column after it.
pub proof fn lemma_diff_reports_vacated_wide_glyph(
    prev: Seq<CellView>,
    next: Seq<CellView>,
    i: nat,
)
    requires
        i + 1 < prev.len(),
        prev.len() == next.len(),
        glyph_width(prev[i as int]) == 2,
        glyph_width(next[i as int]) <= 1,
        next[i as int] != prev[i as int],
        !next[i as int].skip,
        !next[i + 1 as int].skip,
        diff_state(prev, next, i).1 == 0,
    ensures
        reported(prev, next, i),
        reported(prev, next, i + 1),
{
    assert(glyph_width(next[i as int]) >= 0);
    assert(diff_state(prev, next, i).0 >= 0) by {
        lemma_diff_state_nonneg(prev, next, i);
    }
    let _ = diff_state(prev, next, i + 1);
    assert(diff_state(prev, next, i + 1).1 == 0);
}

/// A reported cell appears in the diff, with its column, row and new value.
pub proof fn lemma_reported_in_diff(
    prev: Seq<CellView>,
    next: Seq<CellView>,
    area: Rect,
    i: nat,
    n: nat,
)
    requires
        i < n,
        reported(prev, next, i),
    ensures
        diff_spec(prev, next, area, n).contains((pos_x(area, i as int), pos_y(area, i as int), next[i as int])),
    decreases n,
{
    let e = (pos_x(area, i as int), pos_y(area, i as int), next[i as int]);
    let d = diff_spec(prev, next, area, n);
    if n == i + 1 {
        assert(d.last() == e);
        assert(d[d.len() - 1] == e);
    } else {
        lemma_reported_in_diff(prev, next, area, i, (n - 1) as nat);
        let p = diff_spec(prev, next, area, (n - 1) as nat);
        let k = choose|k: int| 0 <= k < p.len() && p[k] == e;
        assert(d[k] == e);
    }
}

/// When a glyph two columns wide of the previous buffer, at the `i`-th cell, gives way
/// to a different, narrower cell that no glyph emitted just before covers, the diff of
/// the two buffers holds both that cell and the next one.
pub proof fn lemma_diff_holds_vacated_wide_glyph(prev: Buffer, next: Buffer, i: nat)
    requires
        prev.area == next.area,
        prev.wf(),
        next.wf(),
        i + 1 < prev.cells().len(),
        glyph_width(prev.cells()[i as int]) == 2,
        glyph_width(next.cells()[i as int]) <= 1,
        next.cells()[i as int] != prev.cells()[i as int],
        !next.cells()[i as int].skip,
        !next.cells()[i + 1 as int].skip,
        diff_state(prev.cells(), next.cells(), i).1 == 0,
    ensures
        ({
            let d = diff_spec(prev.cells(), next.cells(), prev.area, prev.cells().len());
            &&& d.contains(
                (pos_x(prev.area, i as int), pos_y(prev.area, i as int), next.cells()[i as int]),
            )
            &&& d.contains(
                (
                    pos_x(prev.area, i + 1 as int),
                    pos_y(prev.area, i + 1 as int),
                    next.cells()[i + 1 as int],
                ),
            )
        }),
{
    lemma_diff_reports_vacated_wide_glyph(prev.cells(), next.cells(), i);
    lemma_reported_in_diff(prev.cells(), next.cells(), prev.area, i, prev.cells().len());
    lemma_reported_in_diff(prev.cells(), next.cells(), prev.area, i + 1, prev.cells().len());
}

proof fn lemma_diff_state_nonneg(prev: Seq<CellView>, next: Seq<CellView>, i: nat)
    ensures
        diff_state(prev, next, i).0 >= 0,
        diff_state(prev, next, i).1 >= 0,
    decreases i,
{
    if i > 0 {
        lemma_diff_state_nonneg(prev, next, (i - 1) as nat);
    }
}

/// Whether column `x` and row `y` lie in `r`.
pub open spec fn in_rect(r: Rect, x: int, y: int) -> bool {
    r.x <= x < r.x + r.width && r.y <= y < r.y + r.height
}

impl Buffer {
    /// Whether the `i`-th cell lies in `r`.
    pub open spec fn cell_in(&self, r: Rect, i: int) -> bool {
        in_rect(r, pos_x(self.area, i), pos_y(self.area, i))
    }

    /// Applies `style` to every cell of `area` that the buffer covers.
    pub fn set_style(&mut self, area: Rect, style: Style)
        requires
            old(self).wf(),
        ensures
            final(self).wf(),
            final(self).area == old(self).area,
            final(self).cells() == style_region(
                old(self).area,
                old(self).cells(),
                old(self).area.intersection_spec(area),
                style,
            ),
    {
        let inter = self.area.intersection(area);
        let ghost orig = self.cells();
        let ghost a = self.area;
        let n = self.content.len();
        let top = inter.top();
        let bottom = inter.bottom();
        let left = inter.left();
        let right = inter.right();
        assert(bottom == inter.y + inter.height);
        assert(right == inter.x + inter.width);
        let mut y = top;
        while y < bottom
            invariant
                self.wf(),
                self.area == a,
                a == old(self).area,
                orig == old(self).cells(),
                n == orig.len(),
                n == a.area_spec(),
                inter == a.intersection_spec(area),
                top == inter.y,
                bottom == inter.y + inter.height,
                left == inter.x,
                right == inter.x + inter.width,
                top <= y <= bottom,
                forall|i: int|
                    0 <= i < n ==> #[trigger] self.cells()[i] == if self.cell_in(inter, i) && pos_y(
                        a,
                        i,
                    ) < y {
                        orig[i].styled(style)
                    } else {
                        orig[i]
                    },
            decreases bottom - y,
        {
            let mut x = left;
            while x < right
                invariant
                    self.wf(),
                    self.area == a,
                    a == old(self).area,
                    orig == old(self).cells(),
                    n == orig.len(),
                    n == a.area_spec(),
                    inter == a.intersection_spec(area),
                    top == inter.y,
                    bottom == inter.y + inter.height,
                    left == inter.x,
                    right == inter.x + inter.width,
                    top <= y < bottom,
                    left <= x <= right,
                    forall|i: int|
                        0 <= i < n ==> #[trigger] self.cells()[i] == if self.cell_in(inter, i) && (
                        pos_y(a, i) < y || (pos_y(a, i) == y && pos_x(a, i) < x)) {
                            orig[i].styled(style)
                        } else {
                            orig[i]
                        },
                decreases right - x,
            {
                let idx = self.index_of(x, y);
                proof {
                    lemma_pos_of_index(a, x as int, y as int);
                }
                let mut c = self.content[idx].clone();
                c.set_style(style);
                let ghost before = self.cells();
                assert(before[idx as int] == orig[idx as int]);
                self.content.set(idx, c);
                proof {
                    assert(self.cells() == before.update(idx as int, orig[idx as int].styled(style)));
                    assert forall|i: int| 0 <= i < n implies #[trigger] self.cells()[i] == if self.cell_in(
                        inter,
                        i,
                    ) && (pos_y(a, i) < y || (pos_y(a, i) == y && pos_x(a, i) < x + 1)) {
                        orig[i].styled(style)
                    } else {
                        orig[i]
                    } by {
                        lemma_pos_in_bounds(a, i);
                    }
                }
                x = x + 1;
            }
            proof {
                assert forall|i: int| 0 <= i < n implies #[trigger] self.cells()[i] == if self.cell_in(
                    inter,
                    i,
                ) && pos_y(a, i) < y + 1 {
                    orig[i].styled(style)
                } else {
                    orig[i]
                } by {
                    lemma_pos_in_bounds(a, i);
                }
            }
            y = y + 1;
        }
        assert(self.cells() =~= style_region(a, orig, inter, style));
    }

    /// Changes the area: cells past the new size are dropped, missing cells are empty.
    pub fn resize(&mut self, area: Rect)
        ensures
            final(self).cells() == resized_cells(old(self).cells(), area.area_spec()),
            final(self).wf(),
            final(self).area == area,
            forall|i: int|
                0 <= i < final(self).cells().len() ==> #[trigger] final(self).cells()[i] == if i
                    < old(self).cells().len() {
                    old(self).cells()[i]
                } else {
                    empty_cell()
                },
    {
        let length = area.area() as usize;
        if self.content.len() > length {
            self.content.truncate(length);
        } else {
            let filler = Cell::empty();
            let ghost before = self.content@;
            self.content.resize(length, filler);
            assert forall|i: int| before.len() <= i < length implies #[trigger] self.content@[i]@
                == empty_cell() by {
                assert(vstd::pervasive::cloned(filler, self.content@[i]));
            }
        }
        self.area = area;
        assert(self.cells() =~= resized_cells(old(self).cells(), area.area_spec()));
    }

    /// The texts of the cells, row by row, rows separated by a line break.
    pub fn to_text(&self) -> (r: String)
        requires
            self.wf(),
        ensures
            r@ == buffer_text(self.cells(), self.area.width as int, self.cells().len() as nat),
    {
        let w = self.area.width as usize;
        let n = self.content.len();
        let mut out = String::new();
        if w == 0 {
            assert(self.area.area_spec() == 0) by (nonlinear_arith)
                requires
                    self.area.width == 0,
            ;
            return out;
        }
        let mut i: usize = 0;
        while i < n
            invariant
                n == self.content@.len(),
                self.wf(),
                w == self.area.width,
                w > 0,
                i <= n,
                out@ == buffer_text(self.cells(), w as int, i as nat),
            decreases n - i,
        {
            if i > 0 && i % w == 0 {
                let nl = "\n";
                proof {
                    reveal_strlit("\n");
                }
                out.append(nl);
            }
            out.append(self.content[i].symbol());
            i = i + 1;
        }
        out
    }
}

/// The text of the first `n` cells of a buffer `width` columns wide: their texts in
/// order, with a line break before the first cell of each row but the first.
pub open spec fn buffer_text(cells: Seq<CellView>, width: int, n: nat) -> Seq<char>
    decreases n,
{
    if n == 0 {
        seq![]
    } else {
        let i = n - 1;
        buffer_text(cells, width, i as nat) + (if i > 0 && i % width == 0 {
            seq!['\n']
        } else {
            seq![]
        }) + cells[i].text()
    }
}

/// A buffer one row high, `width` columns wide, or as wide as the terminal when no
/// width is given; `None` when neither width is known.
pub fn term_buffer(width: Option<u16>, terminal_width: Option<u16>) -> (r: Option<Buffer>)
    ensures
        r is Some <==> (width is Some || terminal_width is Some),
        r is Some ==> {
            let b = r->0;
            &&& b.wf()
            &&& b.area == Rect {
                x: 0,
                y: 0,
                width: if width is Some {
                    width->0
                } else {
                    terminal_width->0
                },
                height: 1,
            }
            &&& forall|i: int| 0 <= i < b.cells().len() ==> #[trigger] b.cells()[i] == empty_cell()
        },
{
    let w = match width {
        Some(w) => w,
        None => match terminal_width {
            Some(w) => w,
            None => {
                return None;
            },
        },
    };
    Some(Buffer::empty(Rect { x: 0, y: 0, width: w, height: 1 }))
}

impl Clone for Buffer {
    fn clone(&self) -> (r: Self)
        ensures
            r.area == self.area,
            r.cells() == self.cells(),
    {
        let mut content: Vec<Cell> = Vec::new();
        let mut i: usize = 0;
        while i < self.content.len()
            invariant
                i <= self.content@.len(),
                content@.len() == i,
                forall|j: int| 0 <= j < i ==> #[trigger] content@[j]@ == self.content@[j]@,
            decreases self.content@.len() - i,
        {
            content.push(self.content[i].clone());
            i = i + 1;
        }
        let r = Buffer { area: self.area, content };
        assert(r.cells() =~= self.cells());
        r
    }
}

impl PartialEq for Buffer {
    fn eq(&self, other: &Buffer) -> (r: bool) {
        if self.area != other.area || self.content.len() != other.content.len() {
            assert(self.area != other.area || self.cells().len() != other.cells().len());
            return false;
        }
        let mut i: usize = 0;
        while i < self.content.len()
            invariant
                self.content@.len() == other.content@.len(),
                i <= self.content@.len(),
                forall|j: int| 0 <= j < i ==> #[trigger] self.cells()[j] == other.cells()[j],
            decreases self.content@.len() - i,
        {
            if self.content[i] != other.content[i] {
                assert(self.cells()[i as int] != other.cells()[i as int]);
                return false;
            }
            i = i + 1;
        }
        assert(self.cells() =~= other.cells());
        true
    }
}

impl vstd::std_specs::cmp::PartialEqSpecImpl for Buffer {
    open spec fn obeys_eq_spec() -> bool {
        true
    }

    open spec fn eq_spec(&self, other: &Buffer) -> bool {
        self.area == other.area && self.cells() == other.cells()
    }
}

impl Eq for Buffer {

}

impl Default for Buffer {
    fn default() -> (r: Self)
        ensures
            r.wf(),
            r.area == (Rect { x: 0, y: 0, width: 0, height: 0 }),
    {
        Buffer::empty(Rect { x: 0, y: 0, width: 0, height: 0 })
    }
}

} // verus!
