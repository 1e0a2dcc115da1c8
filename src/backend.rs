//! The backend contract, and the planning of the commands that draw a diff: cursor
//! moves, attribute and color changes, and prints.

use vstd::prelude::*;

use crate::buffer::{Cell, CellView};
use crate::layout::{Position, Size};
use crate::style::lemma_minus_bit;
use crate::style::{Attribute, Attributes, Color};

verus! {

/// Which part of the screen to clear.
#[derive(Debug, Clone, Copy, PartialEq, Eq, Structural, Hash)]
pub enum ClearType {
    All,
    AfterCursor,
    BeforeCursor,
    CurrentLine,
    UntilNewLine,
}

/// The terminal operations that a frame needs. Every operation may fail with the
/// implementation's error, which the caller receives unchanged.
pub trait Backend {
    type Error;

    /// Draws the given cells, each at its column and row.
    fn draw(&mut self, content: &Vec<(u16, u16, &Cell)>) -> Result<(), Self::Error>;

    /// Prints `n` line breaks and flushes.
    fn append_lines(&mut self, n: u16) -> Result<(), Self::Error>;

    fn hide_cursor(&mut self) -> Result<(), Self::Error>;

    fn show_cursor(&mut self) -> Result<(), Self::Error>;

    fn get_cursor_position(&mut self) -> Result<Position, Self::Error>;

    fn set_cursor_position(&mut self, position: Position) -> Result<(), Self::Error>;

    fn clear_region(&mut self, clear_type: ClearType) -> Result<(), Self::Error>;

    fn clear(&mut self) -> Result<(), Self::Error>;

    fn size(&self) -> Result<Size, Self::Error>;

    fn flush(&mut self) -> Result<(), Self::Error>;
}

/// One terminal operation of a draw.
#[derive(Debug, Clone, PartialEq, Eq, Hash)]
pub enum Command {
    /// Move the cursor to a column and row.
    MoveTo(u16, u16),
    /// Emit one SGR attribute.
    SetAttribute(Attribute),
    /// Set the foreground and background colors.
    SetColors(Color, Color),
    /// Print text at the cursor.
    Print(String),
}

/// The mathematical value of a [`Command`].
pub enum CommandView {
    MoveTo(u16, u16),
    SetAttribute(Attribute),
    SetColors(Color, Color),
    Print(Seq<char>),
}

impl View for Command {
    type V = CommandView;

    open spec fn view(&self) -> CommandView {
        match self {
            Command::MoveTo(x, y) => CommandView::MoveTo(*x, *y),
            Command::SetAttribute(a) => CommandView::SetAttribute(*a),
            Command::SetColors(f, b) => CommandView::SetColors(*f, *b),
            Command::Print(s) => CommandView::Print(s@),
        }
    }
}

/// The values of a sequence of commands.
pub open spec fn commands_view(s: Seq<Command>) -> Seq<CommandView> {
    s.map_values(|c: Command| c@)
}

proof fn lemma_commands_push(s: Seq<Command>, c: Command)
    ensures
        commands_view(s.push(c)) == commands_view(s).push(c@),
{
    assert(commands_view(s.push(c)) =~= commands_view(s).push(c@));
}

/// One `SetAttribute` command per attribute.
pub open spec fn set_attributes(s: Seq<Attribute>) -> Seq<CommandView> {
    s.map_values(|a: Attribute| CommandView::SetAttribute(a))
}

/// `s` with `a` appended when `c` holds.
pub open spec fn then_if(s: Seq<Attribute>, c: bool, a: Attribute) -> Seq<Attribute> {
    if c {
        s.push(a)
    } else {
        s
    }
}

/// Whether `a` is in `from` and not in `to`.
pub open spec fn lost(from: Attributes, to: Attributes, a: Attribute) -> bool {
    from.has_spec(a) && !to.has_spec(a)
}

/// The attributes to emit to go from `from` to `to`. Removed attributes are turned off
/// one by one, except that losing `Bold` or `Dim` emits `NormalIntensity` and then
/// re-emits whichever of `Dim` and `Bold` both sets keep; added attributes are then
/// turned on one by one.
pub open spec fn attribute_diff_spec(from: Attributes, to: Attributes) -> Seq<Attribute> {
    let s1 = then_if(seq![], lost(from, to, Attribute::Reverse), Attribute::NoReverse);
    let intensity = lost(from, to, Attribute::Bold) || lost(from, to, Attribute::Dim);
    let s2 = then_if(s1, intensity, Attribute::NormalIntensity);
    let s3 = then_if(
        s2,
        intensity && from.has_spec(Attribute::Dim) && to.has_spec(Attribute::Dim),
        Attribute::Dim,
    );
    let s4 = then_if(
        s3,
        intensity && from.has_spec(Attribute::Bold) && to.has_spec(Attribute::Bold),
        Attribute::Bold,
    );
    let s5 = then_if(s4, lost(from, to, Attribute::Italic), Attribute::NoItalic);
    let s6 = then_if(s5, lost(from, to, Attribute::Underlined), Attribute::NoUnderline);
    let s7 = then_if(s6, lost(from, to, Attribute::Strikethrough), Attribute::NoStrikethrough);
    let s8 = then_if(
        s7,
        lost(from, to, Attribute::SlowBlink) || lost(from, to, Attribute::RapidBlink),
        Attribute::NoBlink,
    );
    let s9 = then_if(s8, lost(to, from, Attribute::Reverse), Attribute::Reverse);
    let s10 = then_if(s9, lost(to, from, Attribute::Bold), Attribute::Bold);
    let s11 = then_if(s10, lost(to, from, Attribute::Italic), Attribute::Italic);
    let s12 = then_if(s11, lost(to, from, Attribute::Dim), Attribute::Dim);
    let s13 = then_if(s12, lost(to, from, Attribute::Strikethrough), Attribute::Strikethrough);
    let s14 = then_if(s13, lost(to, from, Attribute::SlowBlink), Attribute::SlowBlink);
    then_if(s14, lost(to, from, Attribute::RapidBlink), Attribute::RapidBlink)
}

/// A change of attributes, from the set last emitted to the set a cell needs.
#[derive(Debug, Clone, Copy, PartialEq, Eq, Structural, Hash)]
pub struct AttributeDiff {
    pub from: Attributes,
    pub to: Attributes,
}

fn push_if(out: &mut Vec<Attribute>, c: bool, a: Attribute)
    ensures
        final(out)@ == then_if(old(out)@, c, a),
{
    if c {
        out.push(a);
    }
}

impl AttributeDiff {
    /// The attributes to emit, in order.
    pub fn attributes(&self) -> (r: Vec<Attribute>)
        ensures
            r@ == attribute_diff_spec(self.from, self.to),
    {
        let from = self.from;
        let to = self.to;
        let removed = from.difference(to);
        let added = to.difference(from);
        proof {
            assert forall|a: Attribute| #[trigger] removed.has_spec(a) == lost(from, to, a) by {
                lemma_minus_bit(from.0, to.0, a.code_spec());
            }
            assert forall|a: Attribute| #[trigger] added.has_spec(a) == lost(to, from, a) by {
                lemma_minus_bit(to.0, from.0, a.code_spec());
            }
        }
        let mut out: Vec<Attribute> = Vec::new();
        push_if(&mut out, removed.has(Attribute::Reverse), Attribute::NoReverse);
        let intensity = removed.has(Attribute::Bold) || removed.has(Attribute::Dim);
        push_if(&mut out, intensity, Attribute::NormalIntensity);
        push_if(
            &mut out,
            intensity && from.has(Attribute::Dim) && to.has(Attribute::Dim),
            Attribute::Dim,
        );
        push_if(
            &mut out,
            intensity && from.has(Attribute::Bold) && to.has(Attribute::Bold),
            Attribute::Bold,
        );
        push_if(&mut out, removed.has(Attribute::Italic), Attribute::NoItalic);
        push_if(&mut out, removed.has(Attribute::Underlined), Attribute::NoUnderline);
        push_if(&mut out, removed.has(Attribute::Strikethrough), Attribute::NoStrikethrough);
        push_if(
            &mut out,
            removed.has(Attribute::SlowBlink) || removed.has(Attribute::RapidBlink),
            Attribute::NoBlink,
        );
        push_if(&mut out, added.has(Attribute::Reverse), Attribute::Reverse);
        push_if(&mut out, added.has(Attribute::Bold), Attribute::Bold);
        push_if(&mut out, added.has(Attribute::Italic), Attribute::Italic);
        push_if(&mut out, added.has(Attribute::Dim), Attribute::Dim);
        push_if(&mut out, added.has(Attribute::Strikethrough), Attribute::Strikethrough);
        push_if(&mut out, added.has(Attribute::SlowBlink), Attribute::SlowBlink);
        push_if(&mut out, added.has(Attribute::RapidBlink), Attribute::RapidBlink);
        out
    }
}

/// What a draw has emitted so far: the colors and attributes in force, and the
/// position of the last cell printed.
pub struct DrawState {
    pub fg: Color,
    pub bg: Color,
    pub attributes: Attributes,
    pub last: Option<(u16, u16)>,
}

/// The state at the start of a draw: default colors, no attributes, no cell printed.
pub open spec fn draw_start() -> DrawState {
    DrawState { fg: Color::Reset, bg: Color::Reset, attributes: Attributes(0), last: None }
}

/// Whether `(x, y)` is the column right after the last cell printed, on its row, so
/// that the terminal's own cursor advance reaches it.
pub open spec fn follows(last: Option<(u16, u16)>, x: u16, y: u16) -> bool {
    match last {
        Some(p) => x == p.0 + 1 && y == p.1,
        None => false,
    }
}

/// The commands that draw one cell, and the state after them: a move unless the cell
/// follows the last one, the attribute changes, the colors when either changed, and
/// the cell's text.
pub open spec fn draw_step(st: DrawState, x: u16, y: u16, cell: CellView) -> (DrawState, Seq<
    CommandView,
>) {
    let moves = if follows(st.last, x, y) {
        seq![]
    } else {
        seq![CommandView::MoveTo(x, y)]
    };
    let attrs = if cell.attributes != st.attributes {
        set_attributes(attribute_diff_spec(st.attributes, cell.attributes))
    } else {
        seq![]
    };
    let colors = if cell.fg != st.fg || cell.bg != st.bg {
        seq![CommandView::SetColors(cell.fg, cell.bg)]
    } else {
        seq![]
    };
    (
        DrawState { fg: cell.fg, bg: cell.bg, attributes: cell.attributes, last: Some((x, y)) },
        moves + attrs + colors + seq![CommandView::Print(cell.text())],
    )
}

/// The state and the commands after drawing the first `n` updates.
pub open spec fn draw_spec(updates: Seq<(u16, u16, CellView)>, n: nat) -> (DrawState, Seq<
    CommandView,
>)
    decreases n,
{
    if n == 0 {
        (draw_start(), seq![])
    } else {
        let prev = draw_spec(updates, (n - 1) as nat);
        let u = updates[n - 1];
        let step = draw_step(prev.0, u.0, u.1, u.2);
        (step.0, prev.1 + step.1)
    }
}

/// The updates of a diff as values.
pub open spec fn updates_view(content: Seq<(u16, u16, &Cell)>) -> Seq<(u16, u16, CellView)> {
    content.map_values(|u: (u16, u16, &Cell)| (u.0, u.1, u.2@))
}

/// The commands that draw `content` in order, starting from default colors and no
/// attributes: cursor moves only where a cell does not follow the last one on its row,
/// attribute changes as [`AttributeDiff`] plans them, colors only when they change.
pub fn draw_commands(content: &Vec<(u16, u16, &Cell)>) -> (r: Vec<Command>)
    ensures
        commands_view(r@) == draw_spec(updates_view(content@), content@.len()).1,
{
    let mut out: Vec<Command> = Vec::new();
    let mut fg = Color::Reset;
    let mut bg = Color::Reset;
    let mut attrs = Attributes::none();
    let mut last: Option<(u16, u16)> = None;
    let ghost ups = updates_view(content@);
    let mut i: usize = 0;
    while i < content.len()
        invariant
            ups == updates_view(content@),
            i <= content@.len(),
            draw_spec(ups, i as nat).0 == (DrawState { fg, bg, attributes: attrs, last }),
            commands_view(out@) == draw_spec(ups, i as nat).1,
        decreases content@.len() - i,
    {
        let (x, y, cell) = content[i];
        let ghost before = commands_view(out@);
        let ghost out0 = out@;
        let follows_last = match last {
            Some(p) => x as u32 == p.0 as u32 + 1 && y == p.1,
            None => false,
        };
        if !follows_last {
            out.push(Command::MoveTo(x, y));
            proof {
                lemma_commands_push(out0, Command::MoveTo(x, y));
            }
        }
        let ghost after_move = commands_view(out@);
        if cell.attributes != attrs {
            let diff = AttributeDiff { from: attrs, to: cell.attributes };
            let list = diff.attributes();
            let mut j: usize = 0;
            while j < list.len()
                invariant
                    j <= list@.len(),
                    commands_view(out@) == after_move + set_attributes(list@.subrange(0, j as int)),
                decreases list@.len() - j,
            {
                let ghost prev_out = out@;
                out.push(Command::SetAttribute(list[j]));
                proof {
                    lemma_commands_push(prev_out, Command::SetAttribute(list@[j as int]));
                    assert(list@.subrange(0, j + 1) =~= list@.subrange(0, j as int).push(list@[j as int]));
                    assert(set_attributes(list@.subrange(0, j + 1)) =~= set_attributes(list@.subrange(0, j as int)).push(CommandView::SetAttribute(list@[j as int])));
                    assert(commands_view(out@) =~= after_move + set_attributes(list@.subrange(0, j + 1)));
                }
                j = j + 1;
            }
            assert(list@.subrange(0, list@.len() as int) == list@);
            attrs = cell.attributes;
        }
        let ghost after_attrs = commands_view(out@);
        let ghost out2 = out@;
        if cell.fg != fg || cell.bg != bg {
            out.push(Command::SetColors(cell.fg, cell.bg));
            proof {
                lemma_commands_push(out2, Command::SetColors(cell.fg, cell.bg));
            }
            fg = cell.fg;
            bg = cell.bg;
        }
        let ghost after_colors = commands_view(out@);
        let text = String::from_str(cell.symbol());
        let ghost out3 = out@;
        out.push(Command::Print(text));
        proof {
            lemma_commands_push(out3, Command::Print(text));
        }
        fg = cell.fg;
        bg = cell.bg;
        attrs = cell.attributes;
        last = Some((x, y));
        proof {
            let step = draw_step(draw_spec(ups, i as nat).0, x, y, cell@);
            assert(ups[i as int] == (x, y, cell@));
            assert(after_colors =~= after_attrs + (if cell@.fg != draw_spec(ups, i as nat).0.fg
                || cell@.bg != draw_spec(ups, i as nat).0.bg {
                seq![CommandView::SetColors(cell.fg, cell.bg)]
            } else {
                seq![]
            }));
            assert(commands_view(out@) =~= before + step.1);
        }
        i = i + 1;
    }
    out
}

} // verus!
