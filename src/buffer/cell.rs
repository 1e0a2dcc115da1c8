use vstd::prelude::*;

use crate::style::{Attributes, Color, Style};

verus! {

/// The mathematical value of a [`Cell`].
pub struct CellView {
    pub symbol: Option<Seq<char>>,
    pub fg: Color,
    pub bg: Color,
    pub attributes: Attributes,
    pub skip: bool,
}

impl CellView {
    /// The text the cell prints: its symbol, or a single space when it has none.
    pub open spec fn text(self) -> Seq<char> {
        match self.symbol {
            Some(s) => s,
            None => seq![' '],
        }
    }

    /// The cell with this style applied: colors present in the style replace the
    /// cell's, and the style's attributes replace the cell's attributes.
    pub open spec fn styled(self, style: Style) -> CellView {
        CellView {
            fg: match style.fg {
                Some(c) => c,
                None => self.fg,
            },
            bg: match style.bg {
                Some(c) => c,
                None => self.bg,
            },
            attributes: style.attributes,
            ..self
        }
    }
}

/// The value of the empty cell: no symbol, default colors, no attributes.
pub open spec fn empty_cell() -> CellView {
    CellView {
        symbol: None,
        fg: Color::Reset,
        bg: Color::Reset,
        attributes: Attributes(0),
        skip: false,
    }
}

/// One terminal character slot.
#[derive(Debug, Hash)]
pub struct Cell {
    /// The grapheme the cell shows; `None` prints as a single space.
    pub symbol: Option<String>,
    pub fg: Color,
    pub bg: Color,
    pub attributes: Attributes,
    /// Whether the cell is covered by a wide glyph of an earlier column.
    pub skip: bool,
}

impl View for Cell {
    type V = CellView;

    open spec fn view(&self) -> CellView {
        CellView {
            symbol: match self.symbol {
                Some(s) => Some(s@),
                None => None,
            },
            fg: self.fg,
            bg: self.bg,
            attributes: self.attributes,
            skip: self.skip,
        }
    }
}

impl Cell {
    /// The empty cell.
    pub fn empty() -> (r: Self)
        ensures
            r@ == empty_cell(),
    {
        Cell::new(None, Color::Reset, Color::Reset, Attributes::none())
    }

    /// A cell with the given contents, not marked as skipped.
    pub fn new(symbol: Option<String>, fg: Color, bg: Color, attributes: Attributes) -> (r: Self)
        ensures
            r@.symbol == (match symbol {
                Some(s) => Some(s@),
                None => None::<Seq<char>>,
            }),
            r@.fg == fg,
            r@.bg == bg,
            r@.attributes == attributes,
            !r@.skip,
    {
        Cell { symbol, fg, bg, attributes, skip: false }
    }

    /// The text the cell prints: its symbol, or a single space when it has none.
    pub fn symbol(&self) -> (r: &str)
        ensures
            r@ == self@.text(),
    {
        match &self.symbol {
            Some(s) => s.as_str(),
            None => {
                let sp = " ";
                proof {
                    reveal_strlit(" ");
                }
                sp
            },
        }
    }

    /// Sets the symbol.
    pub fn set_symbol(&mut self, symbol: &str)
        ensures
            final(self)@ == (CellView { symbol: Some(symbol@), ..old(self)@ }),
    {
        self.symbol = Some(String::from_str(symbol));
    }

    /// Turns the cell back into the empty cell.
    pub fn reset(&mut self)
        ensures
            final(self)@ == empty_cell(),
    {
        *self = Cell::empty();
    }

    /// Applies a style: colors present in the style replace the cell's colors, and the
    /// style's attributes replace the cell's attributes.
    pub fn set_style(&mut self, style: Style)
        ensures
            final(self)@ == old(self)@.styled(style),
    {
        if let Some(c) = style.fg {
            self.fg = c;
        }
        if let Some(c) = style.bg {
            self.bg = c;
        }
        self.attributes = style.attributes;
    }
}

impl Clone for Cell {
    fn clone(&self) -> (r: Self)
        ensures
            r@ == self@,
    {
        let symbol = match &self.symbol {
            Some(s) => Some(s.clone()),
            None => None,
        };
        Cell { symbol, fg: self.fg, bg: self.bg, attributes: self.attributes, skip: self.skip }
    }
}

impl PartialEq for Cell {
    fn eq(&self, other: &Cell) -> (r: bool) {
        let same_symbol = match &self.symbol {
            Some(a) => match &other.symbol {
                Some(b) => a.eq(b),
                None => false,
            },
            None => other.symbol.is_none(),
        };
        same_symbol && self.fg == other.fg && self.bg == other.bg && self.attributes
            == other.attributes && self.skip == other.skip
    }
}

impl vstd::std_specs::cmp::PartialEqSpecImpl for Cell {
    open spec fn obeys_eq_spec() -> bool {
        true
    }

    open spec fn eq_spec(&self, other: &Cell) -> bool {
        self@ == other@
    }
}

impl Eq for Cell {

}

} // verus!
