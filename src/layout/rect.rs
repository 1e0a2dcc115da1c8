use vstd::prelude::*;

use crate::layout::{Position, Size};

verus! {

/// `a + b`, clamped to the largest `u16`.
pub open spec fn sat_add(a: u16, b: u16) -> u16 {
    if a + b > u16::MAX {
        u16::MAX
    } else {
        (a + b) as u16
    }
}

/// `a - b`, clamped at zero.
pub open spec fn sat_sub(a: u16, b: u16) -> u16 {
    if a >= b {
        (a - b) as u16
    } else {
        0
    }
}

pub open spec fn max16(a: u16, b: u16) -> u16 {
    if a >= b {
        a
    } else {
        b
    }
}

pub open spec fn min16(a: u16, b: u16) -> u16 {
    if a <= b {
        a
    } else {
        b
    }
}

/// An axis-aligned region of the terminal.
#[derive(Debug, Clone, Copy, PartialEq, Eq, Structural, Hash)]
pub struct Rect {
    pub x: u16,
    pub y: u16,
    pub width: u16,
    pub height: u16,
}

impl Rect {
    /// The first column past the right edge (saturating).
    pub open spec fn right_spec(self) -> u16 {
        sat_add(self.x, self.width)
    }

    /// The first row past the bottom edge (saturating).
    pub open spec fn bottom_spec(self) -> u16 {
        sat_add(self.y, self.height)
    }

    /// The number of cells in the region.
    pub open spec fn area_spec(self) -> nat {
        (self.width * self.height) as nat
    }

    pub open spec fn intersection_spec(self, other: Rect) -> Rect {
        let x1 = max16(self.x, other.x);
        let y1 = max16(self.y, other.y);
        let x2 = min16(self.right_spec(), other.right_spec());
        let y2 = min16(self.bottom_spec(), other.bottom_spec());
        Rect { x: x1, y: y1, width: sat_sub(x2, x1), height: sat_sub(y2, y1) }
    }

    pub open spec fn contains_spec(self, p: Position) -> bool {
        self.x <= p.x && p.x < self.right_spec() && self.y <= p.y && p.y < self.bottom_spec()
    }

    /// Creates a rectangle from its corner and dimensions.
    pub fn new(x: u16, y: u16, width: u16, height: u16) -> (r: Self)
        ensures
            r == (Rect { x, y, width, height }),
    {
        Rect { x, y, width, height }
    }

    /// The number of cells in the region.
    pub fn area(self) -> (r: u32)
        ensures
            r == self.area_spec(),
    {
        proof {
            vstd::arithmetic::mul::lemma_mul_upper_bound(
                self.width as int,
                u16::MAX as int,
                self.height as int,
                u16::MAX as int,
            );
        }
        (self.width as u32) * (self.height as u32)
    }

    /// The first column past the right edge, saturating instead of overflowing.
    pub fn right(self) -> (r: u16)
        ensures
            r == self.right_spec(),
    {
        self.x.saturating_add(self.width)
    }

    /// The first column of the region.
    pub fn left(self) -> (r: u16)
        ensures
            r == self.x,
    {
        self.x
    }

    /// The first row of the region.
    pub fn top(self) -> (r: u16)
        ensures
            r == self.y,
    {
        self.y
    }

    /// The first row past the bottom edge, saturating instead of overflowing.
    pub fn bottom(self) -> (r: u16)
        ensures
            r == self.bottom_spec(),
    {
        self.y.saturating_add(self.height)
    }

    /// The dimensions of the region.
    pub fn as_size(self) -> (r: Size)
        ensures
            r.width == self.width,
            r.height == self.height,
    {
        Size { width: self.width, height: self.height }
    }

    /// The top-left corner of the region.
    pub fn as_position(self) -> (r: Position)
        ensures
            r.x == self.x,
            r.y == self.y,
    {
        Position { x: self.x, y: self.y }
    }

    /// The region covered by both rectangles (empty when they are disjoint).
    pub fn intersection(self, other: Self) -> (r: Self)
        ensures
            r == self.intersection_spec(other),
    {
        let x1 = if self.x >= other.x { self.x } else { other.x };
        let y1 = if self.y >= other.y { self.y } else { other.y };
        let (sr, or) = (self.right(), other.right());
        let (sb, ob) = (self.bottom(), other.bottom());
        let x2 = if sr <= or { sr } else { or };
        let y2 = if sb <= ob { sb } else { ob };
        Rect { x: x1, y: y1, width: x2.saturating_sub(x1), height: y2.saturating_sub(y1) }
    }

    /// Whether the two rectangles share at least one cell.
    pub fn intersects(self, other: Self) -> (r: bool)
        ensures
            r == (self.x < other.right_spec() && self.right_spec() > other.x && self.y
                < other.bottom_spec() && self.bottom_spec() > other.y),
    {
        self.x < other.right() && self.right() > other.x && self.y < other.bottom()
            && self.bottom() > other.y
    }

    /// Whether the position lies within the region (the right and bottom edges are the
    /// first column and row outside it).
    pub fn contains(self, position: Position) -> (r: bool)
        ensures
            r == self.contains_spec(position),
    {
        position.x >= self.x && position.x < self.right() && position.y >= self.y && position.y
            < self.bottom()
    }

    /// The region shifted right by `offset` columns and narrowed by as much.
    pub fn indent_x(self, offset: u16) -> (r: Self)
        ensures
            r == (Rect {
                x: sat_add(self.x, offset),
                width: sat_sub(self.width, offset),
                ..self
            }),
    {
        Rect { x: self.x.saturating_add(offset), width: self.width.saturating_sub(offset), ..self }
    }
}

impl Default for Rect {
    fn default() -> (r: Self)
        ensures
            r == (Rect { x: 0, y: 0, width: 0, height: 0 }),
    {
        Rect { x: 0, y: 0, width: 0, height: 0 }
    }
}

impl From<Size> for Rect {
    fn from(size: Size) -> (r: Self) {
        Rect { x: 0, y: 0, width: size.width, height: size.height }
    }
}

impl vstd::std_specs::convert::FromSpecImpl<Size> for Rect {
    open spec fn obeys_from_spec() -> bool {
        true
    }

    open spec fn from_spec(size: Size) -> Rect {
        Rect { x: 0, y: 0, width: size.width, height: size.height }
    }
}

} // verus!
