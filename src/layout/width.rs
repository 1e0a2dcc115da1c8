use vstd::prelude::*;

use crate::layout::rect::{sat_add, sat_sub};

verus! {

/// A one-dimensional range of columns: `width` columns starting at `offset`.
///
/// Intersection is taken from the first width's point of view: a second width that
/// starts inside the first is clipped to the first's right edge, and one that starts
/// before it (or past it) does not intersect it, so `a.intersection(b)` and
/// `b.intersection(a)` may differ.
#[derive(Debug, Clone, Copy, PartialEq, Eq, Structural, Hash)]
pub struct Width {
    pub offset: u16,
    pub width: u16,
}

impl Width {
    pub open spec fn zero_spec() -> Width {
        Width { offset: 0, width: 0 }
    }

    /// A width with zero width and zero offset.
    pub fn zero() -> (r: Width)
        ensures
            r == Width::zero_spec(),
    {
        Width { offset: 0, width: 0 }
    }

    /// The first column past the range (saturating).
    pub open spec fn right_spec(self) -> u16 {
        sat_add(self.offset, self.width)
    }

    /// Whether `other` starts inside `self`.
    pub open spec fn intersects_spec(self, other: Width) -> bool {
        self.offset <= other.offset && other.offset < self.right_spec()
    }

    /// `other` clipped to the columns that `self` still covers from `other`'s start.
    pub open spec fn intersection_spec(self, other: Width) -> Width {
        if !self.intersects_spec(other) {
            Width::zero_spec()
        } else {
            let room = (self.right_spec() - other.offset) as u16;
            Width { offset: other.offset, width: if other.width <= room { other.width } else { room } }
        }
    }

    /// Creates a new width with the given offset and width.
    pub fn new(offset: u16, width: u16) -> (r: Self)
        ensures
            r == (Width { offset, width }),
    {
        Width { offset, width }
    }

    /// Sets the number of columns.
    pub fn width(self, width: u16) -> (r: Self)
        ensures
            r == (Width { width, ..self }),
    {
        Width { width, ..self }
    }

    /// Sets the first column.
    pub fn offset(self, offset: u16) -> (r: Self)
        ensures
            r == (Width { offset, ..self }),
    {
        Width { offset, ..self }
    }

    /// The first column outside the range.
    pub fn right(self) -> (r: u16)
        ensures
            r == self.right_spec(),
    {
        self.offset.saturating_add(self.width)
    }

    /// The first column of the range.
    pub fn left(self) -> (r: u16)
        ensures
            r == self.offset,
    {
        self.offset
    }

    /// Whether `other` starts inside `self` and ends strictly before `self` ends.
    pub fn contains(&self, other: &Self) -> (r: bool)
        ensures
            r == (self.intersects_spec(*other) && other.width < self.width - (other.offset
                - self.offset)),
    {
        self.intersects(other) && other.width < self.width - (other.offset - self.offset)
    }

    /// Whether `other` starts inside `self`.
    pub fn intersects(&self, other: &Self) -> (r: bool)
        ensures
            r == self.intersects_spec(*other),
    {
        other.offset >= self.offset && other.offset < self.right()
    }

    /// `other` clipped to `self`; the zero width when `other` does not start inside `self`.
    pub fn intersection(&self, other: &Self) -> (r: Self)
        ensures
            r == self.intersection_spec(*other),
            r.width <= self.width,
            r.width <= other.width,
    {
        if !self.intersects(other) {
            return Width::zero();
        }
        let room = self.right() - other.offset;
        let w = if other.width <= room { other.width } else { room };
        Width::new(other.offset, w)
    }

    /// The range shifted right by `offset` columns and narrowed by as much.
    pub fn indent_x(self, offset: u16) -> (r: Self)
        ensures
            r == (Width { offset: sat_add(self.offset, offset), width: sat_sub(self.width, offset) }),
    {
        Width { offset: self.offset.saturating_add(offset), width: self.width.saturating_sub(offset) }
    }
}

/// The intersection of two widths is never wider than either of them, and is the
/// zero width whenever the second does not start inside the first.
pub proof fn lemma_intersection_bounds(a: Width, b: Width)
    ensures
        a.intersection_spec(b).width <= a.width,
        a.intersection_spec(b).width <= b.width,
        !a.intersects_spec(b) ==> a.intersection_spec(b) == Width::zero_spec(),
{
}

} // verus!
