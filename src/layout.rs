//! Geometry: positions, sizes, rectangles and one-dimensional widths.

mod alignment;
mod position;
mod rect;
mod size;
mod width;

pub use alignment::Alignment;
pub use position::Position;
pub use rect::{max16, min16, sat_add, sat_sub, Rect};
pub use size::Size;
pub use width::Width;
