//! A terminal output rendering engine: a cell-addressable frame buffer, a diff
//! between frames, an ANSI command planner, and unicode-aware text layout.

pub mod backend;
pub mod buffer;
pub mod component;
pub mod layout;
pub mod style;
pub mod terminal;
pub mod text;
pub mod theme;
pub mod unicode;
pub mod widgets;
