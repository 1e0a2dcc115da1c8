//! Ready-made interactive components, and the names under which components are known
//! to widget authors.

pub mod confirmation;

pub use crate::component::{Component as Widget, StatefulComponent as StatefulWidget};
