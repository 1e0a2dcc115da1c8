//! What can be rendered into a [`Buffer`].

use vstd::prelude::*;

use crate::buffer::Buffer;
use crate::layout::Rect;

verus! {

/// Something that renders itself into an area of a buffer.
pub trait Component {
    /// Renders into `area` of `buffer`, keeping the buffer well formed over its area.
    fn render(self, area: Rect, buffer: &mut Buffer)
        requires
            old(buffer).wf(),
            old(buffer).addressable(),
        ensures
            final(buffer).wf(),
            final(buffer).area == old(buffer).area,
    ;
}

/// Something that renders itself with the help of a state, and says whether it wants
/// to be rendered again.
pub trait StatefulComponent {
    type State;

    /// Renders into `area` of `buffer`; returns whether rendering should continue.
    fn render(self, area: Rect, buffer: &mut Buffer, state: &mut Self::State) -> (r: bool)
        requires
            old(buffer).wf(),
            old(buffer).addressable(),
        ensures
            final(buffer).wf(),
            final(buffer).area == old(buffer).area,
    ;
}

} // verus!
