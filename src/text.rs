//! Styled text: spans, lines of spans, and blocks of lines, with unicode-aware width,
//! alignment and truncation.

mod line;
mod span;
mod split;
mod text_block;

pub use line::{
    after_width_spec, align_offsets, in_order, indent_rect, indent_spec, lemma_left_aligned_line_keeps_spans,
    lemma_left_aligned_line_is_its_spans_one_by_one, one_by_one,
    line_graphemes, line_text, line_width_spec, placed_view,
    render_list_spec, sat_u16, sat_usize, skip_spec, span_write, spans_after_width, spans_view, Line,
    LineView,
};
pub use span::{kept_graphemes, Span, SpanView, StyledGrapheme, ToSpan};
pub use split::{lines_spec, split_lines};
pub use text_block::{line_widths, max_width_spec, Text};
