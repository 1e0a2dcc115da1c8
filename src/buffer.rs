//! The [`Buffer`] and [`Cell`] types: a grid of terminal cells and the diff between two grids.

mod cell;
mod grid;

pub use cell::{empty_cell, Cell, CellView};
pub use grid::{
    lemma_diff_reports_vacated_wide_glyph, lemma_diff_self_empty, lemma_wide_glyph_continuation,
    lemma_diff_holds_vacated_wide_glyph, lemma_reported_in_diff, lemma_write_run_frame,
    diff_spec, diff_state, buffer_text, index_spec, resized_cells, in_rect, row_base_in, style_region, term_buffer, write_result_in,
    write_start_in, glyph_width, pos_x, pos_y, reported, write_run, write_step, Buffer, WriteState,
};
