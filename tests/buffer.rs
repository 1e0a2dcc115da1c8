use tdrop::buffer::{term_buffer, Buffer, Cell};
use tdrop::layout::{Position, Rect};
use tdrop::style::{Attribute, Attributes, Color, Style};

fn symbol_at(b: &Buffer, x: u16, y: u16) -> String {
    b.get(Position { x, y }).symbol().to_string()
}

fn row(b: &Buffer) -> String {
    b.to_text()
}

#[test]
fn filled_buffer_displays_its_symbol() {
    let cell = Cell::new(Some("h".to_string()), Color::Reset, Color::Reset, Attributes::none());
    let b = Buffer::filled(Rect::new(0, 0, 5, 1), cell);
    assert_eq!(b.to_text(), "hhhhh");
}

#[test]
fn empty_buffer_prints_spaces_and_rows() {
    let b = Buffer::empty(Rect::new(0, 0, 3, 2));
    assert_eq!(b.content.len(), 6);
    assert_eq!(b.to_text(), "   \n   ");
}

#[test]
fn set_stringn_clips_to_max_width() {
    let mut b = Buffer::empty(Rect::new(0, 0, 5, 1));
    let (x, y) = b.set_stringn(0, 0, "Hello", 3, Style::new());
    assert_eq!((x, y), (3, 0));
    assert_eq!(row(&b), "Hel  ");
    assert_eq!(b.get(Position { x: 3, y: 0 }), &Cell::empty());
    assert_eq!(b.get(Position { x: 4, y: 0 }), &Cell::empty());
}

#[test]
fn set_stringn_never_passes_the_right_edge() {
    let mut b = Buffer::empty(Rect::new(0, 0, 4, 1));
    let (x, _) = b.set_stringn(0, 0, "a much longer string", usize::MAX, Style::new());
    assert_eq!(x, 4);
    assert_eq!(row(&b), "a mu");
    let mut c = Buffer::empty(Rect::new(0, 0, 3, 1));
    let (x, _) = c.set_string(0, 0, "ab日", Style::new());
    assert_eq!(x, 2);
    assert_eq!(row(&c), "ab ");
}

#[test]
fn set_stringn_skips_control_characters() {
    let mut b = Buffer::empty(Rect::new(0, 0, 5, 1));
    let (x, _) = b.set_stringn(0, 0, "a\tb\u{7}c", 5, Style::new());
    assert_eq!(x, 3);
    assert_eq!(row(&b), "abc  ");
}

#[test]
fn wide_glyph_resets_its_continuation_cell() {
    let cell = Cell::new(Some("z".to_string()), Color::Red, Color::Reset, Attributes::none());
    let mut b = Buffer::filled(Rect::new(0, 0, 4, 1), cell);
    let (x, _) = b.set_stringn(1, 0, "日", 10, Style::new().fg(Color::Blue));
    assert_eq!(x, 3);
    assert_eq!(symbol_at(&b, 1, 0), "日");
    assert_eq!(b.get(Position { x: 1, y: 0 }).fg, Color::Blue);
    assert_eq!(b.get(Position { x: 2, y: 0 }), &Cell::empty());
    assert_eq!(b.get(Position { x: 2, y: 0 }).symbol, None);
    assert_eq!(symbol_at(&b, 3, 0), "z");
}

#[test]
fn set_stringn_applies_style() {
    let mut b = Buffer::empty(Rect::new(0, 0, 3, 1));
    let style = Style::new().fg(Color::Green).attribute(Attribute::Bold);
    b.set_stringn(0, 0, "ab", 3, style);
    let c = b.get(Position { x: 0, y: 0 });
    assert_eq!(c.fg, Color::Green);
    assert_eq!(c.bg, Color::Reset);
    assert!(c.attributes.has(Attribute::Bold));
}

#[test]
fn diff_of_a_buffer_with_itself_is_empty() {
    let mut b = Buffer::empty(Rect::new(0, 0, 6, 2));
    b.set_string(0, 0, "ab日c", Style::new().fg(Color::Red));
    b.set_string(0, 1, "xyz", Style::new());
    assert!(b.diff(&b).is_empty());
}

#[test]
fn diff_reports_changed_cells_in_order() {
    let prev = Buffer::empty(Rect::new(0, 0, 3, 2));
    let mut next = Buffer::empty(Rect::new(0, 0, 3, 2));
    next.set_string(1, 0, "a", Style::new());
    next.set_string(2, 1, "b", Style::new());
    let d = prev.diff(&next);
    assert_eq!(d.len(), 2);
    assert_eq!((d[0].0, d[0].1, d[0].2.symbol()), (1, 0, "a"));
    assert_eq!((d[1].0, d[1].1, d[1].2.symbol()), (2, 1, "b"));
}

#[test]
fn diff_skips_the_cell_covered_by_a_new_wide_glyph() {
    let prev = Buffer::empty(Rect::new(0, 0, 4, 1));
    let mut next = Buffer::empty(Rect::new(0, 0, 4, 1));
    next.set_string(0, 0, "日a", Style::new());
    let d = prev.diff(&next);
    let cols: Vec<u16> = d.iter().map(|u| u.0).collect();
    assert_eq!(cols, vec![0, 2]);
}

#[test]
fn diff_reports_both_columns_of_a_vacated_wide_glyph() {
    let mut prev = Buffer::empty(Rect::new(0, 0, 4, 1));
    prev.set_string(1, 0, "日", Style::new());
    let mut next = Buffer::empty(Rect::new(0, 0, 4, 1));
    next.set_string(1, 0, "a", Style::new());
    let d = prev.diff(&next);
    let cols: Vec<u16> = d.iter().map(|u| u.0).collect();
    assert_eq!(cols, vec![1, 2]);
}

#[test]
fn diff_ignores_skipped_cells() {
    let prev = Buffer::empty(Rect::new(0, 0, 2, 1));
    let mut next = Buffer::empty(Rect::new(0, 0, 2, 1));
    let mut c = Cell::empty();
    c.set_symbol("q");
    c.skip = true;
    next.content[1] = c;
    assert!(prev.diff(&next).is_empty());
}

#[test]
fn positions_and_indices_agree() {
    let b = Buffer::empty(Rect::new(10, 20, 4, 3));
    assert_eq!(b.index_of(10, 20), 0);
    assert_eq!(b.index_of(13, 21), 7);
    assert_eq!(b.pos_of(7), (13, 21));
    assert_eq!(b.pos_of(11), (13, 22));
    assert_eq!(b.index_of_opt(Position { x: 14, y: 20 }), None);
    assert_eq!(b.index_of_opt(Position { x: 12, y: 22 }), Some(10));
}

#[test]
fn reset_empties_every_cell() {
    let cell = Cell::new(Some("h".to_string()), Color::Red, Color::Blue, Attributes::none());
    let mut b = Buffer::filled(Rect::new(0, 0, 2, 2), cell);
    b.reset();
    assert!(b.content.iter().all(|c| *c == Cell::empty()));
}

#[test]
fn resize_truncates_and_pads() {
    let cell = Cell::new(Some("h".to_string()), Color::Reset, Color::Reset, Attributes::none());
    let mut b = Buffer::filled(Rect::new(0, 0, 3, 1), cell);
    b.resize(Rect::new(0, 0, 2, 1));
    assert_eq!(b.to_text(), "hh");
    b.resize(Rect::new(0, 0, 4, 1));
    assert_eq!(b.to_text(), "hh  ");
    assert_eq!(b.area, Rect::new(0, 0, 4, 1));
}

#[test]
fn set_style_touches_only_the_overlap() {
    let mut b = Buffer::empty(Rect::new(0, 0, 3, 2));
    b.set_style(Rect::new(1, 1, 5, 5), Style::new().bg(Color::Red));
    for (i, c) in b.content.iter().enumerate() {
        let expected = if i == 4 || i == 5 { Color::Red } else { Color::Reset };
        assert_eq!(c.bg, expected);
    }
}

#[test]
fn cell_operations() {
    let mut c = Cell::empty();
    assert_eq!(c.symbol(), " ");
    c.set_symbol("x");
    assert_eq!(c.symbol(), "x");
    c.set_style(Style::new().fg(Color::Red).attribute(Attribute::Italic));
    assert_eq!(c.fg, Color::Red);
    assert!(c.attributes.has(Attribute::Italic));
    c.set_style(Style::new().bg(Color::Blue));
    assert_eq!(c.fg, Color::Red);
    assert_eq!(c.bg, Color::Blue);
    assert!(c.attributes.is_empty());
    let d = c.clone();
    assert_eq!(d, c);
    c.reset();
    assert_eq!(c, Cell::empty());
}

#[test]
fn term_buffer_uses_given_or_terminal_width() {
    let b = term_buffer(Some(7), Some(80)).unwrap();
    assert_eq!(b.area, Rect::new(0, 0, 7, 1));
    let c = term_buffer(None, Some(80)).unwrap();
    assert_eq!(c.area.width, 80);
    assert!(term_buffer(None, None).is_none());
}

#[test]
fn buffers_compare_by_area_and_cells() {
    let mut a = Buffer::empty(Rect::new(0, 0, 3, 1));
    a.set_string(0, 0, "ab", Style::new());
    let b = a.clone();
    assert_eq!(a, b);
    let mut c = a.clone();
    c.set_string(2, 0, "c", Style::new());
    assert_ne!(a, c);
    assert_ne!(Buffer::empty(Rect::new(0, 0, 3, 1)), Buffer::empty(Rect::new(0, 0, 1, 3)));
    assert_eq!(Buffer::default().content.len(), 0);
}

#[test]
fn replacing_a_wide_glyph_with_another_reports_its_column_only() {
    let mut prev = Buffer::empty(Rect::new(0, 0, 3, 1));
    prev.set_string(0, 0, "日", Style::new());
    let mut next = Buffer::empty(Rect::new(0, 0, 3, 1));
    next.set_string(0, 0, "本", Style::new());
    let cols: Vec<u16> = prev.diff(&next).iter().map(|u| u.0).collect();
    assert_eq!(cols, vec![0]);
}

#[test]
fn diff_of_a_buffer_with_a_three_column_glyph_against_itself_is_empty() {
    let mut b = Buffer::empty(Rect::new(0, 0, 3, 1));
    let mut wide = Cell::empty();
    wide.set_symbol("abc");
    b.content[0] = wide;
    assert!(b.diff(&b).is_empty());
}

#[test]
fn text_of_several_rows() {
    let mut b = Buffer::empty(Rect::new(0, 0, 2, 3));
    b.set_string(0, 0, "ab", Style::new());
    b.set_string(1, 2, "z", Style::new());
    assert_eq!(b.to_text(), "ab\n  \n z");
}
