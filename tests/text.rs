use tdrop::buffer::Buffer;
use tdrop::component::{Component, StatefulComponent};
use tdrop::layout::{Alignment, Position, Rect};
use tdrop::style::{AdaptiveStyle, Attribute, Color, Style};
use tdrop::text::{align_offsets, spans_after_width, split_lines, Line, Span, Text, ToSpan};
use tdrop::theme::{Theme, ThemeStyle, ThemeStyles};
use tdrop::widgets::confirmation::{Confirmation, ConfirmationState};

fn render(line: &Line, width: u16) -> Buffer {
    let mut b = Buffer::empty(Rect::new(0, 0, width, 1));
    line.render_with_alignment(Rect::new(0, 0, width, 1), &mut b, None);
    b
}

#[test]
fn centered_line_is_indented_by_half_the_room() {
    let line = Line::default().spans(vec![Span::raw("Hello"), Span::raw("world!")]).centered();
    assert_eq!(line.width(), 11);
    assert_eq!(align_offsets(Some(Alignment::Center), 11, 21), (5, 0));
    let b = render(&line, 21);
    assert_eq!(b.to_text(), "     Helloworld!     ");
    assert_eq!(b.get(Position { x: 5, y: 0 }).symbol(), "H");
}

#[test]
fn right_aligned_line() {
    let line = Line::raw("abc").right_aligned();
    assert_eq!(render(&line, 6).to_text(), "   abc");
}

#[test]
fn left_aligned_line_matches_its_spans_rendered_one_by_one() {
    let a = Span::styled("ab", Style::new().fg(Color::Red));
    let c = Span::styled("cde", Style::new().fg(Color::Blue));
    let line = Line::default().spans(vec![a.clone(), c.clone()]).left_aligned();
    let whole = render(&line, 8);
    let mut parts = Buffer::empty(Rect::new(0, 0, 8, 1));
    a.render(Rect::new(0, 0, 8, 1), &mut parts);
    c.render(Rect::new(2, 0, 6, 1), &mut parts);
    assert_eq!(whole.content, parts.content);
    assert_eq!(whole.to_text(), "abcde   ");
}

#[test]
fn overlong_centered_line_drops_leading_columns() {
    let line = Line::default().spans(vec![Span::raw("abcd"), Span::raw("efgh")]).centered();
    // 8 columns into 4: 2 dropped on the left, the rest cut at the right edge
    assert_eq!(align_offsets(Some(Alignment::Center), 8, 4), (0, 2));
    assert_eq!(render(&line, 4).to_text(), "cdef");
    let right = Line::default().spans(vec![Span::raw("abcd"), Span::raw("efgh")]).right_aligned();
    assert_eq!(render(&right, 4).to_text(), "efgh");
    let left = Line::default().spans(vec![Span::raw("abcd"), Span::raw("efgh")]);
    assert_eq!(render(&left, 4).to_text(), "abcd");
}

#[test]
fn spans_after_width_truncates_the_first_partial_span() {
    let spans = vec![Span::raw("abc"), Span::raw("de"), Span::raw("fg")];
    let out = spans_after_width(&spans, 4);
    assert_eq!(out.len(), 2);
    assert_eq!(out[0].0.content, "e");
    assert_eq!((out[0].1, out[0].2), (1, 0));
    assert_eq!(out[1].0.content, "fg");
    let wide = vec![Span::raw("日本")];
    let cut = spans_after_width(&wide, 1);
    assert_eq!(cut[0].0.content, "本");
    assert_eq!((cut[0].1, cut[0].2), (2, 1));
}

#[test]
fn zero_width_area_renders_nothing() {
    let line = Line::raw("abc");
    let mut b = Buffer::empty(Rect::new(0, 0, 3, 1));
    line.render_with_alignment(Rect::new(0, 0, 0, 1), &mut b, Some(Alignment::Center));
    assert_eq!(b.to_text(), "   ");
}

#[test]
fn span_width_and_graphemes() {
    assert_eq!(Span::raw("a日").width(), 3);
    let s = Span::styled("a\u{7}日", Style::new().fg(Color::Red));
    let gs = s.styled_graphemes(Style::new().bg(Color::Blue));
    let symbols: Vec<&str> = gs.iter().map(|g| g.symbol.as_str()).collect();
    assert_eq!(symbols, vec!["a", "日"]);
    assert_eq!(gs[0].style.fg, Some(Color::Red));
    assert_eq!(gs[0].style.bg, Some(Color::Blue));
}

#[test]
fn span_builders() {
    let s = Span::raw("x").content("yz").style(Style::new().fg(Color::Red));
    assert_eq!(s.content, "yz");
    assert_eq!(s.style.fg, Some(Color::Red));
    let p = s.patch_style(Style::new().fg(Color::Blue).bg(Color::Green));
    assert_eq!(p.style.fg, Some(Color::Red));
    assert_eq!(p.style.bg, Some(Color::Green));
    assert_eq!(p.reset_style().style, Style::new());
}

#[test]
fn line_raw_splits_lines() {
    let line = Line::raw("one\r\ntwo\nthree\n");
    let contents: Vec<&str> = line.spans.iter().map(|s| s.content.as_str()).collect();
    assert_eq!(contents, vec!["one", "two", "three"]);
    assert_eq!(split_lines(""), Vec::<String>::new());
    assert_eq!(split_lines("a\n\nb"), vec!["a".to_string(), String::new(), "b".to_string()]);
    let styled = Line::styled("q", Style::new().fg(Color::Red));
    assert_eq!(styled.style.fg, Some(Color::Red));
    let mut l = Line::default();
    l.push_span(Span::raw("z"));
    assert_eq!(l.spans.len(), 1);
    assert_eq!(l.patch_style(Style::new().bg(Color::Red)).style.bg, Some(Color::Red));
}

#[test]
fn text_raw_and_width() {
    let t = Text::raw("ab\nlonger");
    assert_eq!(t.height(), 2);
    assert_eq!(t.width(), 6);
    let e = Text::raw("");
    assert_eq!(e.height(), 1);
    assert_eq!(e.width(), 0);
    let s = Text::styled("x", Style::new().fg(Color::Red));
    assert_eq!(s.style.fg, Some(Color::Red));
    let mut b = Buffer::empty(Rect::new(0, 0, 6, 2));
    t.alignment(Alignment::Right).render(Rect::new(0, 0, 6, 2), &mut b);
    assert_eq!(b.to_text(), "    ab\nlonger");
}

#[test]
fn confirmation_prompt_and_answer() {
    let theme = Theme::default();
    let c = Confirmation::new("Go?").theme(theme);
    let state = ConfirmationState { selected: true, done: false };
    let line = c.get_line(&state);
    assert_eq!(line.spans.len(), 5);
    assert_eq!(line.spans[2].style.bg, Some(Color::Green));
    assert_eq!(line.spans[4].style.fg, Some(Color::Red));
    let mut b = Buffer::empty(Rect::new(0, 0, 16, 1));
    let mut st = state;
    assert!(Confirmation::new("Go?").render(Rect::new(0, 0, 16, 1), &mut b, &mut st));
    assert_eq!(b.to_text(), "Go? [Y]es/[N]o  ");
    let mut done = ConfirmationState { selected: false, done: true };
    let mut b2 = Buffer::empty(Rect::new(0, 0, 5, 1));
    assert!(!Confirmation::new("Go?").render(Rect::new(0, 0, 5, 1), &mut b2, &mut done));
    assert_eq!(b2.to_text(), "xGo? ");
    assert!(b2.get(Position { x: 0, y: 0 }).attributes.has(Attribute::Bold));
}

#[test]
fn theme_builders() {
    let t = Theme::empty().primary(Color::Red.into()).error(Color::Blue.into());
    assert_eq!(t.primary.get(false), Color::Red);
    assert_eq!(t.error.get(true), Color::Blue);
    assert_eq!(t.info.get(true), Color::Reset);
    let d = Theme::default();
    assert_eq!(d.primary.get(false), Color::Cyan);
    assert_eq!(d.default_color(Color::White.into()).default.get(false), Color::White);
}

#[test]
fn styled_graphemes_drop_zero_width_clusters() {
    let s = Span::raw("a\u{200B}b");
    let symbols: Vec<String> = s.styled_graphemes(Style::new()).into_iter().map(|g| g.symbol).collect();
    assert_eq!(symbols, vec!["a".to_string(), "b".to_string()]);
}

#[test]
fn span_whose_tail_joins_clusters_is_blanked_not_cut() {
    // Lam followed by Alef is one column wide, though each cluster is one column
    let spans = vec![Span::raw("abc\u{644}\u{627}")];
    let out = spans_after_width(&spans, 1);
    assert_eq!(out.len(), 1);
    assert_eq!(out[0].0.content, "");
    assert_eq!((out[0].1, out[0].2), (0, 3));
    let line = Line::default().spans(vec![Span::raw("abc\u{644}\u{627}")]).right_aligned();
    let mut b = Buffer::empty(Rect::new(0, 0, 3, 1));
    line.render_with_alignment(Rect::new(0, 0, 3, 1), &mut b, None);
    assert_eq!(b.to_text(), "   ");
}

#[test]
fn to_span_uses_display_text() {
    let s = 42.to_span();
    assert_eq!(s.content, "42");
    assert_eq!(s.style, Style::new());
}

#[test]
fn styled_string_len_counts_bytes() {
    let s = Style::new().apply("日本");
    assert_eq!(s.len(), 6);
    assert_eq!(Style::new().apply(123).len(), 3);
}

#[test]
fn theme_styles_by_role() {
    let red = AdaptiveStyle::new(Style::new().fg(Color::Red), Style::new().fg(Color::BrightRed));
    let t = ThemeStyles::new().style(ThemeStyle::Error, red);
    assert_eq!(t.error, red);
    assert_eq!(t.primary, AdaptiveStyle::default());
    assert_eq!(t.error.get(false).fg, Some(Color::BrightRed));
    let mut u = ThemeStyles::default();
    u.set_style(ThemeStyle::Output, red);
    u.set_primary(red);
    assert_eq!(u.output, red);
    assert_eq!(u.primary, red);
    assert_eq!(ThemeStyles::new().primary(red).primary, red);
    assert_eq!(ThemeStyle::default(), ThemeStyle::Output);
}

#[test]
fn line_style_composes_with_span_styles() {
    let line = Line::default()
        .spans(vec![Span::raw("a"), Span::styled("b", Style::new().fg(Color::Red))])
        .style(Style::new().fg(Color::Blue).attribute(Attribute::Bold));
    let b = render(&line, 3);
    let a = b.get(Position { x: 0, y: 0 });
    assert!(a.attributes.has(Attribute::Bold));
    assert_eq!(a.fg, Color::Blue);
    let c = b.get(Position { x: 1, y: 0 });
    assert!(c.attributes.has(Attribute::Bold));
    assert_eq!(c.fg, Color::Red);
}
