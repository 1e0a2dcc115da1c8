use tdrop::backend::{draw_commands, Backend, ClearType, Command};
use tdrop::buffer::Cell;
use tdrop::layout::{Position, Rect, Size};
use tdrop::terminal::{clear_plan, inline_viewport, Options, Terminal, Viewport};
use tdrop::text::Span;

#[derive(Default)]
struct Recorder {
    size: Size,
    cursor: Position,
    drawn: Vec<Vec<Command>>,
    appended: Vec<u16>,
    clears: usize,
    hidden: bool,
}

impl Backend for Recorder {
    type Error = String;

    fn draw(&mut self, content: &Vec<(u16, u16, &Cell)>) -> Result<(), String> {
        self.drawn.push(draw_commands(content));
        Ok(())
    }

    fn append_lines(&mut self, n: u16) -> Result<(), String> {
        self.appended.push(n);
        Ok(())
    }

    fn hide_cursor(&mut self) -> Result<(), String> {
        self.hidden = true;
        Ok(())
    }

    fn show_cursor(&mut self) -> Result<(), String> {
        self.hidden = false;
        Ok(())
    }

    fn get_cursor_position(&mut self) -> Result<Position, String> {
        Ok(self.cursor)
    }

    fn set_cursor_position(&mut self, position: Position) -> Result<(), String> {
        self.cursor = position;
        Ok(())
    }

    fn clear_region(&mut self, _clear_type: ClearType) -> Result<(), String> {
        self.clears += 1;
        Ok(())
    }

    fn clear(&mut self) -> Result<(), String> {
        self.clear_region(ClearType::All)
    }

    fn size(&self) -> Result<Size, String> {
        Ok(self.size)
    }

    fn flush(&mut self) -> Result<(), String> {
        Ok(())
    }
}

#[test]
fn inline_viewport_below_cursor_with_room() {
    let (lines, area) = inline_viewport(3, Size { width: 80, height: 24 }, 0, 20);
    assert_eq!(lines, 2);
    assert_eq!(area, Rect::new(0, 20, 80, 3));
}

#[test]
fn inline_viewport_scrolls_when_room_is_missing() {
    // 5 rows wanted on row 22 of 24: 4 lines after the cursor, 1 available, 3 missing
    let (lines, area) = inline_viewport(5, Size { width: 80, height: 24 }, 0, 22);
    assert_eq!(lines, 4);
    assert_eq!(area, Rect::new(0, 19, 80, 5));
    // an offset in the previous viewport moves the top up
    let (lines, area) = inline_viewport(5, Size { width: 80, height: 24 }, 2, 10);
    assert_eq!(lines, 2);
    assert_eq!(area, Rect::new(0, 8, 80, 5));
    // never taller than the terminal
    let (_, area) = inline_viewport(50, Size { width: 10, height: 4 }, 0, 0);
    assert_eq!(area.height, 4);
}

#[test]
fn inline_terminal_appends_room_below_cursor() {
    let backend = Recorder { size: Size { width: 10, height: 24 }, cursor: Position { x: 0, y: 20 }, ..Default::default() };
    let t = Terminal::with_options(backend, Options { respect_exit: true, viewport: Viewport::Inline(3) }).unwrap();
    assert_eq!(t.backend().appended, vec![2]);
}

#[test]
fn draw_emits_only_what_changed() {
    let backend = Recorder { size: Size { width: 10, height: 5 }, ..Default::default() };
    let options = Options { respect_exit: true, viewport: Viewport::Fixed(Rect::new(0, 0, 5, 1)) };
    let mut t = Terminal::with_options(backend, options).unwrap();
    t.draw(|f| f.render_component(Span::raw("ab"), Rect::new(0, 0, 5, 1))).unwrap();
    t.draw(|f| f.render_component(Span::raw("ac"), Rect::new(0, 0, 5, 1))).unwrap();
    let drawn = &t.backend().drawn;
    assert_eq!(drawn.len(), 2);
    assert_eq!(
        drawn[0],
        vec![Command::MoveTo(0, 0), Command::Print("a".to_string()), Command::Print("b".to_string())]
    );
    assert_eq!(drawn[1], vec![Command::MoveTo(1, 0), Command::Print("c".to_string())]);
    assert!(t.backend().hidden);
}

#[test]
fn draw_shows_cursor_when_asked() {
    let backend = Recorder { size: Size { width: 10, height: 5 }, hidden: true, ..Default::default() };
    let options = Options { respect_exit: true, viewport: Viewport::Fixed(Rect::new(0, 0, 5, 1)) };
    let mut t = Terminal::with_options(backend, options).unwrap();
    let done = t.draw(|f| f.set_cursor_position(Position { x: 2, y: 0 })).unwrap();
    assert_eq!(done.area, Rect::new(0, 0, 5, 1));
    assert!(!t.backend().hidden);
    assert_eq!(t.backend().cursor, Position { x: 2, y: 0 });
}

#[test]
fn failing_render_callback_is_returned() {
    let backend = Recorder { size: Size { width: 10, height: 5 }, ..Default::default() };
    let options = Options { respect_exit: true, viewport: Viewport::Fixed(Rect::new(0, 0, 5, 1)) };
    let mut t = Terminal::with_options(backend, options).unwrap();
    let r = t.try_draw(|_f| Err("no".to_string()));
    assert_eq!(r.err(), Some("no".to_string()));
    assert!(t.backend().drawn.is_empty());
}

#[test]
fn resize_of_fixed_viewport_clears_rows() {
    let backend = Recorder { size: Size { width: 10, height: 5 }, ..Default::default() };
    let options = Options { respect_exit: true, viewport: Viewport::Fixed(Rect::new(0, 0, 5, 1)) };
    let mut t = Terminal::with_options(backend, options).unwrap();
    t.resize(Rect::new(0, 0, 4, 3)).unwrap();
    assert_eq!(t.backend().clears, 3);
    assert_eq!(t.current_buffer_mut().area, Rect::new(0, 0, 4, 3));
    assert_eq!(t.size().unwrap(), Size { width: 10, height: 5 });
}

#[test]
fn inline_resize_places_viewport_below_cursor() {
    let backend = Recorder { size: Size { width: 80, height: 24 }, cursor: Position { x: 0, y: 20 }, ..Default::default() };
    let mut t = Terminal::with_options(backend, Options { respect_exit: true, viewport: Viewport::Inline(3) }).unwrap();
    t.backend_mut().appended.clear();
    t.backend_mut().cursor = Position { x: 0, y: 20 };
    t.resize(Rect::new(0, 0, 80, 24)).unwrap();
    assert_eq!(t.backend().appended, vec![2]);
    assert_eq!(t.current_buffer_mut().area, Rect::new(0, 20, 80, 3));
}

#[test]
fn fixed_terminal_needs_no_backend_call() {
    let backend = Recorder::default();
    let t = Terminal::with_options(backend, Options { respect_exit: false, viewport: Viewport::Fixed(Rect::new(2, 3, 4, 5)) }).unwrap();
    assert!(t.backend().appended.is_empty());
    assert_eq!(t.backend().clears, 0);
}

#[test]
fn clear_plans_one_clear_per_fixed_row() {
    let r = Rect::new(3, 5, 4, 2);
    assert_eq!(
        clear_plan(Viewport::Fixed(r), r),
        vec![(Position { x: 0, y: 5 }, ClearType::AfterCursor), (Position { x: 0, y: 6 }, ClearType::AfterCursor)]
    );
    assert_eq!(clear_plan(Viewport::Inline(2), r), vec![(Position { x: 3, y: 5 }, ClearType::AfterCursor)]);
}

#[test]
fn fixed_viewport_is_taken_as_given() {
    let r = Rect::new(65530, 7, 6, 2);
    let mut t = Terminal::with_options(Recorder::default(), Options { respect_exit: true, viewport: Viewport::Fixed(r) }).unwrap();
    assert_eq!(t.current_buffer_mut().area, r);
}

#[test]
fn failing_render_keeps_the_previous_frame() {
    let backend = Recorder { size: Size { width: 10, height: 5 }, ..Default::default() };
    let options = Options { respect_exit: true, viewport: Viewport::Fixed(Rect::new(0, 0, 3, 1)) };
    let mut t = Terminal::with_options(backend, options).unwrap();
    t.draw(|f| f.render_component(Span::raw("ab"), Rect::new(0, 0, 3, 1))).unwrap();
    let _ = t.try_draw(|f| {
        f.render_component(Span::raw("zz"), Rect::new(0, 0, 3, 1));
        Err("no".to_string())
    });
    t.draw(|f| f.render_component(Span::raw("ab"), Rect::new(0, 0, 3, 1))).unwrap();
    // the previous frame is still "ab", so nothing changed
    assert_eq!(t.backend().drawn.len(), 2);
    assert!(t.backend().drawn[1].is_empty());
}
