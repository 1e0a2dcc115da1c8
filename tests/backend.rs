use tdrop::backend::{draw_commands, AttributeDiff, Command};
use tdrop::buffer::{Buffer, Cell};
use tdrop::layout::Rect;
use tdrop::style::{Attribute, Attributes, Color, Style};

fn attrs(list: &[Attribute]) -> Attributes {
    let mut a = Attributes::none();
    for x in list {
        a.set(*x);
    }
    a
}

#[test]
fn bold_to_dim_resets_intensity_then_sets_dim() {
    let d = AttributeDiff { from: attrs(&[Attribute::Bold]), to: attrs(&[Attribute::Dim]) };
    assert_eq!(d.attributes(), vec![Attribute::NormalIntensity, Attribute::Dim]);
}

#[test]
fn losing_dim_keeps_bold() {
    let d = AttributeDiff {
        from: attrs(&[Attribute::Bold, Attribute::Dim]),
        to: attrs(&[Attribute::Bold]),
    };
    assert_eq!(d.attributes(), vec![Attribute::NormalIntensity, Attribute::Bold]);
}

#[test]
fn removed_and_added_attributes() {
    let d = AttributeDiff {
        from: attrs(&[Attribute::Reverse, Attribute::Italic, Attribute::SlowBlink]),
        to: attrs(&[Attribute::Underlined, Attribute::Strikethrough, Attribute::RapidBlink]),
    };
    assert_eq!(
        d.attributes(),
        vec![
            Attribute::NoReverse,
            Attribute::NoItalic,
            Attribute::NoBlink,
            Attribute::Strikethrough,
            Attribute::RapidBlink,
        ]
    );
    let e = AttributeDiff { from: attrs(&[Attribute::Underlined]), to: Attributes::none() };
    assert_eq!(e.attributes(), vec![Attribute::NoUnderline]);
    let f = AttributeDiff { from: Attributes::none(), to: attrs(&[Attribute::Bold, Attribute::Reverse]) };
    assert_eq!(f.attributes(), vec![Attribute::Reverse, Attribute::Bold]);
}

#[test]
fn adjacent_cells_share_one_move() {
    let prev = Buffer::empty(Rect::new(0, 0, 5, 2));
    let mut next = Buffer::empty(Rect::new(0, 0, 5, 2));
    next.set_string(1, 0, "ab", Style::new());
    next.set_string(0, 1, "c", Style::new().fg(Color::Red).attribute(Attribute::Bold));
    let updates = prev.diff(&next);
    let cmds = draw_commands(&updates);
    assert_eq!(
        cmds,
        vec![
            Command::MoveTo(1, 0),
            Command::Print("a".to_string()),
            Command::Print("b".to_string()),
            Command::MoveTo(0, 1),
            Command::SetAttribute(Attribute::Bold),
            Command::SetColors(Color::Red, Color::Reset),
            Command::Print("c".to_string()),
        ]
    );
}

#[test]
fn colors_are_not_repeated() {
    let cell = Cell::new(Some("x".to_string()), Color::Blue, Color::Reset, Attributes::none());
    let updates = vec![(0u16, 0u16, &cell), (5u16, 0u16, &cell)];
    let cmds = draw_commands(&updates);
    assert_eq!(
        cmds,
        vec![
            Command::MoveTo(0, 0),
            Command::SetColors(Color::Blue, Color::Reset),
            Command::Print("x".to_string()),
            Command::MoveTo(5, 0),
            Command::Print("x".to_string()),
        ]
    );
}
