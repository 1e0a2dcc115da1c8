use tdrop::style::{AdaptiveColor, Attribute, Attributes, Color, Style};

#[test]
fn intersection() {
    let first: Attributes = 0b00000000000000000000000010110001.into();
    let second: Attributes = 0b00000000000000000000000010010001.into();

    assert_eq!(
        first.intersection(second).0,
        0b00000000000000000000000010010001
    )
}

#[test]
fn attribute_bits_follow_sgr_codes() {
    assert_eq!(Attribute::Bold.sgr_code(), 1);
    assert_eq!(Attribute::Strikethrough.sgr_code(), 9);
    assert_eq!(Attribute::NormalIntensity.sgr_code(), 22);
    assert_eq!(Attribute::NoStrikethrough.sgr_code(), 29);
    assert_eq!(Attribute::Reset.bytes(), 0b10);
    assert_eq!(Attribute::Bold.bytes(), 0b100);
    assert_eq!(Attribute::iterator().len(), 18);
}

#[test]
fn set_unset_toggle() {
    let mut a = Attributes::none();
    assert!(a.is_empty());
    a.set(Attribute::Bold);
    assert!(a.has(Attribute::Bold));
    assert!(!a.has(Attribute::Dim));
    a.toggle(Attribute::Dim);
    assert!(a.has(Attribute::Dim));
    a.unset(Attribute::Bold);
    assert!(!a.has(Attribute::Bold));
    a.toggle(Attribute::Dim);
    assert!(a.is_empty());
    let b = Attributes::none().with(Attribute::Italic).with(Attribute::Reverse);
    assert!(b.has(Attribute::Italic) && b.has(Attribute::Reverse));
    assert!(!b.without(Attribute::Italic).has(Attribute::Italic));
}

#[test]
fn difference_and_patch() {
    let a = Attributes::none().with(Attribute::Bold).with(Attribute::Italic);
    let b = Attributes::none().with(Attribute::Italic).with(Attribute::Dim);
    let d = a - b;
    assert!(d.has(Attribute::Bold) && !d.has(Attribute::Italic) && !d.has(Attribute::Dim));
    assert_eq!(a.difference(b), d);
    let p = a.patch(b);
    assert!(p.has(Attribute::Bold) && p.has(Attribute::Italic) && p.has(Attribute::Dim));
    let mut e = a;
    e.extend(b);
    assert_eq!(e, p);
    let bits: u32 = p.into();
    assert_eq!(bits, p.bits());
}

#[test]
fn style_patch_prefers_own_colors_and_unions_attributes() {
    let base = Style::new().fg(Color::Red).attribute(Attribute::Bold);
    let other = Style::new()
        .fg(Color::Blue)
        .bg(Color::Green)
        .underline(Color::White)
        .attribute(Attribute::Italic);
    let p = base.patch(other);
    assert_eq!(p.fg, Some(Color::Red));
    assert_eq!(p.bg, Some(Color::Green));
    assert_eq!(p.underline, Some(Color::White));
    assert!(p.attributes.has(Attribute::Bold) && p.attributes.has(Attribute::Italic));
    assert_eq!(base.patch(Style::new()), base);
    assert_eq!(Style::default(), Style::new());
    let set = Style::new().attributes(Attributes::none().with(Attribute::Dim));
    assert!(set.attributes.has(Attribute::Dim));
}

#[test]
fn adaptive_color_picks_by_background() {
    let c = AdaptiveColor::new(Color::Black, Color::White);
    assert_eq!(c.get(true), Color::Black);
    assert_eq!(c.get(false), Color::White);
    assert_eq!(c.as_fg(false).fg, Some(Color::White));
    assert_eq!(c.as_bg(true).bg, Some(Color::Black));
    assert_eq!(c.as_underline(true).underline, Some(Color::Black));
    let mut d = c.dark(Color::Red).light(Color::Blue);
    assert_eq!(d, AdaptiveColor::new(Color::Blue, Color::Red));
    d.set_dark(Color::Cyan);
    d.set_light(Color::Gray);
    assert_eq!(d, AdaptiveColor::new(Color::Gray, Color::Cyan));
    let e: AdaptiveColor = Color::Yellow.into();
    assert_eq!(e, AdaptiveColor::new(Color::Yellow, Color::Yellow));
    assert_eq!(AdaptiveColor::empty(), AdaptiveColor::default());
}

#[test]
fn styled_string_keeps_style_and_content() {
    let s = Style::new().fg(Color::Red).apply("hi");
    assert_eq!(*s.content(), "hi");
    assert_eq!(s.style().fg, Some(Color::Red));
    let t = tdrop::style::style(5u8);
    assert_eq!(*t.content(), 5u8);
    assert_eq!(*t.style(), Style::new());
}
