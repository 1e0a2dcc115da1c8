use tdrop::layout::{Position, Rect, Size, Width};

#[test]
fn test_contains() {
    let parent = Width::new(20, 30);
    let child = Width::new(25, 4);

    assert!(parent.contains(&child))
}

#[test]
fn test_intersects() {
    assert!(Width::new(5, 25).intersects(&Width::new(6, 39)))
}

#[test]
fn test_intersection() {
    let parent = Width::new(0, 50);
    let child = Width::new(5, 100);
    let expected = Width::new(5, 45);

    assert_eq!(parent.intersection(&child), expected)
}

#[test]
fn intersection_of_disjoint_widths_is_zero() {
    let a = Width::new(10, 5);
    let b = Width::new(20, 5);
    assert!(!a.intersects(&b));
    assert_eq!(a.intersection(&b), Width::zero());
    // a child that starts before its parent does not intersect it
    assert_eq!(b.intersection(&a), Width::zero());
}

#[test]
fn intersection_is_not_wider_than_either() {
    let a = Width::new(10, 20);
    let b = Width::new(25, 40);
    let i = a.intersection(&b);
    assert_eq!(i, Width::new(25, 5));
    assert!(i.width <= a.width && i.width <= b.width);
}

#[test]
fn width_right_saturates() {
    assert_eq!(Width::new(65530, 10).right(), 65535);
    assert_eq!(Width::new(3, 4).right(), 7);
    assert_eq!(Width::new(3, 4).left(), 3);
    assert_eq!(Width::new(3, 4).indent_x(2), Width::new(5, 2));
    assert_eq!(Width::new(3, 4).indent_x(9), Width::new(12, 0));
}

#[test]
fn width_builders() {
    assert_eq!(Width::new(1, 2).width(7), Width::new(1, 7));
    assert_eq!(Width::new(1, 2).offset(7), Width::new(7, 2));
}

#[test]
fn rect_edges_and_area() {
    let r = Rect::new(2, 3, 10, 4);
    assert_eq!(r.area(), 40);
    assert_eq!(r.right(), 12);
    assert_eq!(r.bottom(), 7);
    assert_eq!(r.left(), 2);
    assert_eq!(r.top(), 3);
    assert_eq!(Rect::new(65535, 0, 10, 1).right(), 65535);
    assert_eq!(r.as_size(), Size { width: 10, height: 4 });
    assert_eq!(r.as_position(), Position { x: 2, y: 3 });
}

#[test]
fn rect_intersection_and_contains() {
    let a = Rect::new(0, 0, 10, 10);
    let b = Rect::new(5, 5, 10, 10);
    assert_eq!(a.intersection(b), Rect::new(5, 5, 5, 5));
    assert!(a.intersects(b));
    let c = Rect::new(20, 20, 2, 2);
    assert!(!a.intersects(c));
    assert_eq!(a.intersection(c).width, 0);
    assert!(a.contains(Position { x: 3, y: 4 }));
    assert!(!a.contains(Position { x: 11, y: 4 }));
}

#[test]
fn rect_from_size_and_position_from_tuple() {
    let r: Rect = Size { width: 3, height: 2 }.into();
    assert_eq!(r, Rect::new(0, 0, 3, 2));
    let p: Position = (4, 5).into();
    assert_eq!(p, Position::new(4, 5));
    assert_eq!(p.to_tuple(), (4, 5));
}

#[test]
fn rect_contains_excludes_far_edges() {
    let r = Rect::new(0, 0, 1, 1);
    assert!(r.contains(Position { x: 0, y: 0 }));
    assert!(!r.contains(Position { x: 1, y: 1 }));
    assert!(!r.contains(Position { x: 1, y: 0 }));
    assert!(!r.contains(Position { x: 0, y: 1 }));
}
