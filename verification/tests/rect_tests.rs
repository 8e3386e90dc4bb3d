use sdl_test::rect::{Point, Rect, MAX_INT_VALUE, MIN_INT_VALUE};

#[test]
fn new_keeps_plain_values() {
    let r = Rect::new(1, 2, 3, 4);
    assert_eq!((r.x(), r.y(), r.width(), r.height()), (1, 2, 3, 4));
    assert_eq!((r.right(), r.bottom()), (4, 6));
}

#[test]
fn new_makes_empty_sizes_one() {
    let r = Rect::new(0, 0, 0, 0);
    assert_eq!((r.width(), r.height()), (1, 1));
}

#[test]
fn new_clamps_positions_and_sizes() {
    let r = Rect::new(i32::MAX, i32::MIN, u32::MAX, 2_000_000_000);
    assert_eq!(r.x(), MAX_INT_VALUE);
    assert_eq!(r.y(), MIN_INT_VALUE);
    assert_eq!(r.width(), MAX_INT_VALUE as u32);
    assert_eq!(r.height(), MAX_INT_VALUE as u32);
}

#[test]
fn contains_point_includes_top_left_excludes_bottom_right() {
    let rect = Rect::new(1, 2, 3, 4);
    assert!(rect.contains_point((1, 2)));
    assert!(!rect.contains_point((0, 1)));
    assert!(rect.contains_point((3, 5)));
    assert!(!rect.contains_point((4, 6)));
    assert!(!rect.contains_point((4, 5)));
    assert!(!rect.contains_point((3, 6)));
}

#[test]
fn has_intersection_examples() {
    let rect = Rect::new(0, 0, 5, 5);
    assert!(rect.has_intersection(rect));
    assert!(rect.has_intersection(Rect::new(2, 2, 5, 5)));
    assert!(!rect.has_intersection(Rect::new(5, 0, 5, 5)));
    assert!(!rect.has_intersection(Rect::new(0, 5, 5, 5)));
    assert!(rect.has_intersection(Rect::new(-3, -3, 4, 4)));
    assert!(!rect.has_intersection(Rect::new(-3, -3, 3, 3)));
}

#[test]
fn has_intersection_is_symmetric_on_examples() {
    let a = Rect::new(10, 10, 20, 5);
    let b = Rect::new(25, 12, 10, 10);
    let c = Rect::new(30, 0, 1, 100);
    assert_eq!(a.has_intersection(b), b.has_intersection(a));
    assert_eq!(a.has_intersection(c), c.has_intersection(a));
    assert!(a.has_intersection(b));
    assert!(!a.has_intersection(c));
}

#[test]
fn has_intersection_iff_common_point_on_example() {
    let a = Rect::new(0, 0, 3, 3);
    let b = Rect::new(2, 2, 3, 3);
    assert!(a.has_intersection(b));
    assert!(a.contains_point((2, 2)) && b.contains_point((2, 2)));
}

#[test]
fn point_new_clamps() {
    let p = Point::new(i32::MIN, 7);
    assert_eq!((p.x(), p.y()), (MIN_INT_VALUE, 7));
    let q = Point::new(i32::MAX, -7);
    assert_eq!((q.x(), q.y()), (MAX_INT_VALUE, -7));
}
