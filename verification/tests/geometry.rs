use gpui::{bounds, point, px, size, Bounds, Point, Size};

fn rect(x: i32, y: i32, w: i32, h: i32) -> Bounds {
    bounds(point(px(x), px(y)), size(px(w), px(h)))
}

#[test]
fn bounds_hold_their_left_and_top_edges_only() {
    let b = rect(10, 20, 30, 40);
    assert!(b.contains(&point(px(10), px(20))));
    assert!(b.contains(&point(px(39), px(59))));
    assert!(!b.contains(&point(px(40), px(59))));
    assert!(!b.contains(&point(px(39), px(60))));
    assert!(!b.contains(&point(px(9), px(20))));
}

#[test]
fn bounds_without_extent_are_empty() {
    assert!(Bounds::empty().is_empty());
    assert!(rect(5, 5, 0, 10).is_empty());
    assert!(rect(5, 5, 10, -1).is_empty());
    assert!(!rect(5, 5, 1, 1).is_empty());
    assert_eq!(Bounds::empty(), Bounds { origin: Point::zero(), size: Size::zero() });
}

#[test]
fn intersection_is_the_shared_part() {
    let a = rect(0, 0, 100, 100);
    let b = rect(50, 60, 100, 100);
    assert_eq!(a.intersect(&b), rect(50, 60, 50, 40));
    assert_eq!(b.intersect(&a), rect(50, 60, 50, 40));
    // A rectangle inside another is its own intersection with it.
    let inner = rect(10, 10, 5, 5);
    assert_eq!(a.intersect(&inner), inner);
}

#[test]
fn intersection_of_disjoint_bounds_is_empty() {
    let a = rect(0, 0, 10, 10);
    let b = rect(20, 0, 10, 10);
    assert!(a.intersect(&b).is_empty());
    // Bounds that only touch share no pixel.
    let c = rect(10, 0, 10, 10);
    assert!(a.intersect(&c).is_empty());
}

#[test]
fn intersection_does_not_overflow_at_the_limits() {
    let a = rect(i32::MIN, i32::MIN, i32::MAX, i32::MAX);
    let b = rect(i32::MAX - 1, i32::MAX - 1, i32::MAX, i32::MAX);
    assert!(a.intersect(&b).is_empty());
    let whole = rect(0, 0, i32::MAX, i32::MAX);
    assert_eq!(whole.intersect(&whole), whole);
}
