use space_defender::geometry::segment_hits_rect;
use space_defender::{Heading, Point, Rect};

#[test]
fn offset_moves_and_saturates() {
    let p = Point::new(10, -5).offset(3, 4);
    assert_eq!((p.x(), p.y()), (13, -1));
    let q = Point::new(i32::MAX - 1, i32::MIN + 1).offset(5, -5);
    assert_eq!((q.x(), q.y()), (i32::MAX, i32::MIN));
}

#[test]
fn from_center_puts_corner_half_a_size_up_left() {
    let r = Rect::from_center(Point::new(100, 50), 48, 48);
    assert_eq!(r, Rect::new(76, 26, 48, 48));
}

#[test]
fn fast_segment_tunnelling_through_thin_rect_hits() {
    // both ends lie outside, on either side of a rectangle two pixels wide
    let thin = Rect::new(50, 0, 2, 10);
    assert!(segment_hits_rect(Point::new(0, 5), Point::new(100, 5), thin));
    assert!(segment_hits_rect(Point::new(100, 5), Point::new(0, 5), thin));
}

#[test]
fn segment_short_of_rect_misses() {
    let r = Rect::new(50, 0, 2, 10);
    assert!(!segment_hits_rect(Point::new(0, 5), Point::new(49, 5), r));
    assert!(segment_hits_rect(Point::new(0, 5), Point::new(50, 5), r));
    assert!(!segment_hits_rect(Point::new(52, 5), Point::new(90, 5), r));
}

#[test]
fn segment_inside_rect_hits() {
    let r = Rect::new(0, 0, 10, 10);
    assert!(segment_hits_rect(Point::new(2, 2), Point::new(3, 3), r));
    assert!(segment_hits_rect(Point::new(4, 4), Point::new(4, 4), r));
}

#[test]
fn diagonal_segment_passing_a_corner() {
    // the rectangle covers x in 6..=9, y in 0..=2; the diagonal y = x misses it
    let r = Rect::new(6, 0, 4, 3);
    assert!(!segment_hits_rect(Point::new(0, 0), Point::new(10, 10), r));
    // a segment through its corner (6, 2) touches it
    assert!(segment_hits_rect(Point::new(4, 0), Point::new(8, 4), r));
    // one a pixel further out does not
    assert!(!segment_hits_rect(Point::new(3, 0), Point::new(7, 4), r));
}

#[test]
fn perpendicular_segment_through_rect() {
    let r = Rect::new(-24, -24, 48, 48);
    assert!(segment_hits_rect(Point::new(0, -100), Point::new(0, 100), r));
    assert!(!segment_hits_rect(Point::new(30, -100), Point::new(30, 100), r));
}

#[test]
fn heading_rejects_zero_and_huge_vectors() {
    assert!(Heading::new(0, 0).is_none());
    assert!(Heading::new(1 << 33, 0).is_none());
    let h = Heading::new(-3, 4).unwrap();
    assert_eq!((h.x(), h.y()), (-3, 4));
}

#[test]
fn heading_between_points() {
    let h = Heading::between(Point::new(1, 2), Point::new(4, -2));
    assert_eq!((h.x(), h.y()), (3, -4));
    let same = Heading::between(Point::new(7, 7), Point::new(7, 7));
    assert_eq!((same.x(), same.y()), (1, 0));
}
