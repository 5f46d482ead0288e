use sprite_engine::{Point, PointF, Rect};

#[test]
fn rect_new_keeps_the_four_edges() {
    let r = Rect::new(1, 2, 3, 4);
    assert_eq!(r.left, 1);
    assert_eq!(r.top, 2);
    assert_eq!(r.right, 3);
    assert_eq!(r.bottom, 4);
}

#[test]
fn rect_zero_is_all_zero() {
    assert_eq!(Rect::zero(), Rect::new(0, 0, 0, 0));
}

#[test]
fn rect_new_enforces_no_order() {
    let r = Rect::new(10, 10, -10, -10);
    assert_eq!(r, Rect { left: 10, top: 10, right: -10, bottom: -10 });
}

#[test]
fn inflate_grows_symmetrically() {
    let mut r = Rect::new(10, 20, 30, 40);
    r.inflate(3, 5);
    assert_eq!(r, Rect::new(7, 15, 33, 45));
}

#[test]
fn inflate_by_negative_amounts_shrinks() {
    let mut r = Rect::new(10, 20, 30, 40);
    r.inflate(-3, -5);
    assert_eq!(r, Rect::new(13, 25, 27, 35));
}

#[test]
fn inflate_then_deflate_restores() {
    let mut r = Rect::new(-4, -4, 4, 4);
    r.inflate(9, 2);
    r.inflate(-9, -2);
    assert_eq!(r, Rect::new(-4, -4, 4, 4));
}

#[test]
fn offset_shifts_without_resizing() {
    let mut r = Rect::new(10, 20, 30, 40);
    r.offset(-15, 7);
    assert_eq!(r, Rect::new(-5, 27, 15, 47));
    assert_eq!(r.right - r.left, 20);
    assert_eq!(r.bottom - r.top, 20);
}

#[test]
fn contain_is_inclusive_on_all_edges() {
    let r = Rect::new(10, 20, 30, 40);
    assert!(r.contain(10, 20));
    assert!(r.contain(30, 40));
    assert!(r.contain(10, 40));
    assert!(r.contain(30, 20));
    assert!(r.contain(20, 30));
    assert!(!r.contain(9, 30));
    assert!(!r.contain(31, 30));
    assert!(!r.contain(20, 19));
    assert!(!r.contain(20, 41));
}

#[test]
fn rect_within_compares_every_edge() {
    let r = Rect::new(-5, 0, 5, 7);
    assert!(r.within(7));
    assert!(!r.within(6));
    assert!(!Rect::new(-8, 0, 5, 7).within(7));
}

#[test]
fn pointf_new_and_zero() {
    let p = PointF::new(-3, 9);
    assert_eq!(p.x, -3);
    assert_eq!(p.y, 9);
    assert_eq!(PointF::zero(), PointF { x: 0, y: 0 });
}

#[test]
fn pointf_within_compares_both_components() {
    assert!(PointF::new(-3, 9).within(9));
    assert!(!PointF::new(-3, 9).within(8));
    assert!(!PointF::new(-10, 9).within(9));
}

#[test]
fn point_new_is_the_origin() {
    let p = Point::new();
    assert_eq!(p, Point { x: 0, y: 0 });
}

#[test]
fn nothing_is_within_a_negative_limit() {
    assert!(!Rect::zero().within(-1));
    assert!(!PointF::zero().within(-1));
    assert!(!PointF::zero().within(i64::MIN));
    assert!(Rect::zero().within(0));
    assert!(PointF::zero().within(0));
}
