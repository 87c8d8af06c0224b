use af::vecmath::{Rect, Vec2};

#[test]
fn vec2_new_and_splat() {
    let v = Vec2::new(3, -4);
    assert_eq!((v.x, v.y), (3, -4));
    let s = Vec2::s(7u32);
    assert_eq!((s.x, s.y), (7, 7));
}

#[test]
fn vec2_arithmetic_is_component_wise() {
    let a = Vec2::new(7, -7);
    let b = Vec2::new(2, 2);
    assert_eq!(a + b, Vec2::new(9, -5));
    assert_eq!(a - b, Vec2::new(5, -9));
    assert_eq!(a * b, Vec2::new(14, -14));
    assert_eq!(a / b, Vec2::new(3, -3));
}

#[test]
fn vec2_arithmetic_on_other_scalars() {
    let a = Vec2::new(10u64, 20u64);
    let b = Vec2::new(5u64, 4u64);
    assert_eq!(a + b, Vec2::new(15, 24));
    assert_eq!(a / b, Vec2::new(2, 5));
}

#[test]
fn rect_takes_both_extents_from_width() {
    let r = Rect::new(10, 20, 30, 40);
    assert_eq!((r.x1, r.y1, r.x2, r.y2), (10, 20, 40, 50));
    assert_eq!(r.pos(), Vec2::new(10, 20));
    assert_eq!(r.width(), 30);
    assert_eq!(r.height(), 30);
}
