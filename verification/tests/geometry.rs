use zwm::math::{Rect, Vector2};

#[test]
fn vector_new_keeps_components() {
    let v = Vector2::new(3, -7);
    assert_eq!(v.x, 3);
    assert_eq!(v.y, -7);
}

#[test]
fn vector_default_is_zero() {
    let v = Vector2::default();
    assert_eq!((v.x, v.y), (0, 0));
}

#[test]
fn rect_size_is_extent() {
    let r = Rect { left: 0, right: 1920, top: 0, bottom: 1080 };
    let s = r.size();
    assert_eq!((s.x, s.y), (1920, 1080));
}

#[test]
fn rect_size_of_offset_rect() {
    let r = Rect { left: -100, right: 300, top: 50, bottom: 20 };
    let s = r.size();
    assert_eq!((s.x, s.y), (400, -30));
}

#[test]
fn rect_default_is_empty() {
    let r = Rect::default();
    assert_eq!((r.left, r.right, r.top, r.bottom), (0, 0, 0, 0));
    let s = r.size();
    assert_eq!((s.x, s.y), (0, 0));
}
