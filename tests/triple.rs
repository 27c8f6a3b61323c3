use colors::{Color3, Color4};

#[test]
fn color4_mul_squares_components() {
    let a: Color4<i64, i64> = Color4::new(1, 2, 3, 4);
    let b = a.mul(&a);
    assert_eq!((b.0, b.1, b.2, b.3), (1, 4, 9, 16));
}

#[test]
fn color3_add_and_mul() {
    let a: Color3<i64, ()> = Color3::new(1, -2, 3);
    let b: Color3<i64, ()> = Color3::new(4, 5, -6);
    let s = a.add(&b);
    assert_eq!((s.0, s.1, s.2), (5, 3, -3));
    let p = a.mul(&b);
    assert_eq!((p.0, p.1, p.2), (4, -10, -18));
}

#[test]
fn normalize_scales_brightest_to_full() {
    let c: Color3<u8, ()> = Color3::new(100, 50, 0);
    let n = c.normalize().unwrap();
    assert_eq!((n.0, n.1, n.2), (255, 127, 0));
}

#[test]
fn normalize_grey_becomes_white() {
    let c: Color3<u8, ()> = Color3::new(10, 10, 10);
    let n = c.normalize().unwrap();
    assert_eq!((n.0, n.1, n.2), (255, 255, 255));
}

#[test]
fn normalize_brightest_in_last_channel() {
    let c: Color3<u8, ()> = Color3::new(3, 7, 200);
    let n = c.normalize().unwrap();
    assert_eq!((n.0, n.1, n.2), (3, 8, 255));
}

#[test]
fn normalize_black_is_refused() {
    let c: Color3<u8, ()> = Color3::new(0, 0, 0);
    assert!(c.normalize().is_none());
}
