//! Exact-arithmetic and transform behaviour.

use gis_test::gis_camera::{set_camera_transform, Offset, Scale, Transform2D};
use gis_test::rat::{Rat, RAT_BOUND};

#[test]
fn rat_add_exact() {
    let a = Rat::new(1, 3);
    let b = Rat::new(1, 6);
    let r = a.add(b).unwrap();
    // 1/3 + 1/6 = 1/2, stored unreduced as 9/18
    assert_eq!(r.num, 9);
    assert_eq!(r.den, 18);
    assert!(r.eq_value(Rat::new(1, 2)));
}

#[test]
fn rat_sub_mul_div_neg() {
    let a = Rat::new(7, 2);
    let b = Rat::new(3, 2);
    assert!(a.sub(b).unwrap().eq_value(Rat::new(2, 1)));
    assert!(a.mul(b).unwrap().eq_value(Rat::new(21, 4)));
    assert!(a.div(b).unwrap().eq_value(Rat::new(7, 3)));
    assert!(a.neg().eq_value(Rat::new(-7, 2)));
    // division by a negative keeps the denominator positive
    let c = a.div(Rat::new(-1, 2)).unwrap();
    assert!(c.den >= 1);
    assert!(c.eq_value(Rat::new(-7, 1)));
}

#[test]
fn rat_ordering() {
    assert!(Rat::new(1, 3).le(Rat::new(1, 2)));
    assert!(!Rat::new(1, 2).le(Rat::new(1, 3)));
    assert!(Rat::new(-5, 1).le(Rat::new(0, 1)));
}

#[test]
fn rat_overflow_is_rejected() {
    let big = Rat::new(RAT_BOUND - 1, 1);
    assert!(big.add(big).is_none());
    let half_pow = Rat::new(1 << 31, 1);
    assert!(half_pow.mul(half_pow).is_none());
}

#[test]
fn pan_adds_scaled_delta() {
    let mut t = Transform2D::identity();
    t.pan(Rat::new(10, 1), Rat::new(4, 1));
    assert!(t.offset.x.eq_value(Rat::new(10, 1)));
    assert!(t.offset.y.eq_value(Rat::new(4, 1)));
    // pan at a doubled scale moves twice as far per pixel
    let mut t2 = Transform2D {
        offset: Offset::origin(),
        scale: Scale(Rat::new(2, 1)),
    };
    t2.pan(Rat::new(10, 1), Rat::new(0, 1));
    assert!(t2.offset.x.eq_value(Rat::new(20, 1)));
    assert!(t2.offset.y.eq_value(Rat::new(0, 1)));
}

#[test]
fn zoom_divides_scale() {
    let mut t = Transform2D::identity();
    t.zoom(Rat::new(2, 1));
    assert!(t.scale.0.eq_value(Rat::new(1, 2)));
    t.zoom(Rat::new(1, 2));
    assert!(t.scale.0.eq_value(Rat::new(1, 1)));
}

#[test]
fn zoom_then_inverse_restores_scale() {
    let mut s = Scale(Rat::new(7, 3));
    s.zoom(Rat::new(4, 5));
    assert_eq!((s.0.num, s.0.den), (35, 12));
    s.zoom(Rat::new(5, 4));
    assert!(s.0.eq_value(Rat::new(7, 3)));
}

#[test]
fn zoom_rejects_non_positive_factor() {
    let mut t = Transform2D::identity();
    t.zoom(Rat::new(0, 1));
    assert_eq!(t, Transform2D::identity());
    t.zoom(Rat::new(-3, 1));
    assert_eq!(t, Transform2D::identity());
}

#[test]
fn repeated_zoom_saturates_at_last_valid_scale() {
    // dividing by 3 a hundred times would underflow any representation;
    // the scale must stop at the last representable value and stay
    // positive, never becoming zero or negative.
    let mut t = Transform2D::identity();
    for _ in 0..100 {
        t.zoom(Rat::new(3, 1));
        assert!(t.scale.0.num >= 1);
        assert!(t.scale.0.den >= 1);
    }
    let mut p39: i64 = 1;
    for _ in 0..39 {
        p39 *= 3;
    }
    assert_eq!((t.scale.0.num, t.scale.0.den), (1, p39));
}

#[test]
fn set_camera_transform_is_atomic() {
    let mut t = Transform2D::identity();
    let o = Offset { x: Rat::new(5, 2), y: Rat::new(-3, 1) };
    let s = Scale(Rat::new(9, 4));
    set_camera_transform(&mut t, o, s);
    assert_eq!(t.offset, o);
    assert_eq!(t.scale, s);
}

#[test]
fn offset_pan_axes_are_independent() {
    let mut o = Offset::origin();
    o.pan_x(Rat::new(3, 1), Scale(Rat::new(1, 1)));
    o.pan_y(Rat::new(-2, 1), Scale(Rat::new(1, 1)));
    assert!(o.x.eq_value(Rat::new(3, 1)));
    assert!(o.y.eq_value(Rat::new(-2, 1)));
}
