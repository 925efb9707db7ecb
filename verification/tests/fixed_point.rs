use tinyrenderer::fixed::{Fixed, SCALE};
use tinyrenderer::types::Vec3Df;

fn fx(v: f64) -> Fixed {
    Fixed::from_raw((v * SCALE as f64).floor() as i64)
}

fn to_f64(v: Fixed) -> f64 {
    v.raw as f64 / SCALE as f64
}

#[test]
fn whole_numbers_are_exact() {
    assert_eq!(Fixed::from_int(1).raw, SCALE);
    assert_eq!(Fixed::from_int(-3).raw, -3 * SCALE);
    assert_eq!(Fixed::from_int(7).floor_to_int(), 7);
    assert_eq!(Fixed::from_int(-7).floor_to_int(), -7);
}

#[test]
fn products_round_down() {
    assert_eq!(Fixed::from_int(3).mul(Fixed::from_int(4)), Fixed::from_int(12));
    assert_eq!(Fixed::from_raw(1).mul(Fixed::from_raw(1)).raw, 0);
    assert_eq!(Fixed::from_raw(-1).mul(Fixed::from_raw(1)).raw, -1);
    assert_eq!(Fixed::from_int(-3).mul(Fixed::from_int(4)), Fixed::from_int(-12));
}

#[test]
fn quotients_round_down() {
    assert_eq!(Fixed::from_int(1).div(Fixed::from_int(2)).raw, SCALE / 2);
    assert_eq!(Fixed::from_int(-1).div(Fixed::from_int(2)).raw, -SCALE / 2);
    assert_eq!(Fixed::from_int(1).div(Fixed::from_int(3)).raw, 1431655765);
    assert_eq!(Fixed::from_int(-1).div(Fixed::from_int(3)).raw, -1431655766);
    assert_eq!(Fixed::from_int(1).div(Fixed::from_int(-3)).raw, -1431655766);
}

#[test]
fn division_by_zero_saturates() {
    assert_eq!(Fixed::from_int(1).div(Fixed::from_int(0)).raw, i64::MAX);
    assert_eq!(Fixed::from_int(-1).div(Fixed::from_int(0)).raw, i64::MIN);
    assert_eq!(Fixed::from_int(0).div(Fixed::from_int(0)).raw, 0);
}

#[test]
fn sums_saturate() {
    assert_eq!(Fixed::from_raw(i64::MAX).add(Fixed::from_int(1)).raw, i64::MAX);
    assert_eq!(Fixed::from_raw(i64::MIN).sub(Fixed::from_int(1)).raw, i64::MIN);
    assert_eq!(Fixed::from_raw(i64::MIN).neg().raw, i64::MAX);
}

#[test]
fn square_roots() {
    assert_eq!(Fixed::from_int(4).sqrt(), Fixed::from_int(2));
    assert_eq!(Fixed::from_int(0).sqrt(), Fixed::from_int(0));
    assert_eq!(Fixed::from_int(-4).sqrt(), Fixed::from_int(0));
    let r = Fixed::from_int(2).sqrt();
    assert!((to_f64(r) - 2f64.sqrt()).abs() < 1e-9);
    assert_eq!(r.raw, 6074000999);
}

#[test]
fn powers() {
    assert_eq!(Fixed::from_int(2).powi(10), Fixed::from_int(1024));
    assert_eq!(Fixed::from_int(0).powi(0), Fixed::from_int(1));
    assert_eq!(fx(0.5).powi(3), fx(0.125));
}

#[test]
fn conversions_to_indices() {
    assert_eq!(fx(3.75).to_usize(), 3);
    assert_eq!(fx(-3.75).to_usize(), 0);
    assert_eq!(fx(-3.75).to_i32(), -3);
    assert_eq!(fx(-3.75).floor_to_int(), -4);
    assert_eq!(fx(-3.75).floor(), Fixed::from_int(-4));
    assert_eq!(Fixed::from_usize(5), Fixed::from_int(5));
    assert_eq!(Fixed::from_usize(usize::MAX).raw, i64::MAX);
}

#[test]
fn vectors() {
    let a = Vec3Df::from_ints(1, 0, 0);
    let b = Vec3Df::from_ints(0, 1, 0);
    assert_eq!(a.cross_product(&b), Vec3Df::from_ints(0, 0, 1));
    assert_eq!(a.scalar_product(&b), Fixed::from_int(0));
    let mut v = Vec3Df::from_ints(3, 0, 4);
    assert_eq!(v.length(), Fixed::from_int(5));
    v.normalize();
    assert_eq!(v, Vec3Df::new(fx(0.6), Fixed::from_int(0), fx(0.8)));
    assert_eq!(Vec3Df::new(fx(2.5), fx(-1.5), fx(0.0)).to_coord().x, 2);
    assert_eq!(Vec3Df::new(fx(2.5), fx(-1.5), fx(0.0)).to_coord().y, -1);
}
