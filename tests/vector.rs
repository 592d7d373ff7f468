use rungekutta::scalar::Scalar;
use rungekutta::vector::Vector3;

#[test]
fn vector3_new() {
    let v = Vector3::new(0i64, 1, 2);
    assert_eq!(v.x, 0);
    assert_eq!(v.y, 1);
    assert_eq!(v.z, 2);
}

#[test]
fn vector3_new_zeros() {
    let v: Vector3<i64> = Vector3::zeros();
    assert_eq!(v.x, 0);
    assert_eq!(v.y, 0);
    assert_eq!(v.z, 0);
}

#[test]
fn add_is_componentwise() {
    let r = Vector3::new(1i64, 2, 3) + Vector3::new(10, 20, 30);
    assert_eq!((r.x, r.y, r.z), (11, 22, 33));
}

#[test]
fn sub_is_componentwise() {
    let r = Vector3::new(1i64, 2, 3) - Vector3::new(10, 20, 30);
    assert_eq!((r.x, r.y, r.z), (-9, -18, -27));
}

#[test]
fn mul_vectors_is_componentwise() {
    let r = Vector3::new(1i64, 2, 3) * Vector3::new(10, -20, 30);
    assert_eq!((r.x, r.y, r.z), (10, -40, 90));
}

#[test]
fn mul_by_scalar() {
    let r = Vector3::new(1i64, -2, 3) * 7;
    assert_eq!((r.x, r.y, r.z), (7, -14, 21));
}

#[test]
fn div_vectors_is_componentwise() {
    let r = Vector3::new(100i64, -20, 7) / Vector3::new(10, 3, -2);
    assert_eq!((r.x, r.y, r.z), (10, -6, -3));
}

#[test]
fn div_by_scalar_truncates_toward_zero() {
    let r = Vector3::new(9i64, -9, 2) / 4;
    assert_eq!((r.x, r.y, r.z), (2, -2, 0));
}

#[test]
fn add_commutes_and_associates() {
    let u = Vector3::new(1i64, -5, 9);
    let v = Vector3::new(4i64, 6, -8);
    let w = Vector3::new(-3i64, 2, 7);
    let a = u + v;
    let b = v + u;
    assert_eq!((a.x, a.y, a.z), (b.x, b.y, b.z));
    let c = (u + v) + w;
    let d = u + (v + w);
    assert_eq!((c.x, c.y, c.z), (d.x, d.y, d.z));
}

#[test]
fn scale_and_divide_by_one_are_identity() {
    let u = Vector3::new(12i64, -7, 0);
    let a = u * 1;
    let b = u / 1;
    assert_eq!((a.x, a.y, a.z), (12, -7, 0));
    assert_eq!((b.x, b.y, b.z), (12, -7, 0));
}

#[test]
fn operators_leave_operands_unchanged() {
    let u = Vector3::new(3i64, 4, 5);
    let v = Vector3::new(-1i64, 8, 2);
    let first = u + v;
    let second = u + v;
    assert_eq!((first.x, first.y, first.z), (second.x, second.y, second.z));
    assert_eq!((u.x, u.y, u.z), (3, 4, 5));
    assert_eq!((v.x, v.y, v.z), (-1, 8, 2));
    let _ = u * v - v / 2;
    assert_eq!((u.x, u.y, u.z), (3, 4, 5));
    assert_eq!((v.x, v.y, v.z), (-1, 8, 2));
}

#[test]
fn scalar_arithmetic_wraps() {
    assert_eq!(i64::MAX.plus(1), i64::MIN);
    assert_eq!(i64::MIN.minus(1), i64::MAX);
    assert_eq!(i64::MAX.times(2), -2);
    assert_eq!(i64::MIN.over(-1), i64::MIN);
    assert_eq!((-7i64).over(2), -3);
    assert_eq!(<i64 as Scalar>::lit(6), 6);
}
