//! Scalar and vector wrapper arithmetic on exact inputs.

use kinetic::momentum::{AngMom, LinMom};
use kinetic::quat::Quat;
use kinetic::rational::Rat;
use kinetic::transform::{Rotation, Transform, Translation};
use kinetic::vec3::Vec3;
use kinetic::velocity::{AngVel, LinVel, Velocity};

fn r(n: i64, d: i64) -> Rat {
    Rat::new(n, d).unwrap()
}

fn ri(n: i32) -> Rat {
    Rat::from_int(n)
}

#[test]
fn scalar_arithmetic_is_exact() {
    // A third plus a sixth is exactly a half, and so on.
    assert_eq!(r(1, 3).add(r(1, 6)).unwrap(), r(1, 2));
    assert_eq!(r(1, 2).sub(r(1, 3)).unwrap(), r(1, 6));
    assert_eq!(r(2, 3).mul(r(3, 4)).unwrap(), r(1, 2));
    assert_eq!(r(1, 2).div(r(1, 4)).unwrap(), ri(2));
    assert_eq!(r(1, 2).neg(), r(-1, 2));
    assert!(r(-1, 2).is_neg());
    assert!(r(0, 5).is_zero());
    assert!(r(1, 3).le(&r(1, 2)));
    assert!(!r(1, 2).le(&r(1, 3)));
}

#[test]
fn scalar_sqrt_is_exact_on_squares() {
    assert_eq!(r(9, 4).sqrt_floor(), r(3, 2));
    assert_eq!(ri(49).sqrt_floor(), ri(7));
    // Between squares the result rounds down.
    assert_eq!(ri(8).sqrt_floor(), ri(2));
}

#[test]
fn new_splat_fromvec3() {
    assert_eq!(
        AngVel::new(r(6454, 100), r(7786, 100), r(277, 100)).0,
        Vec3::new(r(6454, 100), r(7786, 100), r(277, 100))
    );
    assert_eq!(
        AngVel::splat(r(6107, 100)).0,
        Vec3::new(r(6107, 100), r(6107, 100), r(6107, 100))
    );
    let v = Vec3::new(r(1257, 100), r(2266, 100), r(5890, 100));
    assert_eq!(AngVel::from_vec3(v).0, v);
}

#[test]
fn with() {
    assert_eq!(
        AngVel::with_x(r(666, 10)).0,
        Vec3::new(r(666, 10), ri(0), ri(0))
    );
    assert_eq!(
        AngVel::with_y(r(7675, 100)).0,
        Vec3::new(ri(0), r(7675, 100), ri(0))
    );
    assert_eq!(
        AngVel::with_z(r(2158, 100)).0,
        Vec3::new(ri(0), ri(0), r(2158, 100))
    );
}

#[test]
fn angular_velocity_consts() {
    assert_eq!(AngVel::zero(), AngVel::splat(ri(0)));
}

#[test]
fn angular_velocity_add() {
    let av1 = AngVel::new(ri(1), ri(2), ri(3));
    let av2 = AngVel::new(ri(4), ri(5), ri(6));
    assert_eq!(av1.add(&av2).unwrap(), AngVel::new(ri(5), ri(7), ri(9)));
}

#[test]
fn angular_velocity_sub() {
    let av1 = AngVel::new(ri(5), ri(7), ri(9));
    let av2 = AngVel::new(ri(1), ri(2), ri(3));
    assert_eq!(av1.sub(&av2).unwrap(), AngVel::new(ri(4), ri(5), ri(6)));
}

#[test]
fn angular_velocity_neg() {
    let av = AngVel::new(r(3350, 100), r(-8884, 100), r(7572, 100));
    assert_eq!(
        av.neg(),
        AngVel::new(r(-3350, 100), r(8884, 100), r(-7572, 100))
    );
}

#[test]
fn angular_velocity_mul() {
    let av = AngVel::new(ri(1), ri(-2), ri(3));
    assert_eq!(av.scale(ri(2)).unwrap(), AngVel::new(ri(2), ri(-4), ri(6)));
}

#[test]
fn angular_velocity_div() {
    // Dividing by three is scaling by a third, exactly.
    let av = AngVel::new(ri(9), ri(-3), ri(3));
    assert_eq!(av.scale(r(1, 3)).unwrap(), AngVel::new(ri(3), ri(-1), ri(1)));
}

#[test]
fn linear_velocity_add() {
    let v1 = LinVel::splat(ri(2));
    let v2 = LinVel::with_x(r(-1, 2));
    let want = LinVel::new(r(3, 2), ri(2), ri(2));
    assert_eq!(v1.add(&v2).unwrap(), want);
    assert_eq!(v2.add(&v1).unwrap(), want);
}

#[test]
fn linear_velocity_sub() {
    let v1 = LinVel::splat(r(102, 10));
    let v2 = LinVel::new(r(43, 10), ri(-12), r(1, 10));
    assert_eq!(
        v1.sub(&v2).unwrap(),
        LinVel::new(r(59, 10), r(222, 10), r(101, 10))
    );
    assert_eq!(
        v2.sub(&v1).unwrap(),
        LinVel::new(r(-59, 10), r(-222, 10), r(-101, 10))
    );
}

#[test]
fn linear_velocity_neg() {
    let v1 = LinVel::with_z(r(17645, 100));
    assert_eq!(v1.neg(), LinVel::new(ri(0), ri(0), r(-17645, 100)));
}

#[test]
fn linear_velocity_mul() {
    let v1 = LinVel::splat(ri(42));
    let v2 = LinVel::with_y(r(1, 10));
    assert_eq!(v1.scale(ri(2)).unwrap(), LinVel::splat(ri(84)));
    assert_eq!(v2.scale(ri(10)).unwrap(), LinVel::with_y(ri(1)));
}

#[test]
fn linear_velocity_div() {
    let v1 = LinVel::splat(ri(63));
    let v2 = LinVel::with_y(ri(1));
    assert_eq!(v1.scale(r(1, 3)).unwrap(), LinVel::splat(ri(21)));
    assert_eq!(v2.scale(r(1, 10)).unwrap(), LinVel::with_y(r(1, 10)));
}

#[test]
fn linear_velocity_mul_secs() {
    let a = LinVel::new(ri(2), ri(4), ri(6));
    assert_eq!(
        a.mul_secs(r(1, 2)).unwrap(),
        Translation::new(ri(1), ri(2), ri(3))
    );
}

#[test]
fn no_time() {
    // Zero seconds of any spin is the identity rotation increment.
    let w = AngVel::new(ri(3), ri(5), ri(7));
    assert_eq!(w.mul_secs(ri(0)).unwrap(), Rotation::zero());
}

#[test]
fn single_axis() {
    // The increment for spin (2, 0, 0) over one second has vector part
    // (1, 0, 0) and scalar part one.
    let w = AngVel::with_x(ri(2));
    assert_eq!(
        w.mul_secs(ri(1)).unwrap().0,
        Quat::from_xyzw(ri(1), ri(0), ri(0), ri(1))
    );
}

#[test]
fn compound_axis() {
    let w = AngVel::new(ri(2), ri(4), ri(6));
    assert_eq!(
        w.mul_secs(r(1, 2)).unwrap().0,
        Quat::from_xyzw(r(1, 2), ri(1), r(3, 2), ri(1))
    );
}

#[test]
fn velocity_new() {
    let lv = LinVel::new(r(8170, 100), r(4359, 100), r(6366, 100));
    let av = AngVel::new(r(8871, 100), r(6005, 100), r(534, 100));
    assert_eq!(Velocity::new(lv, av).linear, lv);
    assert_eq!(Velocity::new(lv, av).angular, av);
}

#[test]
fn velocity_from() {
    let lv = LinVel::new(r(5476, 100), r(1108, 100), r(9223, 100));
    let av = AngVel::new(r(8286, 100), r(521, 100), r(6119, 100));
    let v1 = Velocity::from_linear(lv);
    let v2 = Velocity::from_angular(av);
    assert_eq!(v1.linear, lv);
    assert_eq!(v1.angular, AngVel::zero());
    assert_eq!(v2.linear, LinVel::zero());
    assert_eq!(v2.angular, av);
}

#[test]
fn momentum_div_mass() {
    let p = LinMom::new(ri(6), ri(9), ri(12));
    let m = kinetic::inertia_mass::Mass::new(ri(3));
    assert_eq!(
        p.div_mass(&m).unwrap(),
        LinVel::new(ri(2), ri(3), ri(4))
    );
}

#[test]
fn angular_momentum_div_inertia() {
    // Applying a diagonal tensor to an angular momentum, componentwise.
    let z = Rat::zero();
    let inv = kinetic::inertia_mass::Inertia::new(kinetic::mat3::Mat3::from_cols(
        Vec3::new(ri(2), z, z),
        Vec3::new(z, ri(3), z),
        Vec3::new(z, z, ri(4)),
    ));
    let p = AngMom::new(ri(1), ri(1), ri(1));
    assert_eq!(p.div_inertia(&inv).unwrap(), AngVel::new(ri(2), ri(3), ri(4)));
}

#[test]
fn transform_add_composes_rotation() {
    // Transform addition composes rotations with the second applied after
    // the first: the quaternion product b * a.
    let a = Transform::from_quat(Quat::from_xyzw(ri(1), ri(0), ri(0), ri(1)));
    let b = Transform::from_quat(Quat::from_xyzw(ri(0), ri(1), ri(0), ri(1)));
    let sum = a.add(&b).unwrap();
    let expected = b.rotation.0.mul(&a.rotation.0).unwrap();
    assert_eq!(sum.rotation.0, expected);
}

#[test]
fn cross_product_axes() {
    let x = Vec3::new(ri(1), ri(0), ri(0));
    let y = Vec3::new(ri(0), ri(1), ri(0));
    let z = Vec3::new(ri(0), ri(0), ri(1));
    assert_eq!(x.cross(&y).unwrap(), z);
    assert_eq!(y.cross(&z).unwrap(), x);
    assert_eq!(z.cross(&x).unwrap(), y);
    assert_eq!(y.cross(&x).unwrap(), z.neg());
}

#[test]
fn normalize_or_zero_cases() {
    // The zero vector stays zero; a vector of exact square length is
    // scaled to unit length exactly.
    let zero = Vec3::zero();
    assert_eq!(zero.normalize_or_zero().unwrap(), zero);
    let v = Vec3::new(ri(3), ri(4), ri(0));
    assert_eq!(
        v.normalize_or_zero().unwrap(),
        Vec3::new(r(3, 5), r(4, 5), ri(0))
    );
}
