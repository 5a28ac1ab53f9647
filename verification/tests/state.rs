//! Whole-state behaviour: mass distribution, conversions, and stepping.

use kinetic::builder::StateBuilder;
use kinetic::inertia_mass::{Inertia, InertiaMass, Mass};
use kinetic::mat3::Mat3;
use kinetic::momentum::{AngMom, LinMom, Momentum};
use kinetic::panels::Panel;
use kinetic::quat::Quat;
use kinetic::rational::Rat;
use kinetic::transform::{Rotation, Transform, Translation};
use kinetic::vec3::Vec3;
use kinetic::State;

fn r(n: i64, d: i64) -> Rat {
    Rat::new(n, d).unwrap()
}

fn ri(n: i32) -> Rat {
    Rat::from_int(n)
}

fn v(x: i32, y: i32, z: i32) -> Vec3 {
    Vec3::new(ri(x), ri(y), ri(z))
}

fn diag(a: Rat, b: Rat, c: Rat) -> Mat3 {
    let z = Rat::zero();
    Mat3::from_cols(
        Vec3::new(a, z, z),
        Vec3::new(z, b, z),
        Vec3::new(z, z, c),
    )
}

#[test]
fn inverse_inertia_is_exact() {
    // The stored inverse times the tensor is the identity, exactly.
    let im = InertiaMass::new(Mass::new(ri(2)), Inertia::new(diag(ri(2), ri(4), ri(5)))).unwrap();
    assert_eq!(im.inv_inertia.0, diag(r(1, 2), r(1, 4), r(1, 5)));
    let product = im.inertia.0.mul_mat3(&im.inv_inertia.0).unwrap();
    assert_eq!(product, Mat3::identity());
}

#[test]
fn singular_inertia_is_rejected() {
    assert!(InertiaMass::new(Mass::new(ri(1)), Inertia::new(diag(ri(1), ri(0), ri(1)))).is_none());
}

#[test]
fn non_positive_mass_is_rejected() {
    let t = Inertia::new(diag(ri(1), ri(1), ri(1)));
    assert!(InertiaMass::new(Mass::new(ri(0)), t).is_none());
    assert!(InertiaMass::new(Mass::new(ri(-3)), t).is_none());
}

#[test]
fn cylinder_moments() {
    // Unit cylinder along the first axis: axial moment 1/2, diametral 1/3.
    let t = Inertia::cylinder_x(ri(1), ri(1), ri(1)).unwrap();
    assert_eq!(t.0, diag(r(1, 2), r(1, 3), r(1, 3)));
    let ty = Inertia::cylinder_y(ri(1), ri(1), ri(1)).unwrap();
    assert_eq!(ty.0, diag(r(1, 3), r(1, 2), r(1, 3)));
    let tz = Inertia::cylinder_z(ri(1), ri(1), ri(1)).unwrap();
    assert_eq!(tz.0, diag(r(1, 3), r(1, 3), r(1, 2)));
}

#[test]
fn rotated_identity_is_no_op() {
    // Rotating a mass distribution or a panel by the identity changes
    // nothing.
    let im = InertiaMass::new(Mass::new(ri(1)), Inertia::new(diag(ri(2), ri(3), ri(5)))).unwrap();
    let rotated = im.rotated(Quat::identity()).unwrap();
    assert_eq!(rotated, im);

    let p = Panel::new(v(1, 2, 3), v(0, 1, 0), r(7, 2));
    assert_eq!(p.rotated(&Quat::identity()).unwrap(), p);
}

#[test]
fn rotated_round_trip() {
    // Rotating by a quaternion and then by its conjugate restores the
    // original exactly; the quaternion need not be normalized.
    let q = Quat::from_xyzw(ri(1), ri(2), ri(3), ri(4));
    let back = q.conjugate();
    let p = Panel::new(v(1, 2, 3), v(0, 1, 0), ri(1));
    let there = p.rotated(&q).unwrap();
    assert_eq!(there.rotated(&back).unwrap(), p);

    let im = InertiaMass::new(Mass::new(ri(1)), Inertia::new(diag(ri(2), ri(3), ri(5)))).unwrap();
    let there = im.rotated(q).unwrap();
    assert_eq!(there.rotated(back).unwrap(), im);
}

#[test]
fn compose_is_not_commutative() {
    let rx = Rotation::new(Quat::from_xyzw(ri(1), ri(0), ri(0), ri(1)));
    let ry = Rotation::new(Quat::from_xyzw(ri(0), ri(1), ri(0), ri(1)));
    let ab = rx.compose(&ry).unwrap();
    let ba = ry.compose(&rx).unwrap();
    assert_ne!(ab, ba);
}

#[test]
fn compose_self_doubles_angle() {
    // (3/5, 0, 0, 4/5) is a unit quaternion about the first axis; its
    // self-composition has the double-angle components (24/25, 7/25).
    let q = Rotation::new(Quat::from_xyzw(r(3, 5), ri(0), ri(0), r(4, 5)));
    let d = q.compose(&q).unwrap();
    assert_eq!(d.0, Quat::from_xyzw(r(24, 25), ri(0), ri(0), r(7, 25)));
}

#[test]
fn compose_inverse_round_trip() {
    let a = Rotation::new(Quat::from_xyzw(ri(1), ri(2), ri(3), ri(4)));
    let b = Rotation::new(Quat::from_xyzw(ri(2), ri(0), ri(1), ri(3)));
    let away = a.compose(&b).unwrap();
    let back = away.compose_inverse(&b).unwrap();
    // The result is the original rotation scaled by the squared norm of b:
    // the same rotation class.  Check by rotating a vector.
    let probe = v(1, 2, 3);
    assert_eq!(
        back.0.mul_vec3(&probe).unwrap(),
        a.0.mul_vec3(&probe).unwrap()
    );
}

#[test]
fn normalize_shrinks_scale() {
    // (0, 0, 0, 4) normalizes to the identity quaternion.
    let q = Rotation::new(Quat::from_xyzw(ri(0), ri(0), ri(0), ri(4)));
    assert_eq!(q.normalize().unwrap().0, Quat::identity());
}

#[test]
fn velocity_from_momentum() {
    let im = InertiaMass::new(Mass::new(ri(2)), Inertia::new(diag(r(1, 2), r(1, 3), r(1, 4))))
        .unwrap();
    let s = State::new(
        im,
        Transform::zero(),
        Momentum::new(LinMom::new(ri(4), ri(6), ri(8)), AngMom::new(ri(1), ri(1), ri(1))),
        Vec::new(),
    );
    let vel = s.velocity().unwrap();
    // linear: momentum / mass; angular: inverse tensor applied.
    assert_eq!(vel.linear.0, v(2, 3, 4));
    assert_eq!(vel.angular.0, v(2, 3, 4));
}

#[test]
fn velocity_round_trips_momentum() {
    // momentum -> velocity -> momentum is the identity: multiplying the
    // velocity back by mass and tensor restores the original exactly.
    let im = InertiaMass::new(Mass::new(ri(2)), Inertia::new(diag(r(1, 2), r(1, 3), r(1, 4))))
        .unwrap();
    let p = Momentum::new(LinMom::new(ri(4), ri(6), ri(8)), AngMom::new(ri(1), ri(2), ri(3)));
    let s = State::new(im, Transform::zero(), p, Vec::new());
    let vel = s.velocity().unwrap();
    let lin_back = LinMom::from_vec3(vel.linear.0.scale(im.mass.0).unwrap());
    let ang_back = AngMom::from_vec3(im.inertia.0.mul_vec3(&vel.angular.0).unwrap());
    assert_eq!(lin_back, p.linear);
    assert_eq!(ang_back, p.angular);
}

#[test]
fn step_conserves_momentum_without_panels() {
    // With no panels and no external moment the total moment is zero at
    // every stage: momentum is conserved and the pose advances by the
    // velocity times the span, exactly.
    let im = InertiaMass::new(Mass::new(ri(2)), Inertia::new(diag(r(1, 2), r(1, 2), r(1, 2))))
        .unwrap();
    let p = Momentum::new(LinMom::new(ri(4), ri(0), ri(2)), AngMom::zero());
    let mut s = State::new(im, Transform::zero(), p, Vec::new());
    assert!(s.runge_kutta_4(ri(1)));
    assert_eq!(s.momentum, p);
    // linear velocity (2, 0, 1) over one second.
    assert_eq!(s.transform.translation, Translation::new(ri(2), ri(0), ri(1)));
    assert_eq!(s.transform.rotation.0, Quat::identity());
}

#[test]
fn euler_conserves_momentum_without_panels() {
    let im = InertiaMass::new(Mass::new(ri(2)), Inertia::new(diag(r(1, 2), r(1, 2), r(1, 2))))
        .unwrap();
    let p = Momentum::new(LinMom::new(ri(4), ri(0), ri(2)), AngMom::zero());
    let mut s = State::new(im, Transform::zero(), p, Vec::new());
    assert!(s.forward_euler(ri(1)));
    assert_eq!(s.momentum, p);
    assert_eq!(s.transform.translation, Translation::new(ri(2), ri(0), ri(1)));
}

#[test]
fn spinning_state_with_one_panel() {
    // A body spinning about the first axis with a panel on that axis: the
    // panel's tip sits on the rotation axis, so its tip velocity, force,
    // and torque are all exactly zero, and momentum is conserved while the
    // orientation advances.
    let im = InertiaMass::new(
        Mass::new(ri(1)),
        Inertia::cylinder_x(ri(1), ri(1), ri(1)).unwrap(),
    )
    .unwrap();
    let p = Momentum::new(LinMom::zero(), AngMom::new(r(1, 2), ri(0), ri(0)));
    let panel = Panel::new(v(1, 0, 0), v(0, 1, 0), ri(1));
    let mut s = State::new(im, Transform::zero(), p, vec![panel]);
    let moment = s.panel_moment().unwrap();
    assert!(moment.magnitude().unwrap().is_zero());
    assert!(s.runge_kutta_4(r(1, 4)));
    assert_eq!(s.momentum, p);
    // The orientation has turned about the first axis.
    assert!(!s.transform.rotation.0.x.is_zero());
    assert!(s.transform.rotation.0.y.is_zero());
    assert!(s.transform.rotation.0.z.is_zero());
}

#[test]
fn builder_builds_with_defaults() {
    let im = InertiaMass::new(Mass::new(ri(1)), Inertia::new(diag(ri(1), ri(1), ri(1)))).unwrap();
    let s = StateBuilder::new().mass(im).build();
    assert_eq!(s.mass, im);
    assert_eq!(s.transform, Transform::zero());
    assert_eq!(s.momentum, Momentum::zero());
    assert!(s.panels.is_empty());
}

#[test]
fn builder_collects_panels() {
    let im = InertiaMass::new(Mass::new(ri(1)), Inertia::new(diag(ri(1), ri(1), ri(1)))).unwrap();
    let p1 = Panel::new(v(1, 0, 0), v(0, 1, 0), ri(1));
    let p2 = Panel::new(v(0, 1, 0), v(0, 0, 1), ri(2));
    let s = StateBuilder::new()
        .mass(im)
        .momentum(Momentum::zero())
        .add_panel(p1)
        .add_panels(vec![p2])
        .build();
    assert_eq!(s.panels, vec![p1, p2]);
}
