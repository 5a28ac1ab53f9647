//! Panel force-model behaviour on exact inputs.

use kinetic::moments::{Force, Moment, Torque};
use kinetic::panels::Panel;
use kinetic::quat::Quat;
use kinetic::rational::Rat;
use kinetic::vec3::Vec3;
use kinetic::velocity::{AngVel, LinVel, Velocity};

fn r(n: i64, d: i64) -> Rat {
    Rat::new(n, d).unwrap()
}

fn ri(n: i32) -> Rat {
    Rat::from_int(n)
}

fn v(x: i32, y: i32, z: i32) -> Vec3 {
    Vec3::new(ri(x), ri(y), ri(z))
}

/// Density times half drag coefficient: 1.293 * 0.64 as an exact fraction.
fn exp_coef() -> Rat {
    r(2586, 3125)
}

fn quarter_rotations() -> (Quat, Quat, Quat) {
    // A quarter turn about an axis is the rotation class of (axis, 1).
    (
        Quat::from_xyzw(ri(1), ri(0), ri(0), ri(1)),
        Quat::from_xyzw(ri(0), ri(1), ri(0), ri(1)),
        Quat::from_xyzw(ri(0), ri(0), ri(1), ri(1)),
    )
}

fn xyz_panels() -> (Panel, Panel, Panel) {
    (
        Panel::new(v(1, 0, 0), v(1, 0, 0), ri(1)),
        Panel::new(v(0, 1, 0), v(0, 1, 0), ri(1)),
        Panel::new(v(0, 0, 1), v(0, 0, 1), ri(1)),
    )
}

fn xyz_neg_panels() -> (Panel, Panel, Panel) {
    (
        Panel::new(v(-1, 0, 0), v(1, 0, 0), ri(1)),
        Panel::new(v(0, -1, 0), v(0, 1, 0), ri(1)),
        Panel::new(v(0, 0, -1), v(0, 0, 1), ri(1)),
    )
}

fn xyz_angvel() -> (AngVel, AngVel, AngVel) {
    (AngVel::with_x(ri(1)), AngVel::with_y(ri(1)), AngVel::with_z(ri(1)))
}

fn xyz_linvel() -> (LinVel, LinVel, LinVel) {
    (LinVel::with_x(ri(1)), LinVel::with_y(ri(1)), LinVel::with_z(ri(1)))
}

#[test]
fn no_rotation() {
    let p1 = Panel::new(v(1, 0, 0), v(0, 1, 0), ri(1));
    let q1 = Quat::identity();
    assert_eq!(p1.rotated(&q1).unwrap().offset, p1.offset);
}

#[test]
fn quarter_turn_offset() {
    let (rx, ry, rz) = quarter_rotations();
    let (px, py, pz) = xyz_panels();

    assert_eq!(px.rotated(&rx).unwrap().offset, px.offset);
    assert_eq!(px.rotated(&ry).unwrap().offset, pz.offset.neg());
    assert_eq!(px.rotated(&rz).unwrap().offset, py.offset);

    assert_eq!(py.rotated(&rx).unwrap().offset, pz.offset);
    assert_eq!(py.rotated(&ry).unwrap().offset, py.offset);
    assert_eq!(py.rotated(&rz).unwrap().offset, px.offset.neg());

    assert_eq!(pz.rotated(&rx).unwrap().offset, py.offset.neg());
    assert_eq!(pz.rotated(&ry).unwrap().offset, px.offset);
    assert_eq!(pz.rotated(&rz).unwrap().offset, pz.offset);
}

#[test]
fn quarter_turn_normal() {
    let (rx, ry, rz) = quarter_rotations();
    let (px, py, pz) = xyz_panels();

    assert_eq!(px.rotated(&rx).unwrap().normal, px.normal);
    assert_eq!(px.rotated(&ry).unwrap().normal, pz.normal.neg());
    assert_eq!(px.rotated(&rz).unwrap().normal, py.normal);

    assert_eq!(py.rotated(&rx).unwrap().normal, pz.normal);
    assert_eq!(py.rotated(&ry).unwrap().normal, py.normal);
    assert_eq!(py.rotated(&rz).unwrap().normal, px.normal.neg());

    assert_eq!(pz.rotated(&rx).unwrap().normal, py.normal.neg());
    assert_eq!(pz.rotated(&ry).unwrap().normal, px.normal);
    assert_eq!(pz.rotated(&rz).unwrap().normal, pz.normal);
}

#[test]
fn mod_stationary() {
    let p1 = Panel::new(v(1, 0, 0), v(1, 0, 0), ri(1));
    let vel = AngVel::zero();
    assert_eq!(p1.rotation_based_velocity(&vel).unwrap(), LinVel::zero());
}

#[test]
fn mod_inline() {
    let (px, py, pz) = xyz_panels();
    let (vx, vy, vz) = xyz_angvel();

    assert_eq!(px.rotation_based_velocity(&vx).unwrap(), LinVel::zero());
    assert_eq!(py.rotation_based_velocity(&vy).unwrap(), LinVel::zero());
    assert_eq!(pz.rotation_based_velocity(&vz).unwrap(), LinVel::zero());
}

#[test]
fn perpendicular() {
    let (px, py, pz) = xyz_panels();
    let (ax, ay, az) = xyz_angvel();
    let (vx, vy, vz) = xyz_linvel();

    assert_eq!(px.rotation_based_velocity(&ay).unwrap(), vz.neg());
    assert_eq!(py.rotation_based_velocity(&az).unwrap(), vx.neg());
    assert_eq!(pz.rotation_based_velocity(&ax).unwrap(), vy.neg());
}

#[test]
fn perpendicular_reverse() {
    let (px, py, pz) = xyz_neg_panels();
    let (ax, ay, az) = xyz_angvel();
    let (vx, vy, vz) = xyz_linvel();

    assert_eq!(px.rotation_based_velocity(&ay).unwrap(), vz);
    assert_eq!(py.rotation_based_velocity(&az).unwrap(), vx);
    assert_eq!(pz.rotation_based_velocity(&ax).unwrap(), vy);
}

#[test]
fn perpendicular_backward() {
    let (px, py, pz) = xyz_panels();
    let (ax, ay, az) = xyz_angvel();
    let (vx, vy, vz) = xyz_linvel();

    assert_eq!(px.rotation_based_velocity(&ay.neg()).unwrap(), vz);
    assert_eq!(py.rotation_based_velocity(&az.neg()).unwrap(), vx);
    assert_eq!(pz.rotation_based_velocity(&ax.neg()).unwrap(), vy);
}

#[test]
fn perpendicular_backward_reverse() {
    let (px, py, pz) = xyz_neg_panels();
    let (ax, ay, az) = xyz_angvel();
    let (vx, vy, vz) = xyz_linvel();

    assert_eq!(px.rotation_based_velocity(&ay.neg()).unwrap(), vz.neg());
    assert_eq!(py.rotation_based_velocity(&az.neg()).unwrap(), vx.neg());
    assert_eq!(pz.rotation_based_velocity(&ax.neg()).unwrap(), vy.neg());
}

#[test]
fn relative_velocity_stationary() {
    let panel = Panel::new(v(1, 0, 0), v(0, 1, 0), ri(1));
    let vel = Velocity::zero();
    assert_eq!(panel.tip_velocity(&vel).unwrap(), LinVel::zero());
}

#[test]
fn linear_motion() {
    let (px, py, pz) = xyz_panels();
    let (lx, ly, lz) = xyz_linvel();
    let a = AngVel::zero();

    assert_eq!(px.tip_velocity(&Velocity::new(lx, a)).unwrap(), lx);
    assert_eq!(py.tip_velocity(&Velocity::new(ly, a)).unwrap(), ly);
    assert_eq!(pz.tip_velocity(&Velocity::new(lz, a)).unwrap(), lz);

    assert_eq!(px.tip_velocity(&Velocity::new(ly, a)).unwrap(), ly);
    assert_eq!(py.tip_velocity(&Velocity::new(lz, a)).unwrap(), lz);
    assert_eq!(pz.tip_velocity(&Velocity::new(lx, a)).unwrap(), lx);

    assert_eq!(px.tip_velocity(&Velocity::new(lz, a)).unwrap(), lz);
    assert_eq!(py.tip_velocity(&Velocity::new(lx, a)).unwrap(), lx);
    assert_eq!(pz.tip_velocity(&Velocity::new(ly, a)).unwrap(), ly);
}

#[test]
fn linear_and_angular_motion() {
    let (px, py, pz) = xyz_panels();
    let (ax, ay, az) = xyz_angvel();
    let (lx, ly, lz) = xyz_linvel();

    let xx = Velocity::new(lx, ax);
    let yx = Velocity::new(ly, ax);
    let zx = Velocity::new(lz, ax);

    assert_eq!(px.tip_velocity(&xx).unwrap(), lx);
    assert_eq!(py.tip_velocity(&xx).unwrap(), lx.add(&lz).unwrap());
    assert_eq!(pz.tip_velocity(&xx).unwrap(), lx.sub(&ly).unwrap());

    assert_eq!(px.tip_velocity(&yx).unwrap(), ly);
    assert_eq!(py.tip_velocity(&yx).unwrap(), ly.add(&lz).unwrap());
    assert_eq!(pz.tip_velocity(&yx).unwrap(), ly.sub(&ly).unwrap());

    assert_eq!(px.tip_velocity(&zx).unwrap(), lz);
    assert_eq!(py.tip_velocity(&zx).unwrap(), lz.add(&lz).unwrap());
    assert_eq!(pz.tip_velocity(&zx).unwrap(), lz.sub(&ly).unwrap());

    let xy = Velocity::new(lx, ay);
    let yy = Velocity::new(ly, ay);
    let zy = Velocity::new(lz, ay);

    assert_eq!(px.tip_velocity(&xy).unwrap(), lx.sub(&lz).unwrap());
    assert_eq!(py.tip_velocity(&xy).unwrap(), lx);
    assert_eq!(pz.tip_velocity(&xy).unwrap(), lx.add(&lx).unwrap());

    assert_eq!(px.tip_velocity(&yy).unwrap(), ly.sub(&lz).unwrap());
    assert_eq!(py.tip_velocity(&yy).unwrap(), ly);
    assert_eq!(pz.tip_velocity(&yy).unwrap(), ly.add(&lx).unwrap());

    assert_eq!(px.tip_velocity(&zy).unwrap(), lz.sub(&lz).unwrap());
    assert_eq!(py.tip_velocity(&zy).unwrap(), lz);
    assert_eq!(pz.tip_velocity(&zy).unwrap(), lz.add(&lx).unwrap());

    let xz = Velocity::new(lx, az);
    let yz = Velocity::new(ly, az);
    let zz = Velocity::new(lz, az);

    assert_eq!(px.tip_velocity(&xz).unwrap(), lx.add(&ly).unwrap());
    assert_eq!(py.tip_velocity(&xz).unwrap(), lx.sub(&lx).unwrap());
    assert_eq!(pz.tip_velocity(&xz).unwrap(), lx);

    assert_eq!(px.tip_velocity(&yz).unwrap(), ly.add(&ly).unwrap());
    assert_eq!(py.tip_velocity(&yz).unwrap(), ly.sub(&lx).unwrap());
    assert_eq!(pz.tip_velocity(&yz).unwrap(), ly);

    assert_eq!(px.tip_velocity(&zz).unwrap(), lz.add(&ly).unwrap());
    assert_eq!(py.tip_velocity(&zz).unwrap(), lz.sub(&lx).unwrap());
    assert_eq!(pz.tip_velocity(&zz).unwrap(), lz);
}

#[test]
fn to_force_stationary() {
    let panel = Panel::new(v(1, 0, 0), v(0, 1, 0), ri(1));
    let vel = LinVel::zero();
    assert_eq!(panel.to_force(&vel).unwrap(), Force::zero());
}

#[test]
fn parallel() {
    let p1 = Panel::new(v(0, 0, 0), v(0, 1, 0), ri(1));
    let v1 = LinVel::with_z(ri(1));
    let v2 = LinVel::with_x(ri(1));
    assert_eq!(p1.to_force(&v1).unwrap(), Force::zero());
    assert_eq!(p1.to_force(&v2).unwrap(), Force::zero());
}

#[test]
fn inline() {
    let p1 = Panel::new(v(0, 0, 0), v(1, 0, 0), ri(1));
    let p2 = Panel::new(v(0, 0, 0), v(0, 1, 0), ri(1));
    let p3 = Panel::new(v(0, 0, 0), v(0, 0, 1), ri(1));
    let (lx, ly, lz) = xyz_linvel();
    let e = exp_coef();

    assert_eq!(p1.to_force(&lx).unwrap(), Force::with_x(e.neg()));
    assert_eq!(p2.to_force(&ly).unwrap(), Force::with_y(e.neg()));
    assert_eq!(p3.to_force(&lz).unwrap(), Force::with_z(e.neg()));
}

#[test]
fn inline_offset() {
    let v1 = LinVel::with_y(ri(1));
    let p1 = Panel::new(v(0, 1, 0), v(0, 1, 0), ri(1));
    let p2 = Panel::new(v(1, 0, 0), v(0, 1, 0), ri(1));
    let p3 = Panel::new(v(0, 0, 1), v(0, 1, 0), ri(1));
    let e = exp_coef();

    assert_eq!(p1.to_force(&v1).unwrap(), Force::with_y(e.neg()));
    assert_eq!(p2.to_force(&v1).unwrap(), Force::with_y(e.neg()));
    assert_eq!(p3.to_force(&v1).unwrap(), Force::with_y(e.neg()));
}

#[test]
fn quadratic_speed() {
    // Speed 3 against a square-on panel: force is the drag coefficient
    // times 9, exactly.
    let p = Panel::new(v(0, 0, 0), v(1, 0, 0), ri(1));
    let vel = LinVel::with_x(ri(3));
    let e = exp_coef().mul(ri(9)).unwrap();
    assert_eq!(p.to_force(&vel).unwrap(), Force::with_x(e.neg()));
}

#[test]
fn to_moment_stationary() {
    let px = Panel::new(v(0, 0, 0), v(1, 0, 0), ri(1));
    let v0 = Velocity::zero();
    let q0 = Quat::identity();
    assert_eq!(px.to_moment(&v0, &q0).unwrap(), Moment::zero());
}

#[test]
fn linear_movement() {
    let q0 = Quat::identity();
    let px = Panel::new(v(0, 0, 0), v(1, 0, 0), ri(1));
    let py = Panel::new(v(0, 0, 0), v(0, 1, 0), ri(1));
    let pz = Panel::new(v(0, 0, 0), v(0, 0, 1), ri(1));
    let (lx, ly, lz) = xyz_linvel();
    let e = exp_coef();

    let vx = lx.to_vel();
    let vy = ly.to_vel();
    let vz = lz.to_vel();

    assert_eq!(
        px.to_moment(&vx, &q0).unwrap(),
        Moment::from_force(Force::with_x(e.neg()))
    );
    assert_eq!(px.to_moment(&vy, &q0).unwrap(), Moment::zero());
    assert_eq!(px.to_moment(&vz, &q0).unwrap(), Moment::zero());

    assert_eq!(py.to_moment(&vx, &q0).unwrap(), Moment::zero());
    assert_eq!(
        py.to_moment(&vy, &q0).unwrap(),
        Moment::from_force(Force::with_y(e.neg()))
    );
    assert_eq!(py.to_moment(&vz, &q0).unwrap(), Moment::zero());

    assert_eq!(pz.to_moment(&vx, &q0).unwrap(), Moment::zero());
    assert_eq!(pz.to_moment(&vy, &q0).unwrap(), Moment::zero());
    assert_eq!(
        pz.to_moment(&vz, &q0).unwrap(),
        Moment::from_force(Force::with_z(e.neg()))
    );
}

#[test]
fn angular_movement() {
    let q0 = Quat::identity();
    let pxy = Panel::new(v(1, 0, 0), v(0, 1, 0), ri(1));
    let pyz = Panel::new(v(0, 1, 0), v(0, 0, 1), ri(1));
    let pzx = Panel::new(v(0, 0, 1), v(1, 0, 0), ri(1));
    let (lx, ly, lz) = xyz_linvel();
    let e = exp_coef();

    let vx = lx.to_vel();
    let vy = ly.to_vel();
    let vz = lz.to_vel();

    assert!(pxy.to_moment(&vx, &q0).unwrap().magnitude().unwrap().is_zero());
    let m = pxy.to_moment(&vy, &q0).unwrap();
    assert_eq!(m.force, Force::with_y(e.neg()));
    assert_eq!(m.torque, Torque::with_z(e.neg()));
    assert!(pxy.to_moment(&vz, &q0).unwrap().magnitude().unwrap().is_zero());

    assert!(pyz.to_moment(&vx, &q0).unwrap().magnitude().unwrap().is_zero());
    assert!(pyz.to_moment(&vy, &q0).unwrap().magnitude().unwrap().is_zero());
    let m = pyz.to_moment(&vz, &q0).unwrap();
    assert_eq!(m.force, Force::with_z(e.neg()));
    assert_eq!(m.torque, Torque::with_x(e.neg()));

    let m = pzx.to_moment(&vx, &q0).unwrap();
    assert_eq!(m.force, Force::with_x(e.neg()));
    assert_eq!(m.torque, Torque::with_y(e.neg()));
    assert!(pzx.to_moment(&vy, &q0).unwrap().magnitude().unwrap().is_zero());
    assert!(pzx.to_moment(&vz, &q0).unwrap().magnitude().unwrap().is_zero());
}

#[test]
fn magnitude_zero_cases() {
    // The moment magnitude is exactly zero whenever either part is zero.
    let m1 = Moment::from_force(Force::with_x(ri(7)));
    let m2 = Moment::from_torque(Torque::with_y(ri(5)));
    assert!(m1.magnitude().unwrap().is_zero());
    assert!(m2.magnitude().unwrap().is_zero());
}

#[test]
fn magnitude_exact_square() {
    let m = Moment::new(Force::with_x(ri(3)), Torque::with_y(ri(4)));
    assert_eq!(m.magnitude().unwrap(), ri(12));
}
