//! Flat panels approximating aerodynamic drag on a rigid body.
//!
//! A panel faces along its normal and feels a force opposed to that normal,
//! proportional to the squared speed of the air over it and to how squarely
//! the flow meets the surface.  The ambient density and half drag
//! coefficient are the fixed parameters of this force model.

use crate::moments::{momt_from_force_and_offset, Force, Moment, MomtV};
use crate::quat::{mq_rotate, Quat, Q4};
use crate::rational::{chk, gcd, Frac, Rat};
use crate::vec3::{m_mul, mv_add, mv_cross, mv_dot, mv_neg, mv_normalize_or_zero, mv_scale, oview,
    Vec3, V3};
use crate::velocity::{AngVel, LinVel, VelV, Velocity};
use vstd::prelude::*;

verus! {

/// Ambient air density, in kilograms per cubic metre.
pub open spec fn density_frac() -> Frac {
    Frac { n: 1293, d: 1000 }
}

/// Half of the drag coefficient of a flat plate.
pub open spec fn half_c_d_frac() -> Frac {
    Frac { n: 16, d: 25 }
}

/// The two drag constants are already reduced fractions, so constructing
/// them cannot fail.
proof fn lemma_constants_reduced()
    ensures
        chk(Frac { n: 1293, d: 1000 }) == Some(Frac { n: 1293, d: 1000 }),
        chk(Frac { n: 16, d: 25 }) == Some(Frac { n: 16, d: 25 }),
{
    reveal_with_fuel(gcd, 12);
    assert(gcd(1293, 1000) == 1);
    assert(gcd(16, 25) == 1);
    vstd::arithmetic::div_mod::lemma_div_basics(1293);
    vstd::arithmetic::div_mod::lemma_div_basics(1000);
    vstd::arithmetic::div_mod::lemma_div_basics(16);
    vstd::arithmetic::div_mod::lemma_div_basics(25);
}

/// Ambient air density as a scalar: 1.293 kg/m3.
pub fn density() -> (r: Rat)
    ensures
        r.wf(),
        r@ == density_frac(),
{
    proof {
        lemma_constants_reduced();
    }
    match Rat::new(1293, 1000) {
        Some(c) => c,
        None => vstd::pervasive::unreached(),
    }
}

/// Half of the drag coefficient: 1.28 / 2, as the exact fraction 16/25.
pub fn half_c_d() -> (r: Rat)
    ensures
        r.wf(),
        r@ == half_c_d_frac(),
{
    proof {
        lemma_constants_reduced();
    }
    match Rat::new(16, 25) {
        Some(c) => c,
        None => vstd::pervasive::unreached(),
    }
}

/// Mathematical value of a panel: offset and normal in body frame, and the
/// surface area.
pub struct PV {
    pub offset: V3,
    pub normal: V3,
    pub area: Frac,
}

/// Checked aerodynamic force of a panel value under a relative velocity
/// value: density times squared speed times half drag coefficient times the
/// projected area, directed against the normal.
pub open spec fn pv_to_force(p: PV, rel: V3) -> Option<V3> {
    let area_c = m_mul(mv_dot(Some(p.normal), mv_normalize_or_zero(rel)), Some(p.area));
    let coef = m_mul(
        m_mul(
            m_mul(Some(density_frac()), mv_dot(Some(rel), Some(rel))),
            Some(half_c_d_frac()),
        ),
        area_c,
    );
    mv_scale(mv_neg(Some(p.normal)), coef)
}

/// Checked rotation of a panel value into another frame: offset and normal
/// rotated, area kept.
pub open spec fn pv_rotated(p: PV, q: Q4) -> Option<PV> {
    match (mq_rotate(Some(q), Some(p.offset)), mq_rotate(Some(q), Some(p.normal))) {
        (Some(o), Some(n)) => Some(PV { offset: o, normal: n, area: p.area }),
        _ => None,
    }
}

/// Checked point velocity induced at a panel's offset by an angular
/// velocity value.
pub open spec fn pv_rotation_based_velocity(p: PV, av: V3) -> Option<V3> {
    mv_cross(Some(av), Some(p.offset))
}

/// Checked total velocity of the panel's tip under a rigid-body velocity
/// value: the linear part plus the angular part crossed with the offset.
pub open spec fn pv_tip_velocity(p: PV, v: VelV) -> Option<V3> {
    mv_add(Some(v.linear), mv_cross(Some(v.angular), Some(p.offset)))
}

/// Checked moment of a panel value: the panel is rotated into the world
/// frame first, its tip velocity is derived there, the force follows from
/// it, and the torque is the world offset crossed with the force.
#[verifier::opaque]
pub open spec fn pv_to_moment(p: PV, v: VelV, q: Q4) -> Option<MomtV> {
    match pv_rotated(p, q) {
        Some(rp) => match pv_tip_velocity(rp, v) {
            Some(tv) => match pv_to_force(rp, tv) {
                Some(f) => momt_from_force_and_offset(f, rp.offset),
                None => None,
            },
            None => None,
        },
        None => None,
    }
}

/// A flat panel: its offset from the centre of mass and its facing
/// direction, both body frame, and its surface area.
#[derive(Clone, Copy, Debug, PartialEq, Eq, Structural)]
pub struct Panel {
    /// Position relative to the centre of mass, body frame, metres.
    pub offset: Vec3,
    /// Direction the panel faces, body frame.
    pub normal: Vec3,
    /// Surface area, square metres.
    pub area: Rat,
}

impl View for Panel {
    type V = PV;

    open spec fn view(&self) -> PV {
        PV { offset: self.offset@, normal: self.normal@, area: self.area@ }
    }
}

impl Panel {
    /// All fields in stored form.
    pub open spec fn wf(self) -> bool {
        self.offset.wf3() && self.normal.wf3() && self.area.wf()
    }

    /// A panel from its offset, normal, and area.
    pub fn new(offset: Vec3, normal: Vec3, area: Rat) -> (r: Panel)
        ensures
            r@ == (PV { offset: offset@, normal: normal@, area: area@ }),
    {
        Panel { offset, normal, area }
    }

    /// The aerodynamic force on the panel under a relative air velocity.
    /// Exactly zero for a zero velocity and whenever the flow is parallel
    /// to the surface.
    pub fn to_force(&self, rel_vel: &LinVel) -> (r: Option<Force>)
        requires
            self.wf(),
            rel_vel.wf(),
        ensures
            oview(r) == pv_to_force(self@, rel_vel@),
            r matches Some(f) ==> f.wf(),
    {
        let nz = rel_vel.0.normalize_or_zero();
        let d = match nz {
            Some(n) => self.normal.dot(&n),
            None => None,
        };
        let area_c = match d {
            Some(a) => a.mul(self.area),
            None => None,
        };
        let ls = rel_vel.0.length_squared();
        let c1 = match ls {
            Some(s) => density().mul(s),
            None => None,
        };
        let c2 = match c1 {
            Some(v) => v.mul(half_c_d()),
            None => None,
        };
        let coef = match (c2, area_c) {
            (Some(a), Some(b)) => a.mul(b),
            _ => None,
        };
        match coef {
            Some(k) => match self.normal.neg().scale(k) {
                Some(v) => Some(Force(v)),
                None => None,
            },
            None => None,
        }
    }

    /// The panel re-expressed in another frame: offset and normal rotated,
    /// area unchanged.
    pub fn rotated(&self, rot: &Quat) -> (r: Option<Panel>)
        requires
            self.wf(),
            rot.wf4(),
        ensures
            oview(r) == pv_rotated(self@, rot@),
            r matches Some(p) ==> p.wf(),
    {
        let o = rot.mul_vec3(&self.offset);
        let n = rot.mul_vec3(&self.normal);
        match (o, n) {
            (Some(a), Some(b)) => Some(Panel { offset: a, normal: b, area: self.area }),
            _ => None,
        }
    }

    /// The point velocity induced at the panel's offset by an angular
    /// velocity.
    pub fn rotation_based_velocity(&self, vel: &AngVel) -> (r: Option<LinVel>)
        requires
            self.wf(),
            vel.wf(),
        ensures
            oview(r) == pv_rotation_based_velocity(self@, vel@),
            r matches Some(v) ==> v.wf(),
    {
        match vel.0.cross(&self.offset) {
            Some(v) => Some(LinVel(v)),
            None => None,
        }
    }

    /// The total velocity of the panel's tip: the linear velocity plus the
    /// angular velocity crossed with the offset.  The panel must already be
    /// in the frame of the velocity.
    pub fn tip_velocity(&self, vel: &Velocity) -> (r: Option<LinVel>)
        requires
            self.wf(),
            vel.wf(),
        ensures
            oview(r) == pv_tip_velocity(self@, vel@),
            r matches Some(v) ==> v.wf(),
    {
        let c = vel.angular.0.cross(&self.offset);
        match c {
            Some(rv) => match vel.linear.0.add(&rv) {
                Some(v) => Some(LinVel(v)),
                None => None,
            },
            None => None,
        }
    }

    /// The moment this panel induces on the body, given the body's world
    /// velocity and orientation: the panel is rotated into the world frame,
    /// its tip velocity is derived, the force follows from it, and the
    /// torque is the world offset crossed with the force.
    pub fn to_moment(&self, vel: &Velocity, rot: &Quat) -> (r: Option<Moment>)
        requires
            self.wf(),
            vel.wf(),
            rot.wf4(),
        ensures
            oview(r) == pv_to_moment(self@, vel@, rot@),
            r matches Some(m) ==> m.wf(),
    {
        proof {
            reveal(pv_to_moment);
        }
        match self.rotated(rot) {
            Some(rp) => match rp.tip_velocity(vel) {
                Some(tv) => match rp.to_force(&tv) {
                    Some(f) => Moment::from_force_and_offset(f, rp.offset),
                    None => None,
                },
                None => None,
            },
            None => None,
        }
    }
}

} // verus!
