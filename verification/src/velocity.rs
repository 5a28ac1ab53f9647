//! Linear and angular velocity.
//!
//! Scaling an angular velocity by a time span yields a rotation increment.
//! The increment is the first-order (Cayley) quaternion `(w * t / 2, 1)`:
//! it is exact in rational arithmetic, agrees with the axis-angle
//! exponential to first order, and composes through the ordinary rotation
//! algebra because rotations need not be normalized here.

use crate::rational::{frac_int, frac_one, frac_zero, Frac, Rat};
use crate::transform::{Rotation, Transform, Translation, TV};
use crate::vec3::{m_div, mv_add, mv_cross, mv_div, mv_neg, mv_scale, mv_sub, oview, v3_zero, Vec3,
    V3};
use crate::quat::{Quat, Q4};
use vstd::prelude::*;

verus! {

/// Linear velocity, in metres per second, world frame.
#[derive(Clone, Copy, Debug, PartialEq, Eq, Structural)]
pub struct LinVel(pub Vec3);

impl View for LinVel {
    type V = V3;

    open spec fn view(&self) -> V3 {
        self.0@
    }
}

impl LinVel {
    /// All components in stored form.
    pub open spec fn wf(self) -> bool {
        self.0.wf3()
    }

    /// A linear velocity from its three components.
    pub fn new(x: Rat, y: Rat, z: Rat) -> (r: LinVel)
        requires
            x.wf(),
            y.wf(),
            z.wf(),
        ensures
            r.wf(),
            r@ == (V3 { x: x@, y: y@, z: z@ }),
    {
        LinVel(Vec3::new(x, y, z))
    }

    /// A linear velocity from an existing vector.
    pub fn from_vec3(v: Vec3) -> (r: LinVel)
        requires
            v.wf3(),
        ensures
            r.wf(),
            r@ == v@,
    {
        LinVel(v)
    }

    /// The zero linear velocity.
    pub fn zero() -> (r: LinVel)
        ensures
            r.wf(),
            r@ == v3_zero(),
    {
        LinVel(Vec3::zero())
    }

    /// A linear velocity with every component equal to `v`.
    pub fn splat(v: Rat) -> (r: LinVel)
        requires
            v.wf(),
        ensures
            r.wf(),
            r@ == (V3 { x: v@, y: v@, z: v@ }),
    {
        LinVel(Vec3::new(v, v, v))
    }

    /// A linear velocity with only the first component set.
    pub fn with_x(x: Rat) -> (r: LinVel)
        requires
            x.wf(),
        ensures
            r.wf(),
            r@ == (V3 { x: x@, y: frac_zero(), z: frac_zero() }),
    {
        LinVel(Vec3::new(x, Rat::zero(), Rat::zero()))
    }

    /// A linear velocity with only the second component set.
    pub fn with_y(y: Rat) -> (r: LinVel)
        requires
            y.wf(),
        ensures
            r.wf(),
            r@ == (V3 { x: frac_zero(), y: y@, z: frac_zero() }),
    {
        LinVel(Vec3::new(Rat::zero(), y, Rat::zero()))
    }

    /// A linear velocity with only the third component set.
    pub fn with_z(z: Rat) -> (r: LinVel)
        requires
            z.wf(),
        ensures
            r.wf(),
            r@ == (V3 { x: frac_zero(), y: frac_zero(), z: z@ }),
    {
        LinVel(Vec3::new(Rat::zero(), Rat::zero(), z))
    }

    /// Componentwise sum.
    pub fn add(&self, o: &LinVel) -> (r: Option<LinVel>)
        requires
            self.wf(),
            o.wf(),
        ensures
            oview(r) == mv_add(Some(self@), Some(o@)),
            r matches Some(v) ==> v.wf(),
    {
        match self.0.add(&o.0) {
            Some(v) => Some(LinVel(v)),
            None => None,
        }
    }

    /// Componentwise difference.
    pub fn sub(&self, o: &LinVel) -> (r: Option<LinVel>)
        requires
            self.wf(),
            o.wf(),
        ensures
            oview(r) == mv_sub(Some(self@), Some(o@)),
            r matches Some(v) ==> v.wf(),
    {
        match self.0.sub(&o.0) {
            Some(v) => Some(LinVel(v)),
            None => None,
        }
    }

    /// The linear velocity scaled by `k`.
    pub fn scale(&self, k: Rat) -> (r: Option<LinVel>)
        requires
            self.wf(),
            k.wf(),
        ensures
            oview(r) == mv_scale(Some(self@), Some(k@)),
            r matches Some(v) ==> v.wf(),
    {
        match self.0.scale(k) {
            Some(v) => Some(LinVel(v)),
            None => None,
        }
    }

    /// The negated linear velocity; exact.
    pub fn neg(&self) -> (r: LinVel)
        requires
            self.wf(),
        ensures
            r.wf(),
            Some(r@) == mv_neg(Some(self@)),
    {
        LinVel(self.0.neg())
    }

    /// The displacement covered in `rhs` seconds.
    pub fn mul_secs(&self, rhs: Rat) -> (r: Option<Translation>)
        requires
            self.wf(),
            rhs.wf(),
        ensures
            oview(r) == mv_scale(Some(self@), Some(rhs@)),
            r matches Some(v) ==> v.wf(),
    {
        match self.0.scale(rhs) {
            Some(v) => Some(Translation(v)),
            None => None,
        }
    }

    /// A velocity with this linear part and no angular part.
    pub fn to_vel(self) -> (r: Velocity)
        ensures
            r@ == (VelV { linear: self@, angular: v3_zero() }),
    {
        Velocity { linear: self, angular: AngVel::zero() }
    }

    /// A velocity with this linear part and the given angular part.
    pub fn with_angular(self, ang: AngVel) -> (r: Velocity)
        ensures
            r@ == (VelV { linear: self@, angular: ang@ }),
    {
        Velocity { linear: self, angular: ang }
    }
}

/// Angular velocity, in radians per second, world frame.
#[derive(Clone, Copy, Debug, PartialEq, Eq, Structural)]
pub struct AngVel(pub Vec3);

impl View for AngVel {
    type V = V3;

    open spec fn view(&self) -> V3 {
        self.0@
    }
}

impl AngVel {
    /// All components in stored form.
    pub open spec fn wf(self) -> bool {
        self.0.wf3()
    }

    /// A angular velocity from its three components.
    pub fn new(x: Rat, y: Rat, z: Rat) -> (r: AngVel)
        requires
            x.wf(),
            y.wf(),
            z.wf(),
        ensures
            r.wf(),
            r@ == (V3 { x: x@, y: y@, z: z@ }),
    {
        AngVel(Vec3::new(x, y, z))
    }

    /// A angular velocity from an existing vector.
    pub fn from_vec3(v: Vec3) -> (r: AngVel)
        requires
            v.wf3(),
        ensures
            r.wf(),
            r@ == v@,
    {
        AngVel(v)
    }

    /// The zero angular velocity.
    pub fn zero() -> (r: AngVel)
        ensures
            r.wf(),
            r@ == v3_zero(),
    {
        AngVel(Vec3::zero())
    }

    /// A angular velocity with every component equal to `v`.
    pub fn splat(v: Rat) -> (r: AngVel)
        requires
            v.wf(),
        ensures
            r.wf(),
            r@ == (V3 { x: v@, y: v@, z: v@ }),
    {
        AngVel(Vec3::new(v, v, v))
    }

    /// A angular velocity with only the first component set.
    pub fn with_x(x: Rat) -> (r: AngVel)
        requires
            x.wf(),
        ensures
            r.wf(),
            r@ == (V3 { x: x@, y: frac_zero(), z: frac_zero() }),
    {
        AngVel(Vec3::new(x, Rat::zero(), Rat::zero()))
    }

    /// A angular velocity with only the second component set.
    pub fn with_y(y: Rat) -> (r: AngVel)
        requires
            y.wf(),
        ensures
            r.wf(),
            r@ == (V3 { x: frac_zero(), y: y@, z: frac_zero() }),
    {
        AngVel(Vec3::new(Rat::zero(), y, Rat::zero()))
    }

    /// A angular velocity with only the third component set.
    pub fn with_z(z: Rat) -> (r: AngVel)
        requires
            z.wf(),
        ensures
            r.wf(),
            r@ == (V3 { x: frac_zero(), y: frac_zero(), z: z@ }),
    {
        AngVel(Vec3::new(Rat::zero(), Rat::zero(), z))
    }

    /// Componentwise sum.
    pub fn add(&self, o: &AngVel) -> (r: Option<AngVel>)
        requires
            self.wf(),
            o.wf(),
        ensures
            oview(r) == mv_add(Some(self@), Some(o@)),
            r matches Some(v) ==> v.wf(),
    {
        match self.0.add(&o.0) {
            Some(v) => Some(AngVel(v)),
            None => None,
        }
    }

    /// Componentwise difference.
    pub fn sub(&self, o: &AngVel) -> (r: Option<AngVel>)
        requires
            self.wf(),
            o.wf(),
        ensures
            oview(r) == mv_sub(Some(self@), Some(o@)),
            r matches Some(v) ==> v.wf(),
    {
        match self.0.sub(&o.0) {
            Some(v) => Some(AngVel(v)),
            None => None,
        }
    }

    /// The angular velocity scaled by `k`.
    pub fn scale(&self, k: Rat) -> (r: Option<AngVel>)
        requires
            self.wf(),
            k.wf(),
        ensures
            oview(r) == mv_scale(Some(self@), Some(k@)),
            r matches Some(v) ==> v.wf(),
    {
        match self.0.scale(k) {
            Some(v) => Some(AngVel(v)),
            None => None,
        }
    }

    /// The negated angular velocity; exact.
    pub fn neg(&self) -> (r: AngVel)
        requires
            self.wf(),
        ensures
            r.wf(),
            Some(r@) == mv_neg(Some(self@)),
    {
        AngVel(self.0.neg())
    }

    /// The rotation increment covered in `rhs` seconds: the first-order
    /// quaternion with vector part `self * rhs / 2` and scalar part one.
    ///
    /// This is not the axis-angle exponential: the increment turns by
    /// twice the arctangent of half the angle `|self| * rhs`, not by the
    /// angle itself, so it differs from the exponential at second order in
    /// the span.  In particular the increment for a doubled span is not
    /// the self-composition of the increment: the two share a vector part
    /// but differ in scalar part by the squared vector norm, and they are
    /// the same rotation only for a zero spin or span.  The law
    /// [`crate::laws::law_increment_compose_self`] states this exactly.
    pub fn mul_secs(&self, rhs: Rat) -> (r: Option<Rotation>)
        requires
            self.wf(),
            rhs.wf(),
        ensures
            oview(r) == av_mul_secs(self@, rhs@),
            r matches Some(v) ==> v.wf(),
    {
        let scaled = self.0.scale(rhs);
        let half = match scaled {
            Some(v) => v.div_scalar(Rat::from_int(2)),
            None => None,
        };
        match half {
            Some(h) => Some(Rotation(Quat { x: h.x, y: h.y, z: h.z, w: Rat::one() })),
            None => None,
        }
    }

    /// A velocity with this angular part and no linear part.
    pub fn to_vel(self) -> (r: Velocity)
        ensures
            r@ == (VelV { linear: v3_zero(), angular: self@ }),
    {
        Velocity { linear: LinVel::zero(), angular: self }
    }

    /// A velocity with the given linear part and this angular part.
    pub fn with_linear(self, lin: LinVel) -> (r: Velocity)
        ensures
            r@ == (VelV { linear: lin@, angular: self@ }),
    {
        Velocity { linear: lin, angular: self }
    }
}

/// Checked rotation increment of an angular velocity value over a time
/// span: vector part `v * t / 2`, scalar part one.
pub open spec fn av_mul_secs(v: V3, t: Frac) -> Option<Q4> {
    match mv_div(mv_scale(Some(v), Some(t)), Some(frac_int(2))) {
        Some(h) => Some(Q4 { x: h.x, y: h.y, z: h.z, w: frac_one() }),
        None => None,
    }
}

/// Mathematical value of a velocity: its linear and angular parts.
pub struct VelV {
    pub linear: V3,
    pub angular: V3,
}

/// Checked sum of two velocity values.
pub open spec fn vel_addv(a: VelV, b: VelV) -> Option<VelV> {
    match (mv_add(Some(a.linear), Some(b.linear)), mv_add(Some(a.angular), Some(b.angular))) {
        (Some(l), Some(n)) => Some(VelV { linear: l, angular: n }),
        _ => None,
    }
}

/// Checked difference of two velocity values.
pub open spec fn vel_subv(a: VelV, b: VelV) -> Option<VelV> {
    match (mv_sub(Some(a.linear), Some(b.linear)), mv_sub(Some(a.angular), Some(b.angular))) {
        (Some(l), Some(n)) => Some(VelV { linear: l, angular: n }),
        _ => None,
    }
}

/// Checked scaling of a velocity value.
pub open spec fn vel_scalev(a: VelV, k: Frac) -> Option<VelV> {
    match (mv_scale(Some(a.linear), Some(k)), mv_scale(Some(a.angular), Some(k))) {
        (Some(l), Some(n)) => Some(VelV { linear: l, angular: n }),
        _ => None,
    }
}

/// Checked scaling of a velocity value over a time span, giving a
/// transform increment.
pub open spec fn vel_mul_secs(v: VelV, t: Frac) -> Option<TV> {
    match (mv_scale(Some(v.linear), Some(t)), av_mul_secs(v.angular, t)) {
        (Some(lin), Some(ang)) => Some(TV { translation: lin, rotation: ang }),
        _ => None,
    }
}

/// A velocity with linear and angular components, world frame.
#[derive(Clone, Copy, Debug, PartialEq, Eq, Structural)]
pub struct Velocity {
    /// Linear velocity component.
    pub linear: LinVel,
    /// Angular velocity component.
    pub angular: AngVel,
}

impl View for Velocity {
    type V = VelV;

    open spec fn view(&self) -> VelV {
        VelV { linear: self.linear@, angular: self.angular@ }
    }
}

impl Velocity {
    /// Both components in stored form.
    pub open spec fn wf(self) -> bool {
        self.linear.wf() && self.angular.wf()
    }

    /// A velocity from its two components.
    pub fn new(lin: LinVel, ang: AngVel) -> (r: Velocity)
        ensures
            r@ == (VelV { linear: lin@, angular: ang@ }),
    {
        Velocity { linear: lin, angular: ang }
    }

    /// The velocity of a body at rest.
    pub fn zero() -> (r: Velocity)
        ensures
            r.wf(),
            r@ == (VelV { linear: v3_zero(), angular: v3_zero() }),
    {
        Velocity { linear: LinVel::zero(), angular: AngVel::zero() }
    }

    /// A velocity with only a linear component.
    pub fn from_linear(v: LinVel) -> (r: Velocity)
        ensures
            r@ == (VelV { linear: v@, angular: v3_zero() }),
    {
        Velocity { linear: v, angular: AngVel::zero() }
    }

    /// A velocity with only an angular component.
    pub fn from_angular(v: AngVel) -> (r: Velocity)
        ensures
            r@ == (VelV { linear: v3_zero(), angular: v@ }),
    {
        Velocity { linear: LinVel::zero(), angular: v }
    }

    /// A velocity from raw linear and angular vectors.
    pub fn from_vec3s(lin: Vec3, ang: Vec3) -> (r: Velocity)
        ensures
            r@ == (VelV { linear: lin@, angular: ang@ }),
    {
        Velocity { linear: LinVel(lin), angular: AngVel(ang) }
    }

    /// A velocity from a raw linear vector only.
    pub fn from_linear_vec3(v: Vec3) -> (r: Velocity)
        ensures
            r@ == (VelV { linear: v@, angular: v3_zero() }),
    {
        Velocity { linear: LinVel(v), angular: AngVel::zero() }
    }

    /// A velocity from a raw angular vector only.
    pub fn from_angular_vec3(v: Vec3) -> (r: Velocity)
        ensures
            r@ == (VelV { linear: v3_zero(), angular: v@ }),
    {
        Velocity { linear: LinVel::zero(), angular: AngVel(v) }
    }

    /// Componentwise sum.
    pub fn add(&self, o: &Velocity) -> (r: Option<Velocity>)
        requires
            self.wf(),
            o.wf(),
        ensures
            oview(r) == vel_addv(self@, o@),
            r matches Some(v) ==> v.wf(),
    {
        let lin = self.linear.add(&o.linear);
        let ang = self.angular.add(&o.angular);
        match (lin, ang) {
            (Some(a), Some(b)) => Some(Velocity { linear: a, angular: b }),
            _ => None,
        }
    }

    /// The velocity scaled by `k`.
    pub fn scale(&self, k: Rat) -> (r: Option<Velocity>)
        requires
            self.wf(),
            k.wf(),
        ensures
            oview(r) == vel_scalev(self@, k@),
            r matches Some(v) ==> v.wf(),
    {
        let lin = self.linear.scale(k);
        let ang = self.angular.scale(k);
        match (lin, ang) {
            (Some(a), Some(b)) => Some(Velocity { linear: a, angular: b }),
            _ => None,
        }
    }

    /// The transform increment covered in `rhs` seconds: the linear part
    /// scaled, the angular part as a first-order rotation increment.
    pub fn mul_secs(&self, rhs: Rat) -> (r: Option<Transform>)
        requires
            self.wf(),
            rhs.wf(),
        ensures
            oview(r) == vel_mul_secs(self@, rhs@),
            r matches Some(v) ==> v.wf(),
    {
        let lin = self.linear.mul_secs(rhs);
        let ang = self.angular.mul_secs(rhs);
        match (lin, ang) {
            (Some(a), Some(b)) => Some(Transform { translation: a, rotation: b }),
            _ => None,
        }
    }
}

} // verus!
