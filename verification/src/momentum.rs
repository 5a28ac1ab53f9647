//! Linear and angular momentum: the integrated state variable.

use crate::inertia_mass::{Inertia, InertiaMass, Mass};
use crate::mat3::mm_mul_vec;
use crate::rational::{frac_zero, Frac, Rat};
use crate::vec3::{mv_add, mv_div, mv_neg, mv_scale, mv_sub, oview, v3_zero, Vec3, V3};
use crate::velocity::{AngVel, LinVel, VelV, Velocity};
use vstd::prelude::*;

verus! {

/// Linear momentum, in newton-seconds, world frame.
#[derive(Clone, Copy, Debug, PartialEq, Eq, Structural)]
pub struct LinMom(pub Vec3);

impl View for LinMom {
    type V = V3;

    open spec fn view(&self) -> V3 {
        self.0@
    }
}

impl LinMom {
    /// All components in stored form.
    pub open spec fn wf(self) -> bool {
        self.0.wf3()
    }

    /// A linear momentum from its three components.
    pub fn new(x: Rat, y: Rat, z: Rat) -> (r: LinMom)
        requires
            x.wf(),
            y.wf(),
            z.wf(),
        ensures
            r.wf(),
            r@ == (V3 { x: x@, y: y@, z: z@ }),
    {
        LinMom(Vec3::new(x, y, z))
    }

    /// A linear momentum from an existing vector.
    pub fn from_vec3(v: Vec3) -> (r: LinMom)
        requires
            v.wf3(),
        ensures
            r.wf(),
            r@ == v@,
    {
        LinMom(v)
    }

    /// The zero linear momentum.
    pub fn zero() -> (r: LinMom)
        ensures
            r.wf(),
            r@ == v3_zero(),
    {
        LinMom(Vec3::zero())
    }

    /// A linear momentum with every component equal to `v`.
    pub fn splat(v: Rat) -> (r: LinMom)
        requires
            v.wf(),
        ensures
            r.wf(),
            r@ == (V3 { x: v@, y: v@, z: v@ }),
    {
        LinMom(Vec3::new(v, v, v))
    }

    /// A linear momentum with only the first component set.
    pub fn with_x(x: Rat) -> (r: LinMom)
        requires
            x.wf(),
        ensures
            r.wf(),
            r@ == (V3 { x: x@, y: frac_zero(), z: frac_zero() }),
    {
        LinMom(Vec3::new(x, Rat::zero(), Rat::zero()))
    }

    /// A linear momentum with only the second component set.
    pub fn with_y(y: Rat) -> (r: LinMom)
        requires
            y.wf(),
        ensures
            r.wf(),
            r@ == (V3 { x: frac_zero(), y: y@, z: frac_zero() }),
    {
        LinMom(Vec3::new(Rat::zero(), y, Rat::zero()))
    }

    /// A linear momentum with only the third component set.
    pub fn with_z(z: Rat) -> (r: LinMom)
        requires
            z.wf(),
        ensures
            r.wf(),
            r@ == (V3 { x: frac_zero(), y: frac_zero(), z: z@ }),
    {
        LinMom(Vec3::new(Rat::zero(), Rat::zero(), z))
    }

    /// Componentwise sum.
    pub fn add(&self, o: &LinMom) -> (r: Option<LinMom>)
        requires
            self.wf(),
            o.wf(),
        ensures
            oview(r) == mv_add(Some(self@), Some(o@)),
            r matches Some(v) ==> v.wf(),
    {
        match self.0.add(&o.0) {
            Some(v) => Some(LinMom(v)),
            None => None,
        }
    }

    /// Componentwise difference.
    pub fn sub(&self, o: &LinMom) -> (r: Option<LinMom>)
        requires
            self.wf(),
            o.wf(),
        ensures
            oview(r) == mv_sub(Some(self@), Some(o@)),
            r matches Some(v) ==> v.wf(),
    {
        match self.0.sub(&o.0) {
            Some(v) => Some(LinMom(v)),
            None => None,
        }
    }

    /// The linear momentum scaled by `k`.
    pub fn scale(&self, k: Rat) -> (r: Option<LinMom>)
        requires
            self.wf(),
            k.wf(),
        ensures
            oview(r) == mv_scale(Some(self@), Some(k@)),
            r matches Some(v) ==> v.wf(),
    {
        match self.0.scale(k) {
            Some(v) => Some(LinMom(v)),
            None => None,
        }
    }

    /// The negated linear momentum; exact.
    pub fn neg(&self) -> (r: LinMom)
        requires
            self.wf(),
        ensures
            r.wf(),
            Some(r@) == mv_neg(Some(self@)),
    {
        LinMom(self.0.neg())
    }

    /// The linear velocity of a body with the given mass.
    pub fn div_mass(&self, m: &Mass) -> (r: Option<LinVel>)
        requires
            self.wf(),
            m.wf(),
            m@.n != 0,
        ensures
            oview(r) == mv_div(Some(self@), Some(m@)),
            r matches Some(v) ==> v.wf(),
    {
        match self.0.div_scalar(m.0) {
            Some(v) => Some(LinVel(v)),
            None => None,
        }
    }

    /// A momentum with this linear part and no angular part.
    pub fn to_vel(self) -> (r: Momentum)
        ensures
            r@ == (MomV { linear: self@, angular: v3_zero() }),
    {
        Momentum { linear: self, angular: AngMom::zero() }
    }

    /// A momentum with this linear part and the given angular part.
    pub fn with_angular(self, ang: AngMom) -> (r: Momentum)
        ensures
            r@ == (MomV { linear: self@, angular: ang@ }),
    {
        Momentum { linear: self, angular: ang }
    }
}

/// Angular momentum, in newton-metre-seconds, world frame.
#[derive(Clone, Copy, Debug, PartialEq, Eq, Structural)]
pub struct AngMom(pub Vec3);

impl View for AngMom {
    type V = V3;

    open spec fn view(&self) -> V3 {
        self.0@
    }
}

impl AngMom {
    /// All components in stored form.
    pub open spec fn wf(self) -> bool {
        self.0.wf3()
    }

    /// A angular momentum from its three components.
    pub fn new(x: Rat, y: Rat, z: Rat) -> (r: AngMom)
        requires
            x.wf(),
            y.wf(),
            z.wf(),
        ensures
            r.wf(),
            r@ == (V3 { x: x@, y: y@, z: z@ }),
    {
        AngMom(Vec3::new(x, y, z))
    }

    /// A angular momentum from an existing vector.
    pub fn from_vec3(v: Vec3) -> (r: AngMom)
        requires
            v.wf3(),
        ensures
            r.wf(),
            r@ == v@,
    {
        AngMom(v)
    }

    /// The zero angular momentum.
    pub fn zero() -> (r: AngMom)
        ensures
            r.wf(),
            r@ == v3_zero(),
    {
        AngMom(Vec3::zero())
    }

    /// A angular momentum with every component equal to `v`.
    pub fn splat(v: Rat) -> (r: AngMom)
        requires
            v.wf(),
        ensures
            r.wf(),
            r@ == (V3 { x: v@, y: v@, z: v@ }),
    {
        AngMom(Vec3::new(v, v, v))
    }

    /// A angular momentum with only the first component set.
    pub fn with_x(x: Rat) -> (r: AngMom)
        requires
            x.wf(),
        ensures
            r.wf(),
            r@ == (V3 { x: x@, y: frac_zero(), z: frac_zero() }),
    {
        AngMom(Vec3::new(x, Rat::zero(), Rat::zero()))
    }

    /// A angular momentum with only the second component set.
    pub fn with_y(y: Rat) -> (r: AngMom)
        requires
            y.wf(),
        ensures
            r.wf(),
            r@ == (V3 { x: frac_zero(), y: y@, z: frac_zero() }),
    {
        AngMom(Vec3::new(Rat::zero(), y, Rat::zero()))
    }

    /// A angular momentum with only the third component set.
    pub fn with_z(z: Rat) -> (r: AngMom)
        requires
            z.wf(),
        ensures
            r.wf(),
            r@ == (V3 { x: frac_zero(), y: frac_zero(), z: z@ }),
    {
        AngMom(Vec3::new(Rat::zero(), Rat::zero(), z))
    }

    /// Componentwise sum.
    pub fn add(&self, o: &AngMom) -> (r: Option<AngMom>)
        requires
            self.wf(),
            o.wf(),
        ensures
            oview(r) == mv_add(Some(self@), Some(o@)),
            r matches Some(v) ==> v.wf(),
    {
        match self.0.add(&o.0) {
            Some(v) => Some(AngMom(v)),
            None => None,
        }
    }

    /// Componentwise difference.
    pub fn sub(&self, o: &AngMom) -> (r: Option<AngMom>)
        requires
            self.wf(),
            o.wf(),
        ensures
            oview(r) == mv_sub(Some(self@), Some(o@)),
            r matches Some(v) ==> v.wf(),
    {
        match self.0.sub(&o.0) {
            Some(v) => Some(AngMom(v)),
            None => None,
        }
    }

    /// The angular momentum scaled by `k`.
    pub fn scale(&self, k: Rat) -> (r: Option<AngMom>)
        requires
            self.wf(),
            k.wf(),
        ensures
            oview(r) == mv_scale(Some(self@), Some(k@)),
            r matches Some(v) ==> v.wf(),
    {
        match self.0.scale(k) {
            Some(v) => Some(AngMom(v)),
            None => None,
        }
    }

    /// The negated angular momentum; exact.
    pub fn neg(&self) -> (r: AngMom)
        requires
            self.wf(),
        ensures
            r.wf(),
            Some(r@) == mv_neg(Some(self@)),
    {
        AngMom(self.0.neg())
    }

    /// The angular velocity obtained by applying a tensor to this momentum.
    /// Callers pass an inverse inertia tensor, already expressed in the
    /// frame of this momentum.
    pub fn div_inertia(&self, inertia: &Inertia) -> (r: Option<AngVel>)
        requires
            self.wf(),
            inertia.wf(),
        ensures
            oview(r) == mm_mul_vec(Some(inertia@), Some(self@)),
            r matches Some(v) ==> v.wf(),
    {
        match inertia.0.mul_vec3(&self.0) {
            Some(v) => Some(AngVel(v)),
            None => None,
        }
    }
}

/// Mathematical value of a momentum: its linear and angular parts.
pub struct MomV {
    pub linear: V3,
    pub angular: V3,
}

/// Checked sum of two momentum values.
pub open spec fn mom_addv(a: MomV, b: MomV) -> Option<MomV> {
    match (mv_add(Some(a.linear), Some(b.linear)), mv_add(Some(a.angular), Some(b.angular))) {
        (Some(l), Some(n)) => Some(MomV { linear: l, angular: n }),
        _ => None,
    }
}

/// Checked difference of two momentum values.
pub open spec fn mom_subv(a: MomV, b: MomV) -> Option<MomV> {
    match (mv_sub(Some(a.linear), Some(b.linear)), mv_sub(Some(a.angular), Some(b.angular))) {
        (Some(l), Some(n)) => Some(MomV { linear: l, angular: n }),
        _ => None,
    }
}

/// Checked scaling of a momentum value.
pub open spec fn mom_scalev(a: MomV, k: Frac) -> Option<MomV> {
    match (mv_scale(Some(a.linear), Some(k)), mv_scale(Some(a.angular), Some(k))) {
        (Some(l), Some(n)) => Some(MomV { linear: l, angular: n }),
        _ => None,
    }
}

/// Checked conversion of a momentum value to a velocity value: the linear
/// part divided by the mass, the angular part multiplied by the inverse
/// tensor of the given inertia-mass value (both already in the momentum's
/// frame).
pub open spec fn mom_div_mass(p: MomV, mass: crate::inertia_mass::IMV) -> Option<VelV> {
    match (mv_div(Some(p.linear), Some(mass.mass)), mm_mul_vec(
        Some(mass.inv_inertia),
        Some(p.angular),
    )) {
        (Some(lin), Some(ang)) => Some(VelV { linear: lin, angular: ang }),
        _ => None,
    }
}

/// A momentum with linear and angular components, world frame.
#[derive(Clone, Copy, Debug, PartialEq, Eq, Structural)]
pub struct Momentum {
    /// Linear momentum component.
    pub linear: LinMom,
    /// Angular momentum component.
    pub angular: AngMom,
}

impl View for Momentum {
    type V = MomV;

    open spec fn view(&self) -> MomV {
        MomV { linear: self.linear@, angular: self.angular@ }
    }
}

impl Momentum {
    /// Both components in stored form.
    pub open spec fn wf(self) -> bool {
        self.linear.wf() && self.angular.wf()
    }

    /// A momentum from its two components.
    pub fn new(lin: LinMom, ang: AngMom) -> (r: Momentum)
        ensures
            r@ == (MomV { linear: lin@, angular: ang@ }),
    {
        Momentum { linear: lin, angular: ang }
    }

    /// The momentum of a body at rest.
    pub fn zero() -> (r: Momentum)
        ensures
            r.wf(),
            r@ == (MomV { linear: v3_zero(), angular: v3_zero() }),
    {
        Momentum { linear: LinMom::zero(), angular: AngMom::zero() }
    }

    /// A momentum with only a linear component.
    pub fn from_linear(v: LinMom) -> (r: Momentum)
        ensures
            r@ == (MomV { linear: v@, angular: v3_zero() }),
    {
        Momentum { linear: v, angular: AngMom::zero() }
    }

    /// A momentum with only an angular component.
    pub fn from_angular(v: AngMom) -> (r: Momentum)
        ensures
            r@ == (MomV { linear: v3_zero(), angular: v@ }),
    {
        Momentum { linear: LinMom::zero(), angular: v }
    }

    /// A momentum from raw linear and angular vectors.
    pub fn from_vec3s(lin: Vec3, ang: Vec3) -> (r: Momentum)
        ensures
            r@ == (MomV { linear: lin@, angular: ang@ }),
    {
        Momentum { linear: LinMom(lin), angular: AngMom(ang) }
    }

    /// A momentum from a raw linear vector only.
    pub fn from_linear_vec3(v: Vec3) -> (r: Momentum)
        ensures
            r@ == (MomV { linear: v@, angular: v3_zero() }),
    {
        Momentum { linear: LinMom(v), angular: AngMom::zero() }
    }

    /// A momentum from a raw angular vector only.
    pub fn from_angular_vec3(v: Vec3) -> (r: Momentum)
        ensures
            r@ == (MomV { linear: v3_zero(), angular: v@ }),
    {
        Momentum { linear: LinMom::zero(), angular: AngMom(v) }
    }

    /// Componentwise sum.
    pub fn add(&self, o: &Momentum) -> (r: Option<Momentum>)
        requires
            self.wf(),
            o.wf(),
        ensures
            oview(r) == mom_addv(self@, o@),
            r matches Some(v) ==> v.wf(),
    {
        let lin = self.linear.add(&o.linear);
        let ang = self.angular.add(&o.angular);
        match (lin, ang) {
            (Some(a), Some(b)) => Some(Momentum { linear: a, angular: b }),
            _ => None,
        }
    }

    /// Componentwise difference.
    pub fn sub(&self, o: &Momentum) -> (r: Option<Momentum>)
        requires
            self.wf(),
            o.wf(),
        ensures
            oview(r) == mom_subv(self@, o@),
            r matches Some(v) ==> v.wf(),
    {
        let lin = self.linear.sub(&o.linear);
        let ang = self.angular.sub(&o.angular);
        match (lin, ang) {
            (Some(a), Some(b)) => Some(Momentum { linear: a, angular: b }),
            _ => None,
        }
    }

    /// The momentum scaled by `k`.
    pub fn scale(&self, k: Rat) -> (r: Option<Momentum>)
        requires
            self.wf(),
            k.wf(),
        ensures
            oview(r) == mom_scalev(self@, k@),
            r matches Some(v) ==> v.wf(),
    {
        let lin = self.linear.scale(k);
        let ang = self.angular.scale(k);
        match (lin, ang) {
            (Some(a), Some(b)) => Some(Momentum { linear: a, angular: b }),
            _ => None,
        }
    }

    /// The velocity of a body with the given mass distribution, which must
    /// already be expressed in this momentum's frame.
    pub fn div_mass(&self, mass: &InertiaMass) -> (r: Option<Velocity>)
        requires
            self.wf(),
            mass.wf(),
        ensures
            oview(r) == mom_div_mass(self@, mass@),
            r matches Some(v) ==> v.wf(),
    {
        let lin = self.linear.div_mass(&mass.mass);
        let ang = self.angular.div_inertia(&mass.inv_inertia);
        match (lin, ang) {
            (Some(a), Some(b)) => Some(Velocity { linear: a, angular: b }),
            _ => None,
        }
    }
}

} // verus!
