//! Force, torque, and their combination: the generalized forcing term.

use crate::momentum::{AngMom, LinMom, MomV, Momentum};
use crate::rational::{frac_zero, m_sqrt, rat_opt, Frac, Rat};
use crate::vec3::m_mul;
use crate::vec3::{mv_add, mv_cross, mv_dot, mv_neg, mv_scale, mv_sub, oview, v3_zero, Vec3, V3};
use vstd::prelude::*;

verus! {

/// A force, in newtons, world frame.
#[derive(Clone, Copy, Debug, PartialEq, Eq, Structural)]
pub struct Force(pub Vec3);

impl View for Force {
    type V = V3;

    open spec fn view(&self) -> V3 {
        self.0@
    }
}

impl Force {
    /// All components in stored form.
    pub open spec fn wf(self) -> bool {
        self.0.wf3()
    }

    /// A force from its three components.
    pub fn new(x: Rat, y: Rat, z: Rat) -> (r: Force)
        requires
            x.wf(),
            y.wf(),
            z.wf(),
        ensures
            r.wf(),
            r@ == (V3 { x: x@, y: y@, z: z@ }),
    {
        Force(Vec3::new(x, y, z))
    }

    /// A force from an existing vector.
    pub fn from_vec3(v: Vec3) -> (r: Force)
        requires
            v.wf3(),
        ensures
            r.wf(),
            r@ == v@,
    {
        Force(v)
    }

    /// The zero force.
    pub fn zero() -> (r: Force)
        ensures
            r.wf(),
            r@ == v3_zero(),
    {
        Force(Vec3::zero())
    }

    /// A force with every component equal to `v`.
    pub fn splat(v: Rat) -> (r: Force)
        requires
            v.wf(),
        ensures
            r.wf(),
            r@ == (V3 { x: v@, y: v@, z: v@ }),
    {
        Force(Vec3::new(v, v, v))
    }

    /// A force with only the first component set.
    pub fn with_x(x: Rat) -> (r: Force)
        requires
            x.wf(),
        ensures
            r.wf(),
            r@ == (V3 { x: x@, y: frac_zero(), z: frac_zero() }),
    {
        Force(Vec3::new(x, Rat::zero(), Rat::zero()))
    }

    /// A force with only the second component set.
    pub fn with_y(y: Rat) -> (r: Force)
        requires
            y.wf(),
        ensures
            r.wf(),
            r@ == (V3 { x: frac_zero(), y: y@, z: frac_zero() }),
    {
        Force(Vec3::new(Rat::zero(), y, Rat::zero()))
    }

    /// A force with only the third component set.
    pub fn with_z(z: Rat) -> (r: Force)
        requires
            z.wf(),
        ensures
            r.wf(),
            r@ == (V3 { x: frac_zero(), y: frac_zero(), z: z@ }),
    {
        Force(Vec3::new(Rat::zero(), Rat::zero(), z))
    }

    /// Componentwise sum.
    pub fn add(&self, o: &Force) -> (r: Option<Force>)
        requires
            self.wf(),
            o.wf(),
        ensures
            oview(r) == mv_add(Some(self@), Some(o@)),
            r matches Some(v) ==> v.wf(),
    {
        match self.0.add(&o.0) {
            Some(v) => Some(Force(v)),
            None => None,
        }
    }

    /// Componentwise difference.
    pub fn sub(&self, o: &Force) -> (r: Option<Force>)
        requires
            self.wf(),
            o.wf(),
        ensures
            oview(r) == mv_sub(Some(self@), Some(o@)),
            r matches Some(v) ==> v.wf(),
    {
        match self.0.sub(&o.0) {
            Some(v) => Some(Force(v)),
            None => None,
        }
    }

    /// The force scaled by `k`.
    pub fn scale(&self, k: Rat) -> (r: Option<Force>)
        requires
            self.wf(),
            k.wf(),
        ensures
            oview(r) == mv_scale(Some(self@), Some(k@)),
            r matches Some(v) ==> v.wf(),
    {
        match self.0.scale(k) {
            Some(v) => Some(Force(v)),
            None => None,
        }
    }

    /// The negated force; exact.
    pub fn neg(&self) -> (r: Force)
        requires
            self.wf(),
        ensures
            r.wf(),
            Some(r@) == mv_neg(Some(self@)),
    {
        Force(self.0.neg())
    }

    /// The linear momentum imparted over `rhs` seconds.
    pub fn mul_secs(&self, rhs: Rat) -> (r: Option<LinMom>)
        requires
            self.wf(),
            rhs.wf(),
        ensures
            oview(r) == mv_scale(Some(self@), Some(rhs@)),
            r matches Some(v) ==> v.wf(),
    {
        match self.0.scale(rhs) {
            Some(v) => Some(LinMom(v)),
            None => None,
        }
    }
}

/// A torque, in newton-metres, world frame.
#[derive(Clone, Copy, Debug, PartialEq, Eq, Structural)]
pub struct Torque(pub Vec3);

impl View for Torque {
    type V = V3;

    open spec fn view(&self) -> V3 {
        self.0@
    }
}

impl Torque {
    /// All components in stored form.
    pub open spec fn wf(self) -> bool {
        self.0.wf3()
    }

    /// A torque from its three components.
    pub fn new(x: Rat, y: Rat, z: Rat) -> (r: Torque)
        requires
            x.wf(),
            y.wf(),
            z.wf(),
        ensures
            r.wf(),
            r@ == (V3 { x: x@, y: y@, z: z@ }),
    {
        Torque(Vec3::new(x, y, z))
    }

    /// A torque from an existing vector.
    pub fn from_vec3(v: Vec3) -> (r: Torque)
        requires
            v.wf3(),
        ensures
            r.wf(),
            r@ == v@,
    {
        Torque(v)
    }

    /// The zero torque.
    pub fn zero() -> (r: Torque)
        ensures
            r.wf(),
            r@ == v3_zero(),
    {
        Torque(Vec3::zero())
    }

    /// A torque with every component equal to `v`.
    pub fn splat(v: Rat) -> (r: Torque)
        requires
            v.wf(),
        ensures
            r.wf(),
            r@ == (V3 { x: v@, y: v@, z: v@ }),
    {
        Torque(Vec3::new(v, v, v))
    }

    /// A torque with only the first component set.
    pub fn with_x(x: Rat) -> (r: Torque)
        requires
            x.wf(),
        ensures
            r.wf(),
            r@ == (V3 { x: x@, y: frac_zero(), z: frac_zero() }),
    {
        Torque(Vec3::new(x, Rat::zero(), Rat::zero()))
    }

    /// A torque with only the second component set.
    pub fn with_y(y: Rat) -> (r: Torque)
        requires
            y.wf(),
        ensures
            r.wf(),
            r@ == (V3 { x: frac_zero(), y: y@, z: frac_zero() }),
    {
        Torque(Vec3::new(Rat::zero(), y, Rat::zero()))
    }

    /// A torque with only the third component set.
    pub fn with_z(z: Rat) -> (r: Torque)
        requires
            z.wf(),
        ensures
            r.wf(),
            r@ == (V3 { x: frac_zero(), y: frac_zero(), z: z@ }),
    {
        Torque(Vec3::new(Rat::zero(), Rat::zero(), z))
    }

    /// Componentwise sum.
    pub fn add(&self, o: &Torque) -> (r: Option<Torque>)
        requires
            self.wf(),
            o.wf(),
        ensures
            oview(r) == mv_add(Some(self@), Some(o@)),
            r matches Some(v) ==> v.wf(),
    {
        match self.0.add(&o.0) {
            Some(v) => Some(Torque(v)),
            None => None,
        }
    }

    /// Componentwise difference.
    pub fn sub(&self, o: &Torque) -> (r: Option<Torque>)
        requires
            self.wf(),
            o.wf(),
        ensures
            oview(r) == mv_sub(Some(self@), Some(o@)),
            r matches Some(v) ==> v.wf(),
    {
        match self.0.sub(&o.0) {
            Some(v) => Some(Torque(v)),
            None => None,
        }
    }

    /// The torque scaled by `k`.
    pub fn scale(&self, k: Rat) -> (r: Option<Torque>)
        requires
            self.wf(),
            k.wf(),
        ensures
            oview(r) == mv_scale(Some(self@), Some(k@)),
            r matches Some(v) ==> v.wf(),
    {
        match self.0.scale(k) {
            Some(v) => Some(Torque(v)),
            None => None,
        }
    }

    /// The negated torque; exact.
    pub fn neg(&self) -> (r: Torque)
        requires
            self.wf(),
        ensures
            r.wf(),
            Some(r@) == mv_neg(Some(self@)),
    {
        Torque(self.0.neg())
    }

    /// The angular momentum imparted over `rhs` seconds.
    pub fn mul_secs(&self, rhs: Rat) -> (r: Option<AngMom>)
        requires
            self.wf(),
            rhs.wf(),
        ensures
            oview(r) == mv_scale(Some(self@), Some(rhs@)),
            r matches Some(v) ==> v.wf(),
    {
        match self.0.scale(rhs) {
            Some(v) => Some(AngMom(v)),
            None => None,
        }
    }
}

/// Mathematical value of a moment: its force and torque parts.
pub struct MomtV {
    pub force: V3,
    pub torque: V3,
}

/// The zero moment value.
pub open spec fn momt_zero() -> MomtV {
    MomtV { force: v3_zero(), torque: v3_zero() }
}

/// Checked sum of two moment values.
pub open spec fn momt_add(a: Option<MomtV>, b: Option<MomtV>) -> Option<MomtV> {
    match (a, b) {
        (Some(x), Some(y)) => match (mv_add(Some(x.force), Some(y.force)), mv_add(
            Some(x.torque),
            Some(y.torque),
        )) {
            (Some(f), Some(t)) => Some(MomtV { force: f, torque: t }),
            _ => None,
        },
        _ => None,
    }
}

/// Checked moment value from a force value and an application offset: the
/// torque is the offset crossed with the force.
pub open spec fn momt_from_force_and_offset(f: V3, offset: V3) -> Option<MomtV> {
    match mv_cross(Some(offset), Some(f)) {
        Some(t) => Some(MomtV { force: f, torque: t }),
        None => None,
    }
}

/// Checked magnitude of a moment value: the floor square root of the
/// product of the squared lengths of force and torque.
pub open spec fn momt_magnitude(m: MomtV) -> Option<Frac> {
    m_sqrt(m_mul(mv_dot(Some(m.force), Some(m.force)), mv_dot(Some(m.torque), Some(m.torque))))
}

/// Checked scaling of a moment value.
pub open spec fn momt_scalev(a: MomtV, k: Frac) -> Option<MomtV> {
    match (mv_scale(Some(a.force), Some(k)), mv_scale(Some(a.torque), Some(k))) {
        (Some(f), Some(t)) => Some(MomtV { force: f, torque: t }),
        _ => None,
    }
}

/// Checked scaling of a moment value over a time span, giving a momentum
/// increment.
pub open spec fn momt_mul_secs(m: MomtV, t: Frac) -> Option<MomV> {
    match (mv_scale(Some(m.force), Some(t)), mv_scale(Some(m.torque), Some(t))) {
        (Some(f), Some(q)) => Some(MomV { linear: f, angular: q }),
        _ => None,
    }
}

/// A generalized forcing term: a force and a torque.
#[derive(Clone, Copy, Debug, PartialEq, Eq, Structural)]
pub struct Moment {
    /// Linear force component.
    pub force: Force,
    /// Angular torque component.
    pub torque: Torque,
}

impl View for Moment {
    type V = MomtV;

    open spec fn view(&self) -> MomtV {
        MomtV { force: self.force@, torque: self.torque@ }
    }
}

impl Moment {
    /// Both components in stored form.
    pub open spec fn wf(self) -> bool {
        self.force.wf() && self.torque.wf()
    }

    /// A moment from its two components.
    pub fn new(force: Force, torque: Torque) -> (r: Moment)
        ensures
            r@ == (MomtV { force: force@, torque: torque@ }),
    {
        Moment { force, torque }
    }

    /// The zero moment.
    pub fn zero() -> (r: Moment)
        ensures
            r.wf(),
            r@ == momt_zero(),
    {
        Moment { force: Force::zero(), torque: Torque::zero() }
    }

    /// A moment with only a force component.
    pub fn from_force(force: Force) -> (r: Moment)
        ensures
            r@ == (MomtV { force: force@, torque: v3_zero() }),
    {
        Moment { force, torque: Torque::zero() }
    }

    /// A moment with only a torque component.
    pub fn from_torque(torque: Torque) -> (r: Moment)
        ensures
            r@ == (MomtV { force: v3_zero(), torque: torque@ }),
    {
        Moment { force: Force::zero(), torque }
    }

    /// A moment from raw force and torque vectors.
    pub fn from_vec3s(force: Vec3, torque: Vec3) -> (r: Moment)
        ensures
            r@ == (MomtV { force: force@, torque: torque@ }),
    {
        Moment { force: Force(force), torque: Torque(torque) }
    }

    /// A moment from a raw force vector only.
    pub fn from_force_vec3(v: Vec3) -> (r: Moment)
        ensures
            r@ == (MomtV { force: v@, torque: v3_zero() }),
    {
        Moment { force: Force(v), torque: Torque::zero() }
    }

    /// A moment from a raw torque vector only.
    pub fn from_torque_vec3(v: Vec3) -> (r: Moment)
        ensures
            r@ == (MomtV { force: v3_zero(), torque: v@ }),
    {
        Moment { force: Force::zero(), torque: Torque(v) }
    }

    /// A moment from a force applied at an offset from the centre of mass:
    /// the torque is the offset crossed with the force.
    pub fn from_force_and_offset(force: Force, offset: Vec3) -> (r: Option<Moment>)
        requires
            force.wf(),
            offset.wf3(),
        ensures
            oview(r) == momt_from_force_and_offset(force@, offset@),
            r matches Some(m) ==> m.wf(),
    {
        match offset.cross(&force.0) {
            Some(t) => Some(Moment { force, torque: Torque(t) }),
            None => None,
        }
    }

    /// The magnitude of the moment: the floor square root of the product
    /// of the squared lengths of force and torque.  Exactly zero whenever
    /// either part is zero.
    pub fn magnitude(&self) -> (r: Option<Rat>)
        requires
            self.wf(),
        ensures
            rat_opt(r) == momt_magnitude(self@),
            r matches Some(c) ==> c.wf(),
    {
        let ff = self.force.0.length_squared();
        let tt = self.torque.0.length_squared();
        let p = match (ff, tt) {
            (Some(a), Some(b)) => a.mul(b),
            _ => None,
        };
        match p {
            Some(v) => {
                if v.is_neg() {
                    return None;
                }
                Some(v.sqrt_floor())
            },
            None => None,
        }
    }

    /// The momentum imparted over `rhs` seconds.
    pub fn mul_secs(&self, rhs: Rat) -> (r: Option<Momentum>)
        requires
            self.wf(),
            rhs.wf(),
        ensures
            oview(r) == momt_mul_secs(self@, rhs@),
            r matches Some(v) ==> v.wf(),
    {
        let f = self.force.mul_secs(rhs);
        let t = self.torque.mul_secs(rhs);
        match (f, t) {
            (Some(a), Some(b)) => Some(Momentum { linear: a, angular: b }),
            _ => None,
        }
    }

    /// Componentwise sum.
    pub fn add(&self, o: &Moment) -> (r: Option<Moment>)
        requires
            self.wf(),
            o.wf(),
        ensures
            oview(r) == momt_add(Some(self@), Some(o@)),
            r matches Some(v) ==> v.wf(),
    {
        let f = self.force.add(&o.force);
        let t = self.torque.add(&o.torque);
        match (f, t) {
            (Some(a), Some(b)) => Some(Moment { force: a, torque: b }),
            _ => None,
        }
    }

    /// The moment scaled by `k`.
    pub fn scale(&self, k: Rat) -> (r: Option<Moment>)
        requires
            self.wf(),
            k.wf(),
        ensures
            oview(r) == momt_scalev(self@, k@),
            r matches Some(v) ==> v.wf(),
    {
        let f = self.force.scale(k);
        let t = self.torque.scale(k);
        match (f, t) {
            (Some(a), Some(b)) => Some(Moment { force: a, torque: b }),
            _ => None,
        }
    }
}

} // verus!
