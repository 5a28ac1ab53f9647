//! Spatial pose: translation, rotation, and their combination.
//!
//! Rotation composition is quaternion multiplication in one fixed order:
//! composing `a` with `b` yields `b` applied after `a`, that is
//! `b.quaternion * a.quaternion`.  Composition is not commutative, so the
//! order is part of the contract.  The additive operations on [`Transform`]
//! combine translations as vectors and rotations by this composition rule:
//! the integrator treats a transform as a single additive quantity even
//! though rotations form no vector space, and that approximation is
//! deliberate.

use crate::quat::{mq_mul, mq_norm_sq, q4_conj, q4_identity, Quat, Q4};
use crate::rational::{frac_zero, m_sqrt, Frac, Rat};
use crate::vec3::{m_div, mv_add, mv_neg, mv_scale, mv_sub, oview, v3_zero, Vec3, V3};
use vstd::prelude::*;

verus! {

/// A displacement in space, in metres, world frame.
#[derive(Clone, Copy, Debug, PartialEq, Eq, Structural)]
pub struct Translation(pub Vec3);

impl View for Translation {
    type V = V3;

    open spec fn view(&self) -> V3 {
        self.0@
    }
}

impl Translation {
    /// All components in stored form.
    pub open spec fn wf(self) -> bool {
        self.0.wf3()
    }

    /// The displacement with the given three components.
    pub fn new(x: Rat, y: Rat, z: Rat) -> (r: Translation)
        requires
            x.wf(),
            y.wf(),
            z.wf(),
        ensures
            r.wf(),
            r@ == (V3 { x: x@, y: y@, z: z@ }),
    {
        Translation(Vec3::new(x, y, z))
    }

    /// The displacement carried by an existing vector.
    pub fn from_vec3(v: Vec3) -> (r: Translation)
        requires
            v.wf3(),
        ensures
            r.wf(),
            r@ == v@,
    {
        Translation(v)
    }

    /// The zero translation.
    pub fn zero() -> (r: Translation)
        ensures
            r.wf(),
            r@ == v3_zero(),
    {
        Translation(Vec3::zero())
    }

    /// A translation with every component equal to `v`.
    pub fn splat(v: Rat) -> (r: Translation)
        requires
            v.wf(),
        ensures
            r.wf(),
            r@ == (V3 { x: v@, y: v@, z: v@ }),
    {
        Translation(Vec3::new(v, v, v))
    }

    /// A translation along the first axis only.
    pub fn from_x(x: Rat) -> (r: Translation)
        requires
            x.wf(),
        ensures
            r.wf(),
            r@ == (V3 { x: x@, y: frac_zero(), z: frac_zero() }),
    {
        Translation(Vec3::new(x, Rat::zero(), Rat::zero()))
    }

    /// A translation along the second axis only.
    pub fn from_y(y: Rat) -> (r: Translation)
        requires
            y.wf(),
        ensures
            r.wf(),
            r@ == (V3 { x: frac_zero(), y: y@, z: frac_zero() }),
    {
        Translation(Vec3::new(Rat::zero(), y, Rat::zero()))
    }

    /// A translation along the third axis only.
    pub fn from_z(z: Rat) -> (r: Translation)
        requires
            z.wf(),
        ensures
            r.wf(),
            r@ == (V3 { x: frac_zero(), y: frac_zero(), z: z@ }),
    {
        Translation(Vec3::new(Rat::zero(), Rat::zero(), z))
    }

    /// Componentwise sum.
    pub fn add(&self, o: &Translation) -> (r: Option<Translation>)
        requires
            self.wf(),
            o.wf(),
        ensures
            oview(r) == mv_add(Some(self@), Some(o@)),
            r matches Some(v) ==> v.wf(),
    {
        match self.0.add(&o.0) {
            Some(v) => Some(Translation(v)),
            None => None,
        }
    }

    /// Componentwise difference.
    pub fn sub(&self, o: &Translation) -> (r: Option<Translation>)
        requires
            self.wf(),
            o.wf(),
        ensures
            oview(r) == mv_sub(Some(self@), Some(o@)),
            r matches Some(v) ==> v.wf(),
    {
        match self.0.sub(&o.0) {
            Some(v) => Some(Translation(v)),
            None => None,
        }
    }

    /// The translation scaled by `k`.
    pub fn scale(&self, k: Rat) -> (r: Option<Translation>)
        requires
            self.wf(),
            k.wf(),
        ensures
            oview(r) == mv_scale(Some(self@), Some(k@)),
            r matches Some(v) ==> v.wf(),
    {
        match self.0.scale(k) {
            Some(v) => Some(Translation(v)),
            None => None,
        }
    }

    /// The negated translation; exact.
    pub fn neg(&self) -> (r: Translation)
        requires
            self.wf(),
        ensures
            r.wf(),
            Some(r@) == mv_neg(Some(self@)),
    {
        Translation(self.0.neg())
    }

    /// The translation with its first component replaced.
    pub fn with_x(&self, x: Rat) -> (r: Translation)
        requires
            self.wf(),
            x.wf(),
        ensures
            r.wf(),
            r@ == (V3 { x: x@, y: self@.y, z: self@.z }),
    {
        Translation(Vec3 { x, y: self.0.y, z: self.0.z })
    }

    /// The translation with its second component replaced.
    pub fn with_y(&self, y: Rat) -> (r: Translation)
        requires
            self.wf(),
            y.wf(),
        ensures
            r.wf(),
            r@ == (V3 { x: self@.x, y: y@, z: self@.z }),
    {
        Translation(Vec3 { x: self.0.x, y, z: self.0.z })
    }

    /// The translation with its third component replaced.
    pub fn with_z(&self, z: Rat) -> (r: Translation)
        requires
            self.wf(),
            z.wf(),
        ensures
            r.wf(),
            r@ == (V3 { x: self@.x, y: self@.y, z: z@ }),
    {
        Translation(Vec3 { x: self.0.x, y: self.0.y, z })
    }
}


/// Normalization of a rotation value: each component divided by the floor
/// square root of the squared norm.  Exact whenever the squared norm is a
/// perfect rational square.
pub open spec fn rot_normalize(q: Q4) -> Option<Q4> {
    match mq_norm_sq(Some(q)) {
        Some(s) => if s.n <= 0 {
            None
        } else {
            match m_sqrt(Some(s)) {
                Some(l) => if l.n == 0 {
                    None
                } else {
                    match (
                        m_div(Some(q.x), Some(l)),
                        m_div(Some(q.y), Some(l)),
                        m_div(Some(q.z), Some(l)),
                        m_div(Some(q.w), Some(l)),
                    ) {
                        (Some(a), Some(b), Some(c), Some(d)) => Some(Q4 { x: a, y: b, z: c, w: d }),
                        _ => None,
                    }
                },
                None => None,
            }
        },
        None => None,
    }
}

/// An orientation in space: a quaternion acting as a rotation.  Any nonzero
/// scalar multiple acts as the same rotation, so exact composition needs no
/// renormalization; [`Rotation::normalize`] is offered to shrink the stored
/// numbers.
#[derive(Clone, Copy, Debug, PartialEq, Eq, Structural)]
pub struct Rotation(pub Quat);

impl View for Rotation {
    type V = Q4;

    open spec fn view(&self) -> Q4 {
        self.0@
    }
}

impl Rotation {
    /// The quaternion is in stored form.
    pub open spec fn wf(self) -> bool {
        self.0.wf4()
    }

    /// The identity rotation.
    pub fn zero() -> (r: Rotation)
        ensures
            r.wf(),
            r@ == q4_identity(),
    {
        Rotation(Quat::identity())
    }

    /// A rotation from a quaternion.
    pub fn new(ang: Quat) -> (r: Rotation)
        ensures
            r@ == ang@,
    {
        Rotation(ang)
    }

    /// This rotation followed by `o`: the quaternion product
    /// `o.quaternion * self.quaternion`.
    pub fn compose(&self, o: &Rotation) -> (r: Option<Rotation>)
        requires
            self.wf(),
            o.wf(),
        ensures
            oview(r) == mq_mul(Some(o@), Some(self@)),
            r matches Some(v) ==> v.wf(),
    {
        match o.0.mul(&self.0) {
            Some(q) => Some(Rotation(q)),
            None => None,
        }
    }

    /// This rotation followed by the inverse of `o`: the quaternion product
    /// `conj(o.quaternion) * self.quaternion`.
    pub fn compose_inverse(&self, o: &Rotation) -> (r: Option<Rotation>)
        requires
            self.wf(),
            o.wf(),
        ensures
            oview(r) == mq_mul(Some(q4_conj(o@)), Some(self@)),
            r matches Some(v) ==> v.wf(),
    {
        let c = o.0.conjugate();
        match c.mul(&self.0) {
            Some(q) => Some(Rotation(q)),
            None => None,
        }
    }

    /// The inverse rotation: the conjugate quaternion; exact.
    pub fn inverse(&self) -> (r: Rotation)
        requires
            self.wf(),
        ensures
            r.wf(),
            r@ == q4_conj(self@),
    {
        Rotation(self.0.conjugate())
    }

    /// The rotation with its quaternion divided by the floor square root of
    /// its squared norm: exact when that norm is a perfect rational square,
    /// and the way accumulated magnitude drift is shed.  In the
    /// perfect-square case the result is exactly unit: the law
    /// [`crate::laws::law_normalize_unit`] proves its squared norm has the
    /// value one.
    pub fn normalize(&self) -> (r: Option<Rotation>)
        requires
            self.wf(),
        ensures
            oview(r) == rot_normalize(self@),
            r matches Some(v) ==> v.wf(),
    {
        let ns = self.0.norm_sq();
        match ns {
            Some(s) => {
                if s.is_neg() || s.is_zero() {
                    return None;
                }
                let l = s.sqrt_floor();
                if l.is_zero() {
                    return None;
                }
                let x = self.0.x.div(l);
                let y = self.0.y.div(l);
                let z = self.0.z.div(l);
                let w = self.0.w.div(l);
                match (x, y, z, w) {
                    (Some(a), Some(b), Some(c), Some(d)) => Some(
                        Rotation(Quat { x: a, y: b, z: c, w: d }),
                    ),
                    _ => None,
                }
            },
            None => None,
        }
    }
}

/// Mathematical value of a transform: a translation vector and a rotation
/// quaternion.
pub struct TV {
    pub translation: V3,
    pub rotation: Q4,
}

/// A spatial pose: a translation and a rotation.
#[derive(Clone, Copy, Debug, PartialEq, Eq, Structural)]
pub struct Transform {
    /// The translation component of the pose.
    pub translation: Translation,
    /// The rotation component of the pose.
    pub rotation: Rotation,
}

impl View for Transform {
    type V = TV;

    open spec fn view(&self) -> TV {
        TV { translation: self.translation@, rotation: self.rotation@ }
    }
}

/// Checked combination of two transform values: translations add as
/// vectors, rotations compose in the fixed order.
pub open spec fn tf_add(a: TV, b: TV) -> Option<TV> {
    match (mv_add(Some(a.translation), Some(b.translation)), mq_mul(
        Some(b.rotation),
        Some(a.rotation),
    )) {
        (Some(t), Some(q)) => Some(TV { translation: t, rotation: q }),
        _ => None,
    }
}

/// Checked difference of two transform values: translations subtract,
/// rotations compose with the inverse.
pub open spec fn tf_sub(a: TV, b: TV) -> Option<TV> {
    match (mv_sub(Some(a.translation), Some(b.translation)), mq_mul(
        Some(q4_conj(b.rotation)),
        Some(a.rotation),
    )) {
        (Some(t), Some(q)) => Some(TV { translation: t, rotation: q }),
        _ => None,
    }
}

impl Transform {
    /// Both components in stored form.
    pub open spec fn wf(self) -> bool {
        self.translation.wf() && self.rotation.wf()
    }

    /// A transform from its two components.
    pub fn new(lin: Translation, ang: Rotation) -> (r: Transform)
        ensures
            r@ == (TV { translation: lin@, rotation: ang@ }),
    {
        Transform { translation: lin, rotation: ang }
    }

    /// The identity transform: no displacement, no rotation.
    pub fn zero() -> (r: Transform)
        ensures
            r.wf(),
            r@ == (TV { translation: v3_zero(), rotation: q4_identity() }),
    {
        Transform { translation: Translation::zero(), rotation: Rotation::zero() }
    }

    /// A transform with only a translation component.
    pub fn from_translation(v: Translation) -> (r: Transform)
        ensures
            r@ == (TV { translation: v@, rotation: q4_identity() }),
    {
        Transform { translation: v, rotation: Rotation::zero() }
    }

    /// A transform with only a rotation component.
    pub fn from_rotation(v: Rotation) -> (r: Transform)
        ensures
            r@ == (TV { translation: v3_zero(), rotation: v@ }),
    {
        Transform { translation: Translation::zero(), rotation: v }
    }

    /// A transform from a raw position vector and quaternion.
    pub fn from_inner(pos: Vec3, rot: Quat) -> (r: Transform)
        ensures
            r@ == (TV { translation: pos@, rotation: rot@ }),
    {
        Transform { translation: Translation(pos), rotation: Rotation(rot) }
    }

    /// A transform from a position vector, with no rotation.
    pub fn from_vec3(v: Vec3) -> (r: Transform)
        ensures
            r@ == (TV { translation: v@, rotation: q4_identity() }),
    {
        Transform { translation: Translation(v), rotation: Rotation::zero() }
    }

    /// A transform from a rotation quaternion, with no displacement.
    pub fn from_quat(v: Quat) -> (r: Transform)
        ensures
            r@ == (TV { translation: v3_zero(), rotation: v@ }),
    {
        Transform { translation: Translation::zero(), rotation: Rotation(v) }
    }

    /// Combine with another transform: translations add, rotations compose
    /// with `o` applied after `self`.
    pub fn add(&self, o: &Transform) -> (r: Option<Transform>)
        requires
            self.wf(),
            o.wf(),
        ensures
            oview(r) == tf_add(self@, o@),
            r matches Some(v) ==> v.wf(),
    {
        let t = self.translation.add(&o.translation);
        let q = self.rotation.compose(&o.rotation);
        match (t, q) {
            (Some(a), Some(b)) => Some(Transform { translation: a, rotation: b }),
            _ => None,
        }
    }

    /// Remove another transform: translations subtract, rotations compose
    /// with the inverse of `o`.
    pub fn sub(&self, o: &Transform) -> (r: Option<Transform>)
        requires
            self.wf(),
            o.wf(),
        ensures
            oview(r) == tf_sub(self@, o@),
            r matches Some(v) ==> v.wf(),
    {
        let t = self.translation.sub(&o.translation);
        let q = self.rotation.compose_inverse(&o.rotation);
        match (t, q) {
            (Some(a), Some(b)) => Some(Transform { translation: a, rotation: b }),
            _ => None,
        }
    }

    /// The inverse pose: translation negated, rotation inverted; exact.
    pub fn neg(&self) -> (r: Transform)
        requires
            self.wf(),
        ensures
            r.wf(),
            Some(Some(r@.translation)) == Some(mv_neg(Some(self@.translation))),
            r@.rotation == q4_conj(self@.rotation),
    {
        Transform { translation: self.translation.neg(), rotation: self.rotation.inverse() }
    }
}

} // verus!
