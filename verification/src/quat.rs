//! Quaternions over exact rational scalars.
//!
//! A quaternion stands for an orientation or a rotation increment.  Because
//! rotating a vector divides by the squared norm, a quaternion need not be
//! normalized to act as a rotation: any nonzero scalar multiple acts
//! identically, which lets rotation increments stay exact.

use crate::rational::{frac_neg, frac_one, frac_zero, rat_opt, Frac, Rat};
use crate::vec3::{add_o, m_add, m_div, m_mul, m_sub, mul2, sub_o, v3_collect, vec_opt, wf_opt,
    Vec3, V3};
use vstd::prelude::*;

verus! {

/// Mathematical value of a quaternion: four unbounded fractions, `w` the
/// scalar part.
pub struct Q4 {
    pub x: Frac,
    pub y: Frac,
    pub z: Frac,
    pub w: Frac,
}

/// A quaternion from four optional components: present only when all are.
pub open spec fn q4_collect(x: Option<Frac>, y: Option<Frac>, z: Option<Frac>, w: Option<
    Frac>) -> Option<Q4> {
    match (x, y, z, w) {
        (Some(a), Some(b), Some(c), Some(d)) => Some(Q4 { x: a, y: b, z: c, w: d }),
        _ => None,
    }
}

/// The quaternion values behind an optional quaternion.
pub open spec fn quat_opt(r: Option<Quat>) -> Option<Q4> {
    match r {
        Some(q) => Some(q@),
        None => None,
    }
}

/// The identity quaternion value.
pub open spec fn q4_identity() -> Q4 {
    Q4 { x: frac_zero(), y: frac_zero(), z: frac_zero(), w: frac_one() }
}

/// Conjugate of a quaternion value; exact.
pub open spec fn q4_conj(q: Q4) -> Q4 {
    Q4 { x: frac_neg(q.x), y: frac_neg(q.y), z: frac_neg(q.z), w: q.w }
}

/// Whether any component of a quaternion value is nonzero.
pub open spec fn q4_nonzero(q: Q4) -> bool {
    q.x.n != 0 || q.y.n != 0 || q.z.n != 0 || q.w.n != 0
}

/// Checked Hamilton product of two optional quaternion values.
pub open spec fn mq_mul(a: Option<Q4>, b: Option<Q4>) -> Option<Q4> {
    match (a, b) {
        (Some(p), Some(q)) => q4_collect(
            m_sub(
                m_add(
                    m_add(m_mul(Some(p.w), Some(q.x)), m_mul(Some(p.x), Some(q.w))),
                    m_mul(Some(p.y), Some(q.z)),
                ),
                m_mul(Some(p.z), Some(q.y)),
            ),
            m_add(
                m_add(
                    m_sub(m_mul(Some(p.w), Some(q.y)), m_mul(Some(p.x), Some(q.z))),
                    m_mul(Some(p.y), Some(q.w)),
                ),
                m_mul(Some(p.z), Some(q.x)),
            ),
            m_add(
                m_sub(
                    m_add(m_mul(Some(p.w), Some(q.z)), m_mul(Some(p.x), Some(q.y))),
                    m_mul(Some(p.y), Some(q.x)),
                ),
                m_mul(Some(p.z), Some(q.w)),
            ),
            m_sub(
                m_sub(
                    m_sub(m_mul(Some(p.w), Some(q.w)), m_mul(Some(p.x), Some(q.x))),
                    m_mul(Some(p.y), Some(q.y)),
                ),
                m_mul(Some(p.z), Some(q.z)),
            ),
        ),
        _ => None,
    }
}

/// Checked squared norm of an optional quaternion value.
pub open spec fn mq_norm_sq(a: Option<Q4>) -> Option<Frac> {
    match a {
        Some(q) => m_add(
            m_add(
                m_add(m_mul(Some(q.x), Some(q.x)), m_mul(Some(q.y), Some(q.y))),
                m_mul(Some(q.z), Some(q.z)),
            ),
            m_mul(Some(q.w), Some(q.w)),
        ),
        None => None,
    }
}

/// Checked rotation of a vector value by a quaternion value: the vector part
/// of `q * (v, 0) * conj(q)`, divided by the squared norm.
pub open spec fn mq_rotate(a: Option<Q4>, v: Option<V3>) -> Option<V3> {
    match (a, v) {
        (Some(q), Some(u)) => match mq_norm_sq(Some(q)) {
            Some(s) => if s.n == 0 {
                None
            } else {
                match mq_mul(
                    mq_mul(Some(q), Some(Q4 { x: u.x, y: u.y, z: u.z, w: frac_zero() })),
                    Some(q4_conj(q)),
                ) {
                    Some(t) => v3_collect(
                        m_div(Some(t.x), Some(s)),
                        m_div(Some(t.y), Some(s)),
                        m_div(Some(t.z), Some(s)),
                    ),
                    None => None,
                }
            },
            None => None,
        },
        _ => None,
    }
}

/// A quaternion of exact rational scalars; `w` is the scalar part.
#[derive(Clone, Copy, Debug, PartialEq, Eq, Structural)]
pub struct Quat {
    pub x: Rat,
    pub y: Rat,
    pub z: Rat,
    pub w: Rat,
}

impl View for Quat {
    type V = Q4;

    open spec fn view(&self) -> Q4 {
        Q4 { x: self.x@, y: self.y@, z: self.z@, w: self.w@ }
    }
}

impl Quat {
    /// All components in stored form.
    pub open spec fn wf4(self) -> bool {
        self.x.wf() && self.y.wf() && self.z.wf() && self.w.wf()
    }

    /// A quaternion from its four components, vector part first.
    pub fn from_xyzw(x: Rat, y: Rat, z: Rat, w: Rat) -> (r: Quat)
        ensures
            r@ == (Q4 { x: x@, y: y@, z: z@, w: w@ }),
    {
        Quat { x, y, z, w }
    }

    /// The identity quaternion: no rotation.
    pub fn identity() -> (r: Quat)
        ensures
            r.wf4(),
            r@ == q4_identity(),
    {
        Quat { x: Rat::zero(), y: Rat::zero(), z: Rat::zero(), w: Rat::one() }
    }

    /// Hamilton product `self * o`.
    pub fn mul(&self, o: &Quat) -> (r: Option<Quat>)
        requires
            self.wf4(),
            o.wf4(),
        ensures
            quat_opt(r) == mq_mul(Some(self@), Some(o@)),
            r matches Some(q) ==> q.wf4(),
    {
        let x = sub_o(
            add_o(add_o(mul2(self.w, o.x), mul2(self.x, o.w)), mul2(self.y, o.z)),
            mul2(self.z, o.y),
        );
        let y = add_o(
            add_o(sub_o(mul2(self.w, o.y), mul2(self.x, o.z)), mul2(self.y, o.w)),
            mul2(self.z, o.x),
        );
        let z = add_o(
            sub_o(add_o(mul2(self.w, o.z), mul2(self.x, o.y)), mul2(self.y, o.x)),
            mul2(self.z, o.w),
        );
        let w = sub_o(
            sub_o(sub_o(mul2(self.w, o.w), mul2(self.x, o.x)), mul2(self.y, o.y)),
            mul2(self.z, o.z),
        );
        match (x, y, z, w) {
            (Some(a), Some(b), Some(c), Some(d)) => Some(Quat { x: a, y: b, z: c, w: d }),
            _ => None,
        }
    }

    /// Conjugate: the vector part negated; exact.
    pub fn conjugate(&self) -> (r: Quat)
        requires
            self.wf4(),
        ensures
            r.wf4(),
            r@ == q4_conj(self@),
    {
        Quat { x: self.x.neg(), y: self.y.neg(), z: self.z.neg(), w: self.w }
    }

    /// Squared norm, summed left to right.
    pub fn norm_sq(&self) -> (r: Option<Rat>)
        requires
            self.wf4(),
        ensures
            rat_opt(r) == mq_norm_sq(Some(self@)),
            wf_opt(r),
    {
        add_o(
            add_o(add_o(mul2(self.x, self.x), mul2(self.y, self.y)), mul2(self.z, self.z)),
            mul2(self.w, self.w),
        )
    }

    /// Rotate a vector: the vector part of `self * (v, 0) * conj(self)`,
    /// divided by the squared norm.  Agrees with applying the normalized
    /// quaternion as a rotation; `None` when the quaternion is zero or a
    /// step leaves the representable range.
    pub fn mul_vec3(&self, v: &Vec3) -> (r: Option<Vec3>)
        requires
            self.wf4(),
            v.wf3(),
        ensures
            vec_opt(r) == mq_rotate(Some(self@), Some(v@)),
            r matches Some(u) ==> u.wf3(),
    {
        let ns = self.norm_sq();
        match ns {
            Some(s) => {
                if s.is_zero() {
                    return None;
                }
                let pure = Quat { x: v.x, y: v.y, z: v.z, w: Rat::zero() };
                proof {
                    assert(pure@ == (Q4 { x: v@.x, y: v@.y, z: v@.z, w: frac_zero() }));
                }
                let t0 = self.mul(&pure);
                match t0 {
                    Some(t1) => {
                        let c = self.conjugate();
                        match t1.mul(&c) {
                            Some(t) => {
                                let x = t.x.div(s);
                                let y = t.y.div(s);
                                let z = t.z.div(s);
                                match (x, y, z) {
                                    (Some(a), Some(b), Some(c2)) => Some(
                                        Vec3 { x: a, y: b, z: c2 },
                                    ),
                                    _ => None,
                                }
                            },
                            None => None,
                        }
                    },
                    None => None,
                }
            },
            None => None,
        }
    }
}

} // verus!
