//! Three-component vectors of exact rational scalars.
//!
//! The mathematical value of a vector is a [`V3`] of unbounded fractions;
//! the executable [`Vec3`] holds three [`Rat`] scalars.  Checked operations
//! mirror the scalar combinators componentwise: a result is `None` exactly
//! when one of its components cannot be represented.

use crate::rational::{chk, frac_add, frac_div, frac_mul, frac_neg, frac_sub, frac_zero, m_sqrt,
    rat_opt, Frac, Rat};
use vstd::prelude::*;

verus! {

/// Mathematical value of a vector: three unbounded fractions.
pub struct V3 {
    pub x: Frac,
    pub y: Frac,
    pub z: Frac,
}

/// Checked sum of two optional fraction values.
pub open spec fn m_add(a: Option<Frac>, b: Option<Frac>) -> Option<Frac> {
    match (a, b) {
        (Some(x), Some(y)) => chk(frac_add(x, y)),
        _ => None,
    }
}

/// Checked difference of two optional fraction values.
pub open spec fn m_sub(a: Option<Frac>, b: Option<Frac>) -> Option<Frac> {
    match (a, b) {
        (Some(x), Some(y)) => chk(frac_sub(x, y)),
        _ => None,
    }
}

/// Checked product of two optional fraction values.
pub open spec fn m_mul(a: Option<Frac>, b: Option<Frac>) -> Option<Frac> {
    match (a, b) {
        (Some(x), Some(y)) => chk(frac_mul(x, y)),
        _ => None,
    }
}

/// Checked quotient of two optional fraction values; division by zero gives
/// nothing.
pub open spec fn m_div(a: Option<Frac>, b: Option<Frac>) -> Option<Frac> {
    match (a, b) {
        (Some(x), Some(y)) => if y.n != 0 {
            chk(frac_div(x, y))
        } else {
            None
        },
        _ => None,
    }
}

/// Negation of an optional fraction value; exact.
pub open spec fn m_neg(a: Option<Frac>) -> Option<Frac> {
    match a {
        Some(x) => Some(frac_neg(x)),
        None => None,
    }
}

/// A vector from three optional components: present only when all are.
pub open spec fn v3_collect(x: Option<Frac>, y: Option<Frac>, z: Option<Frac>) -> Option<V3> {
    match (x, y, z) {
        (Some(a), Some(b), Some(c)) => Some(V3 { x: a, y: b, z: c }),
        _ => None,
    }
}

/// The vector values behind an optional vector.
pub open spec fn vec_opt(r: Option<Vec3>) -> Option<V3> {
    match r {
        Some(v) => Some(v@),
        None => None,
    }
}

/// Componentwise checked sum.
pub open spec fn mv_add(a: Option<V3>, b: Option<V3>) -> Option<V3> {
    match (a, b) {
        (Some(u), Some(v)) => v3_collect(
            m_add(Some(u.x), Some(v.x)),
            m_add(Some(u.y), Some(v.y)),
            m_add(Some(u.z), Some(v.z)),
        ),
        _ => None,
    }
}

/// Componentwise checked difference.
pub open spec fn mv_sub(a: Option<V3>, b: Option<V3>) -> Option<V3> {
    match (a, b) {
        (Some(u), Some(v)) => v3_collect(
            m_sub(Some(u.x), Some(v.x)),
            m_sub(Some(u.y), Some(v.y)),
            m_sub(Some(u.z), Some(v.z)),
        ),
        _ => None,
    }
}

/// Checked scaling of a vector by a scalar.
pub open spec fn mv_scale(a: Option<V3>, s: Option<Frac>) -> Option<V3> {
    match (a, s) {
        (Some(u), Some(k)) => v3_collect(
            m_mul(Some(u.x), Some(k)),
            m_mul(Some(u.y), Some(k)),
            m_mul(Some(u.z), Some(k)),
        ),
        _ => None,
    }
}

/// Checked division of a vector by a scalar.
pub open spec fn mv_div(a: Option<V3>, s: Option<Frac>) -> Option<V3> {
    match (a, s) {
        (Some(u), Some(k)) => v3_collect(
            m_div(Some(u.x), Some(k)),
            m_div(Some(u.y), Some(k)),
            m_div(Some(u.z), Some(k)),
        ),
        _ => None,
    }
}

/// Negation of a vector value; exact.
pub open spec fn mv_neg(a: Option<V3>) -> Option<V3> {
    match a {
        Some(u) => Some(V3 { x: frac_neg(u.x), y: frac_neg(u.y), z: frac_neg(u.z) }),
        None => None,
    }
}

/// Checked dot product, summed left to right.
pub open spec fn mv_dot(a: Option<V3>, b: Option<V3>) -> Option<Frac> {
    match (a, b) {
        (Some(u), Some(v)) => m_add(
            m_add(m_mul(Some(u.x), Some(v.x)), m_mul(Some(u.y), Some(v.y))),
            m_mul(Some(u.z), Some(v.z)),
        ),
        _ => None,
    }
}

/// Checked cross product.
pub open spec fn mv_cross(a: Option<V3>, b: Option<V3>) -> Option<V3> {
    match (a, b) {
        (Some(u), Some(v)) => v3_collect(
            m_sub(m_mul(Some(u.y), Some(v.z)), m_mul(Some(u.z), Some(v.y))),
            m_sub(m_mul(Some(u.z), Some(v.x)), m_mul(Some(u.x), Some(v.z))),
            m_sub(m_mul(Some(u.x), Some(v.y)), m_mul(Some(u.y), Some(v.x))),
        ),
        _ => None,
    }
}

/// Checked normalization of a vector value: the vector divided by the
/// floor square root of its squared length; the zero vector stays zero.
pub open spec fn mv_normalize_or_zero(v: V3) -> Option<V3> {
    if v.x.n == 0 && v.y.n == 0 && v.z.n == 0 {
        Some(v3_zero())
    } else {
        match m_sqrt(mv_dot(Some(v), Some(v))) {
            Some(l) => if l.n == 0 {
                None
            } else {
                mv_div(Some(v), Some(l))
            },
            None => None,
        }
    }
}

/// The vector whose components are all zero.
pub open spec fn v3_zero() -> V3 {
    V3 { x: frac_zero(), y: frac_zero(), z: frac_zero() }
}

/// A vector of exact rational scalars.
#[derive(Clone, Copy, Debug, PartialEq, Eq, Structural)]
pub struct Vec3 {
    pub x: Rat,
    pub y: Rat,
    pub z: Rat,
}

impl View for Vec3 {
    type V = V3;

    open spec fn view(&self) -> V3 {
        V3 { x: self.x@, y: self.y@, z: self.z@ }
    }
}

impl Vec3 {
    /// All components in stored form.
    pub open spec fn wf3(self) -> bool {
        self.x.wf() && self.y.wf() && self.z.wf()
    }

    /// A vector from three scalars.
    pub fn new(x: Rat, y: Rat, z: Rat) -> (r: Vec3)
        ensures
            r@ == (V3 { x: x@, y: y@, z: z@ }),
    {
        Vec3 { x, y, z }
    }

    /// The zero vector.
    pub fn zero() -> (r: Vec3)
        ensures
            r.wf3(),
            r@ == v3_zero(),
    {
        Vec3 { x: Rat::zero(), y: Rat::zero(), z: Rat::zero() }
    }

    /// Componentwise sum.
    pub fn add(&self, o: &Vec3) -> (r: Option<Vec3>)
        requires
            self.wf3(),
            o.wf3(),
        ensures
            vec_opt(r) == mv_add(Some(self@), Some(o@)),
            r matches Some(v) ==> v.wf3(),
    {
        let x = self.x.add(o.x);
        let y = self.y.add(o.y);
        let z = self.z.add(o.z);
        match (x, y, z) {
            (Some(a), Some(b), Some(c)) => Some(Vec3 { x: a, y: b, z: c }),
            _ => None,
        }
    }

    /// Componentwise difference.
    pub fn sub(&self, o: &Vec3) -> (r: Option<Vec3>)
        requires
            self.wf3(),
            o.wf3(),
        ensures
            vec_opt(r) == mv_sub(Some(self@), Some(o@)),
            r matches Some(v) ==> v.wf3(),
    {
        let x = self.x.sub(o.x);
        let y = self.y.sub(o.y);
        let z = self.z.sub(o.z);
        match (x, y, z) {
            (Some(a), Some(b), Some(c)) => Some(Vec3 { x: a, y: b, z: c }),
            _ => None,
        }
    }

    /// The vector scaled by `k`.
    pub fn scale(&self, k: Rat) -> (r: Option<Vec3>)
        requires
            self.wf3(),
            k.wf(),
        ensures
            vec_opt(r) == mv_scale(Some(self@), Some(k@)),
            r matches Some(v) ==> v.wf3(),
    {
        let x = self.x.mul(k);
        let y = self.y.mul(k);
        let z = self.z.mul(k);
        match (x, y, z) {
            (Some(a), Some(b), Some(c)) => Some(Vec3 { x: a, y: b, z: c }),
            _ => None,
        }
    }

    /// The vector divided by a nonzero scalar.
    pub fn div_scalar(&self, k: Rat) -> (r: Option<Vec3>)
        requires
            self.wf3(),
            k.wf(),
            k@.n != 0,
        ensures
            vec_opt(r) == mv_div(Some(self@), Some(k@)),
            r matches Some(v) ==> v.wf3(),
    {
        let x = self.x.div(k);
        let y = self.y.div(k);
        let z = self.z.div(k);
        match (x, y, z) {
            (Some(a), Some(b), Some(c)) => Some(Vec3 { x: a, y: b, z: c }),
            _ => None,
        }
    }

    /// The negated vector; exact.
    pub fn neg(&self) -> (r: Vec3)
        requires
            self.wf3(),
        ensures
            r.wf3(),
            Some(r@) == mv_neg(Some(self@)),
    {
        Vec3 { x: self.x.neg(), y: self.y.neg(), z: self.z.neg() }
    }

    /// Dot product, summed left to right.
    pub fn dot(&self, o: &Vec3) -> (r: Option<Rat>)
        requires
            self.wf3(),
            o.wf3(),
        ensures
            rat_opt(r) == mv_dot(Some(self@), Some(o@)),
            r matches Some(c) ==> c.wf(),
    {
        let xx = self.x.mul(o.x);
        let yy = self.y.mul(o.y);
        let zz = self.z.mul(o.z);
        match (xx, yy, zz) {
            (Some(a), Some(b), Some(c)) => match a.add(b) {
                Some(ab) => ab.add(c),
                None => None,
            },
            _ => None,
        }
    }

    /// Cross product.
    pub fn cross(&self, o: &Vec3) -> (r: Option<Vec3>)
        requires
            self.wf3(),
            o.wf3(),
        ensures
            vec_opt(r) == mv_cross(Some(self@), Some(o@)),
            r matches Some(v) ==> v.wf3(),
    {
        let x = match (self.y.mul(o.z), self.z.mul(o.y)) {
            (Some(a), Some(b)) => a.sub(b),
            _ => None,
        };
        let y = match (self.z.mul(o.x), self.x.mul(o.z)) {
            (Some(a), Some(b)) => a.sub(b),
            _ => None,
        };
        let z = match (self.x.mul(o.y), self.y.mul(o.x)) {
            (Some(a), Some(b)) => a.sub(b),
            _ => None,
        };
        match (x, y, z) {
            (Some(a), Some(b), Some(c)) => Some(Vec3 { x: a, y: b, z: c }),
            _ => None,
        }
    }

    /// The vector divided by the floor square root of its squared length,
    /// or the zero vector for the zero vector.  Exact whenever the squared
    /// length is a perfect rational square.
    pub fn normalize_or_zero(&self) -> (r: Option<Vec3>)
        requires
            self.wf3(),
        ensures
            vec_opt(r) == mv_normalize_or_zero(self@),
            r matches Some(v) ==> v.wf3(),
    {
        if self.x.is_zero() && self.y.is_zero() && self.z.is_zero() {
            return Some(Vec3::zero());
        }
        let ls = self.dot(self);
        match ls {
            Some(s) => {
                if s.is_neg() {
                    return None;
                }
                let l = s.sqrt_floor();
                if l.is_zero() {
                    return None;
                }
                self.div_scalar(l)
            },
            None => None,
        }
    }

    /// Squared Euclidean length, summed left to right.
    pub fn length_squared(&self) -> (r: Option<Rat>)
        requires
            self.wf3(),
        ensures
            rat_opt(r) == mv_dot(Some(self@), Some(self@)),
            r matches Some(c) ==> c.wf(),
    {
        self.dot(self)
    }
}

/// The values behind an optional result of any viewable type.
pub open spec fn oview<T: View>(r: Option<T>) -> Option<<T as View>::V> {
    match r {
        Some(v) => Some(v@),
        None => None,
    }
}

/// Whether an optional scalar is present and in stored form.
pub open spec fn wf_opt(r: Option<Rat>) -> bool {
    match r {
        Some(c) => c.wf(),
        None => true,
    }
}

/// Checked sum of two partial scalar results.
pub fn add_o(a: Option<Rat>, b: Option<Rat>) -> (r: Option<Rat>)
    requires
        wf_opt(a),
        wf_opt(b),
    ensures
        rat_opt(r) == m_add(rat_opt(a), rat_opt(b)),
        wf_opt(r),
{
    match (a, b) {
        (Some(x), Some(y)) => x.add(y),
        _ => None,
    }
}

/// Checked difference of two partial scalar results.
pub fn sub_o(a: Option<Rat>, b: Option<Rat>) -> (r: Option<Rat>)
    requires
        wf_opt(a),
        wf_opt(b),
    ensures
        rat_opt(r) == m_sub(rat_opt(a), rat_opt(b)),
        wf_opt(r),
{
    match (a, b) {
        (Some(x), Some(y)) => x.sub(y),
        _ => None,
    }
}

/// Checked product of two partial scalar results.
pub fn mul_o(a: Option<Rat>, b: Option<Rat>) -> (r: Option<Rat>)
    requires
        wf_opt(a),
        wf_opt(b),
    ensures
        rat_opt(r) == m_mul(rat_opt(a), rat_opt(b)),
        wf_opt(r),
{
    match (a, b) {
        (Some(x), Some(y)) => x.mul(y),
        _ => None,
    }
}

/// Checked quotient of a partial scalar result by a nonzero scalar.
pub fn div_o(a: Option<Rat>, b: Rat) -> (r: Option<Rat>)
    requires
        wf_opt(a),
        b.wf(),
        b@.n != 0,
    ensures
        rat_opt(r) == m_div(rat_opt(a), Some(b@)),
        wf_opt(r),
{
    match a {
        Some(x) => x.div(b),
        None => None,
    }
}

/// Checked product of two scalars, as a partial result.
pub fn mul2(a: Rat, b: Rat) -> (r: Option<Rat>)
    requires
        a.wf(),
        b.wf(),
    ensures
        rat_opt(r) == m_mul(Some(a@), Some(b@)),
        wf_opt(r),
{
    a.mul(b)
}

} // verus!
