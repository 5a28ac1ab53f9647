//! Three-by-three matrices of exact rational scalars, stored by columns.
//!
//! A matrix carries an inertia tensor or a rotation.  The inverse is the
//! adjugate divided by the determinant, so it is exact whenever it exists;
//! a singular matrix is reported, never silently approximated.

use crate::quat::{mq_norm_sq, Quat, Q4};
use crate::rational::{frac_int, rat_opt, Frac, Rat};
use crate::vec3::{add_o, div_o, m_add, m_div, m_mul, m_sub, mul2, mul_o, mv_cross, mv_div, mv_dot,
    sub_o, v3_collect, vec_opt, Vec3, V3};
use vstd::prelude::*;

verus! {

/// Mathematical value of a matrix: three column vectors of unbounded
/// fractions.
pub struct M3 {
    pub x_axis: V3,
    pub y_axis: V3,
    pub z_axis: V3,
}

/// A matrix from three optional columns: present only when all are.
pub open spec fn m3_collect(x: Option<V3>, y: Option<V3>, z: Option<V3>) -> Option<M3> {
    match (x, y, z) {
        (Some(a), Some(b), Some(c)) => Some(M3 { x_axis: a, y_axis: b, z_axis: c }),
        _ => None,
    }
}

/// The matrix values behind an optional matrix.
pub open spec fn mat_opt(r: Option<Mat3>) -> Option<M3> {
    match r {
        Some(m) => Some(m@),
        None => None,
    }
}

/// Transpose of a matrix value; exact.
pub open spec fn m3_transpose(m: M3) -> M3 {
    M3 {
        x_axis: V3 { x: m.x_axis.x, y: m.y_axis.x, z: m.z_axis.x },
        y_axis: V3 { x: m.x_axis.y, y: m.y_axis.y, z: m.z_axis.y },
        z_axis: V3 { x: m.x_axis.z, y: m.y_axis.z, z: m.z_axis.z },
    }
}

/// Checked matrix-vector product: each result component is a row of the
/// matrix dotted with the vector, summed left to right.
pub open spec fn mm_mul_vec(a: Option<M3>, v: Option<V3>) -> Option<V3> {
    match (a, v) {
        (Some(m), Some(u)) => v3_collect(
            m_add(
                m_add(m_mul(Some(m.x_axis.x), Some(u.x)), m_mul(Some(m.y_axis.x), Some(u.y))),
                m_mul(Some(m.z_axis.x), Some(u.z)),
            ),
            m_add(
                m_add(m_mul(Some(m.x_axis.y), Some(u.x)), m_mul(Some(m.y_axis.y), Some(u.y))),
                m_mul(Some(m.z_axis.y), Some(u.z)),
            ),
            m_add(
                m_add(m_mul(Some(m.x_axis.z), Some(u.x)), m_mul(Some(m.y_axis.z), Some(u.y))),
                m_mul(Some(m.z_axis.z), Some(u.z)),
            ),
        ),
        _ => None,
    }
}

/// Checked matrix-matrix product, column by column.
pub open spec fn mm_mul_mat(a: Option<M3>, b: Option<M3>) -> Option<M3> {
    match (a, b) {
        (Some(m), Some(n)) => m3_collect(
            mm_mul_vec(Some(m), Some(n.x_axis)),
            mm_mul_vec(Some(m), Some(n.y_axis)),
            mm_mul_vec(Some(m), Some(n.z_axis)),
        ),
        _ => None,
    }
}

/// Checked determinant: the third column dotted with the cross product of
/// the first two.
pub open spec fn mm_det(a: Option<M3>) -> Option<Frac> {
    match a {
        Some(m) => mv_dot(Some(m.z_axis), mv_cross(Some(m.x_axis), Some(m.y_axis))),
        None => None,
    }
}

/// Checked inverse: the adjugate divided by the determinant, built from the
/// cross products of pairs of columns.  `None` when the determinant is zero
/// or a step leaves the representable range.
pub open spec fn mm_inverse(a: Option<M3>) -> Option<M3> {
    match a {
        Some(m) => {
            let c0 = mv_cross(Some(m.y_axis), Some(m.z_axis));
            let c1 = mv_cross(Some(m.z_axis), Some(m.x_axis));
            let c2 = mv_cross(Some(m.x_axis), Some(m.y_axis));
            match mv_dot(Some(m.z_axis), c2) {
                Some(det) => if det.n == 0 {
                    None
                } else {
                    match m3_collect(
                        mv_div(c0, Some(det)),
                        mv_div(c1, Some(det)),
                        mv_div(c2, Some(det)),
                    ) {
                        Some(t) => Some(m3_transpose(t)),
                        None => None,
                    }
                },
                None => None,
            }
        },
        None => None,
    }
}

/// Checked rotation matrix of a quaternion value: the standard homogeneous
/// form, each entry divided by the squared norm, so it is the rotation of
/// the normalized quaternion.
#[verifier::opaque]
pub open spec fn mm_from_quat(a: Option<Q4>) -> Option<M3> {
    match a {
        Some(q) => match mq_norm_sq(Some(q)) {
            Some(s) => if s.n == 0 {
                None
            } else {
                m3_collect(
                    v3_collect(
                        m_div(
                            m_sub(
                                m_sub(
                                    m_add(m_mul(Some(q.w), Some(q.w)), m_mul(Some(q.x), Some(q.x))),
                                    m_mul(Some(q.y), Some(q.y)),
                                ),
                                m_mul(Some(q.z), Some(q.z)),
                            ),
                            Some(s),
                        ),
                        m_div(
                            m_mul(
                                Some(frac_int(2)),
                                m_add(m_mul(Some(q.x), Some(q.y)), m_mul(Some(q.z), Some(q.w))),
                            ),
                            Some(s),
                        ),
                        m_div(
                            m_mul(
                                Some(frac_int(2)),
                                m_sub(m_mul(Some(q.x), Some(q.z)), m_mul(Some(q.y), Some(q.w))),
                            ),
                            Some(s),
                        ),
                    ),
                    v3_collect(
                        m_div(
                            m_mul(
                                Some(frac_int(2)),
                                m_sub(m_mul(Some(q.x), Some(q.y)), m_mul(Some(q.z), Some(q.w))),
                            ),
                            Some(s),
                        ),
                        m_div(
                            m_sub(
                                m_add(
                                    m_sub(m_mul(Some(q.w), Some(q.w)), m_mul(Some(q.x), Some(q.x))),
                                    m_mul(Some(q.y), Some(q.y)),
                                ),
                                m_mul(Some(q.z), Some(q.z)),
                            ),
                            Some(s),
                        ),
                        m_div(
                            m_mul(
                                Some(frac_int(2)),
                                m_add(m_mul(Some(q.y), Some(q.z)), m_mul(Some(q.x), Some(q.w))),
                            ),
                            Some(s),
                        ),
                    ),
                    v3_collect(
                        m_div(
                            m_mul(
                                Some(frac_int(2)),
                                m_add(m_mul(Some(q.x), Some(q.z)), m_mul(Some(q.y), Some(q.w))),
                            ),
                            Some(s),
                        ),
                        m_div(
                            m_mul(
                                Some(frac_int(2)),
                                m_sub(m_mul(Some(q.y), Some(q.z)), m_mul(Some(q.x), Some(q.w))),
                            ),
                            Some(s),
                        ),
                        m_div(
                            m_add(
                                m_sub(
                                    m_sub(m_mul(Some(q.w), Some(q.w)), m_mul(Some(q.x), Some(q.x))),
                                    m_mul(Some(q.y), Some(q.y)),
                                ),
                                m_mul(Some(q.z), Some(q.z)),
                            ),
                            Some(s),
                        ),
                    ),
                )
            },
            None => None,
        },
        None => None,
    }
}

/// A three-by-three matrix of exact rational scalars, stored by columns.
#[derive(Clone, Copy, Debug, PartialEq, Eq, Structural)]
pub struct Mat3 {
    pub x_axis: Vec3,
    pub y_axis: Vec3,
    pub z_axis: Vec3,
}

impl View for Mat3 {
    type V = M3;

    open spec fn view(&self) -> M3 {
        M3 { x_axis: self.x_axis@, y_axis: self.y_axis@, z_axis: self.z_axis@ }
    }
}

impl Mat3 {
    /// All entries in stored form.
    pub open spec fn wf9(self) -> bool {
        self.x_axis.wf3() && self.y_axis.wf3() && self.z_axis.wf3()
    }

    /// A matrix from its three columns.
    pub fn from_cols(x_axis: Vec3, y_axis: Vec3, z_axis: Vec3) -> (r: Mat3)
        ensures
            r@ == (M3 { x_axis: x_axis@, y_axis: y_axis@, z_axis: z_axis@ }),
    {
        Mat3 { x_axis, y_axis, z_axis }
    }

    /// The identity matrix.
    pub fn identity() -> (r: Mat3)
        ensures
            r.wf9(),
            r@.x_axis == (V3 { x: frac_int(1), y: frac_int(0), z: frac_int(0) }),
            r@.y_axis == (V3 { x: frac_int(0), y: frac_int(1), z: frac_int(0) }),
            r@.z_axis == (V3 { x: frac_int(0), y: frac_int(0), z: frac_int(1) }),
    {
        let o = Rat::one();
        let z = Rat::zero();
        Mat3 {
            x_axis: Vec3 { x: o, y: z, z: z },
            y_axis: Vec3 { x: z, y: o, z: z },
            z_axis: Vec3 { x: z, y: z, z: o },
        }
    }

    /// The transposed matrix; exact.
    pub fn transpose(&self) -> (r: Mat3)
        requires
            self.wf9(),
        ensures
            r.wf9(),
            r@ == m3_transpose(self@),
    {
        Mat3 {
            x_axis: Vec3 { x: self.x_axis.x, y: self.y_axis.x, z: self.z_axis.x },
            y_axis: Vec3 { x: self.x_axis.y, y: self.y_axis.y, z: self.z_axis.y },
            z_axis: Vec3 { x: self.x_axis.z, y: self.y_axis.z, z: self.z_axis.z },
        }
    }

    /// Matrix-vector product.
    pub fn mul_vec3(&self, v: &Vec3) -> (r: Option<Vec3>)
        requires
            self.wf9(),
            v.wf3(),
        ensures
            vec_opt(r) == mm_mul_vec(Some(self@), Some(v@)),
            r matches Some(u) ==> u.wf3(),
    {
        let x = add_o(
            add_o(mul2(self.x_axis.x, v.x), mul2(self.y_axis.x, v.y)),
            mul2(self.z_axis.x, v.z),
        );
        let y = add_o(
            add_o(mul2(self.x_axis.y, v.x), mul2(self.y_axis.y, v.y)),
            mul2(self.z_axis.y, v.z),
        );
        let z = add_o(
            add_o(mul2(self.x_axis.z, v.x), mul2(self.y_axis.z, v.y)),
            mul2(self.z_axis.z, v.z),
        );
        match (x, y, z) {
            (Some(a), Some(b), Some(c)) => Some(Vec3 { x: a, y: b, z: c }),
            _ => None,
        }
    }

    /// Matrix-matrix product, column by column.
    pub fn mul_mat3(&self, o: &Mat3) -> (r: Option<Mat3>)
        requires
            self.wf9(),
            o.wf9(),
        ensures
            mat_opt(r) == mm_mul_mat(Some(self@), Some(o@)),
            r matches Some(m) ==> m.wf9(),
    {
        let x = self.mul_vec3(&o.x_axis);
        let y = self.mul_vec3(&o.y_axis);
        let z = self.mul_vec3(&o.z_axis);
        match (x, y, z) {
            (Some(a), Some(b), Some(c)) => Some(Mat3 { x_axis: a, y_axis: b, z_axis: c }),
            _ => None,
        }
    }

    /// Determinant: the third column dotted with the cross product of the
    /// first two.
    pub fn determinant(&self) -> (r: Option<Rat>)
        requires
            self.wf9(),
        ensures
            rat_opt(r) == mm_det(Some(self@)),
            r matches Some(c) ==> c.wf(),
    {
        match self.x_axis.cross(&self.y_axis) {
            Some(c2) => self.z_axis.dot(&c2),
            None => None,
        }
    }

    /// Exact inverse via the adjugate and the determinant.  `None` when the
    /// matrix is singular or a step leaves the representable range.
    pub fn inverse(&self) -> (r: Option<Mat3>)
        requires
            self.wf9(),
        ensures
            mat_opt(r) == mm_inverse(Some(self@)),
            r matches Some(m) ==> m.wf9(),
    {
        let c0 = self.y_axis.cross(&self.z_axis);
        let c1 = self.z_axis.cross(&self.x_axis);
        let c2 = self.x_axis.cross(&self.y_axis);
        let det = match c2 {
            Some(cc2) => self.z_axis.dot(&cc2),
            None => None,
        };
        match det {
            Some(dv) => {
                if dv.is_zero() {
                    return None;
                }
                let a = match c0 {
                    Some(v) => v.div_scalar(dv),
                    None => None,
                };
                let b = match c1 {
                    Some(v) => v.div_scalar(dv),
                    None => None,
                };
                let c = match c2 {
                    Some(v) => v.div_scalar(dv),
                    None => None,
                };
                match (a, b, c) {
                    (Some(u), Some(v), Some(w)) => Some(
                        Mat3 { x_axis: u, y_axis: v, z_axis: w }.transpose(),
                    ),
                    _ => None,
                }
            },
            None => None,
        }
    }

    /// Rotation matrix of a quaternion: the standard homogeneous form with
    /// every entry divided by the squared norm.  `None` when the quaternion
    /// is zero or a step leaves the representable range.
    pub fn from_quat(rot: &Quat) -> (r: Option<Mat3>)
        requires
            rot.wf4(),
        ensures
            mat_opt(r) == mm_from_quat(Some(rot@)),
            r matches Some(m) ==> m.wf9(),
    {
        proof {
            reveal(mm_from_quat);
        }
        let ns = rot.norm_sq();
        match ns {
            Some(s) => {
                if s.is_zero() {
                    return None;
                }
                let two = Rat::from_int(2);
                let e00 = div_o(
                    sub_o(
                        sub_o(add_o(mul2(rot.w, rot.w), mul2(rot.x, rot.x)), mul2(rot.y, rot.y)),
                        mul2(rot.z, rot.z),
                    ),
                    s,
                );
                let e10 = div_o(
                    mul_o(Some(two), add_o(mul2(rot.x, rot.y), mul2(rot.z, rot.w))),
                    s,
                );
                let e20 = div_o(
                    mul_o(Some(two), sub_o(mul2(rot.x, rot.z), mul2(rot.y, rot.w))),
                    s,
                );
                let e01 = div_o(
                    mul_o(Some(two), sub_o(mul2(rot.x, rot.y), mul2(rot.z, rot.w))),
                    s,
                );
                let e11 = div_o(
                    sub_o(
                        add_o(sub_o(mul2(rot.w, rot.w), mul2(rot.x, rot.x)), mul2(rot.y, rot.y)),
                        mul2(rot.z, rot.z),
                    ),
                    s,
                );
                let e21 = div_o(
                    mul_o(Some(two), add_o(mul2(rot.y, rot.z), mul2(rot.x, rot.w))),
                    s,
                );
                let e02 = div_o(
                    mul_o(Some(two), add_o(mul2(rot.x, rot.z), mul2(rot.y, rot.w))),
                    s,
                );
                let e12 = div_o(
                    mul_o(Some(two), sub_o(mul2(rot.y, rot.z), mul2(rot.x, rot.w))),
                    s,
                );
                let e22 = div_o(
                    add_o(
                        sub_o(sub_o(mul2(rot.w, rot.w), mul2(rot.x, rot.x)), mul2(rot.y, rot.y)),
                        mul2(rot.z, rot.z),
                    ),
                    s,
                );
                let cx = match (e00, e10, e20) {
                    (Some(a), Some(b), Some(c)) => Some(Vec3 { x: a, y: b, z: c }),
                    _ => None,
                };
                let cy = match (e01, e11, e21) {
                    (Some(a), Some(b), Some(c)) => Some(Vec3 { x: a, y: b, z: c }),
                    _ => None,
                };
                let cz = match (e02, e12, e22) {
                    (Some(a), Some(b), Some(c)) => Some(Vec3 { x: a, y: b, z: c }),
                    _ => None,
                };
                match (cx, cy, cz) {
                    (Some(a), Some(b), Some(c)) => Some(Mat3 { x_axis: a, y_axis: b, z_axis: c }),
                    _ => None,
                }
            },
            None => None,
        }
    }
}

} // verus!
