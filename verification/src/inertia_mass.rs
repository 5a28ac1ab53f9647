//! Mass and its spatial distribution.
//!
//! An [`InertiaMass`] carries a mass, an inertia tensor in body axes, and
//! the tensor's exact inverse, computed once at construction.  Re-expressing
//! the tensors in world axes applies the rotation matrix congruence
//! `R * T * transpose(R)` to each tensor independently, so the inverse stays
//! the exact inverse of the rotated tensor.

use crate::mat3::{m3_transpose, mm_from_quat, mm_inverse, mm_mul_mat, Mat3, M3};
use crate::quat::{Quat, Q4};
use crate::rational::{Frac, Rat};
use crate::vec3::{m_div, m_mul};
use crate::vec3::{oview, Vec3};
use vstd::prelude::*;

verus! {

/// The mass of a body, in kilograms.
#[derive(Clone, Copy, Debug, PartialEq, Eq, Structural)]
pub struct Mass(pub Rat);

impl View for Mass {
    type V = Frac;

    open spec fn view(&self) -> Frac {
        self.0@
    }
}

impl Mass {
    /// The scalar is in stored form.
    pub open spec fn wf(self) -> bool {
        self.0.wf()
    }

    /// A mass from a scalar.
    pub fn new(mass: Rat) -> (r: Mass)
        ensures
            r@ == mass@,
    {
        Mass(mass)
    }

    /// The zero mass; valid as a value, rejected by [`InertiaMass::new`].
    pub fn zero() -> (r: Mass)
        ensures
            r.wf(),
            r@ == crate::rational::frac_zero(),
    {
        Mass(Rat::zero())
    }
}

/// Checked congruence transform of a tensor value by a rotation matrix
/// value: `R * T * transpose(R)`.
#[verifier::opaque]
pub open spec fn tensor_rot_mat(t: M3, rm: M3) -> Option<M3> {
    mm_mul_mat(mm_mul_mat(Some(rm), Some(t)), Some(m3_transpose(rm)))
}

/// Checked congruence transform of a tensor value by a quaternion value.
#[verifier::opaque]
pub open spec fn tensor_rotated(t: M3, q: Q4) -> Option<M3> {
    match mm_from_quat(Some(q)) {
        Some(rm) => tensor_rot_mat(t, rm),
        None => None,
    }
}

/// Checked cylinder tensor values: the moments of a solid cylinder about
/// its own axis (`front`) and about a diameter (`side`).
pub open spec fn cyl_front(height: Frac, radius: Frac, mass: Frac) -> Option<Frac> {
    m_div(m_mul(Some(mass), m_mul(Some(radius), Some(radius))), Some(crate::rational::frac_int(2)))
}

/// The diametral moment of the cylinder of [`cyl_front`].
pub open spec fn cyl_side(height: Frac, radius: Frac, mass: Frac) -> Option<Frac> {
    crate::vec3::m_add(
        m_div(
            m_mul(Some(mass), m_mul(Some(height), Some(height))),
            Some(crate::rational::frac_int(12)),
        ),
        m_div(
            m_mul(Some(mass), m_mul(Some(radius), Some(radius))),
            Some(crate::rational::frac_int(4)),
        ),
    )
}

/// An inertia tensor: a symmetric matrix relating angular velocity to
/// angular momentum in a given frame.
#[derive(Clone, Copy, Debug, PartialEq, Eq, Structural)]
pub struct Inertia(pub Mat3);

impl View for Inertia {
    type V = M3;

    open spec fn view(&self) -> M3 {
        self.0@
    }
}

impl Inertia {
    /// All entries in stored form.
    pub open spec fn wf(self) -> bool {
        self.0.wf9()
    }

    /// A tensor from a matrix.
    pub fn new(inertia: Mat3) -> (r: Inertia)
        ensures
            r@ == inertia@,
    {
        Inertia(inertia)
    }

    /// The tensor of a solid cylinder whose height runs along the first
    /// body axis.
    pub fn cylinder_x(height: Rat, radius: Rat, mass: Rat) -> (r: Option<Inertia>)
        requires
            height.wf(),
            radius.wf(),
            mass.wf(),
        ensures
            ({ match r {
                Some(t) => t.wf() && (cyl_front(height@, radius@, mass@) matches Some(f)
                    && (cyl_side(height@, radius@, mass@) matches Some(s)
                    && t@ == diag_m3(f, s, s))),
                None => cyl_front(height@, radius@, mass@) is None
                    || cyl_side(height@, radius@, mass@) is None,
            } }),
    {
        match Self::cyl_moments(height, radius, mass) {
            Some((front, side)) => Some(Inertia(diag_mat(front, side, side))),
            None => None,
        }
    }

    /// The tensor of a solid cylinder whose height runs along the second
    /// body axis.
    pub fn cylinder_y(height: Rat, radius: Rat, mass: Rat) -> (r: Option<Inertia>)
        requires
            height.wf(),
            radius.wf(),
            mass.wf(),
        ensures
            ({ match r {
                Some(t) => t.wf() && (cyl_front(height@, radius@, mass@) matches Some(f)
                    && (cyl_side(height@, radius@, mass@) matches Some(s)
                    && t@ == diag_m3(s, f, s))),
                None => cyl_front(height@, radius@, mass@) is None
                    || cyl_side(height@, radius@, mass@) is None,
            } }),
    {
        match Self::cyl_moments(height, radius, mass) {
            Some((front, side)) => Some(Inertia(diag_mat(side, front, side))),
            None => None,
        }
    }

    /// The tensor of a solid cylinder whose height runs along the third
    /// body axis.
    pub fn cylinder_z(height: Rat, radius: Rat, mass: Rat) -> (r: Option<Inertia>)
        requires
            height.wf(),
            radius.wf(),
            mass.wf(),
        ensures
            ({ match r {
                Some(t) => t.wf() && (cyl_front(height@, radius@, mass@) matches Some(f)
                    && (cyl_side(height@, radius@, mass@) matches Some(s)
                    && t@ == diag_m3(s, s, f))),
                None => cyl_front(height@, radius@, mass@) is None
                    || cyl_side(height@, radius@, mass@) is None,
            } }),
    {
        match Self::cyl_moments(height, radius, mass) {
            Some((front, side)) => Some(Inertia(diag_mat(side, side, front))),
            None => None,
        }
    }

    /// The axial and diametral moments of a solid cylinder.
    fn cyl_moments(height: Rat, radius: Rat, mass: Rat) -> (r: Option<(Rat, Rat)>)
        requires
            height.wf(),
            radius.wf(),
            mass.wf(),
        ensures
            ({ match r {
                Some((f, s)) => f.wf() && s.wf() && Some(f@) == cyl_front(height@, radius@, mass@)
                    && Some(s@) == cyl_side(height@, radius@, mass@),
                None => cyl_front(height@, radius@, mass@) is None
                    || cyl_side(height@, radius@, mass@) is None,
            } }),
    {
        let h2 = height.mul(height);
        let r2 = radius.mul(radius);
        let front = match r2 {
            Some(rr) => match mass.mul(rr) {
                Some(mr) => mr.div(Rat::from_int(2)),
                None => None,
            },
            None => None,
        };
        let side_h = match h2 {
            Some(hh) => match mass.mul(hh) {
                Some(mh) => mh.div(Rat::from_int(12)),
                None => None,
            },
            None => None,
        };
        let side_r = match r2 {
            Some(rr) => match mass.mul(rr) {
                Some(mr) => mr.div(Rat::from_int(4)),
                None => None,
            },
            None => None,
        };
        let side = match (side_h, side_r) {
            (Some(a), Some(b)) => a.add(b),
            _ => None,
        };
        match (front, side) {
            (Some(f), Some(s)) => Some((f, s)),
            _ => None,
        }
    }

    /// The tensor re-expressed through a quaternion rotation.
    pub fn rotated(&self, rot: &Quat) -> (r: Option<Inertia>)
        requires
            self.wf(),
            rot.wf4(),
        ensures
            oview(r) == tensor_rotated(self@, rot@),
            r matches Some(t) ==> t.wf(),
    {
        proof {
            reveal(tensor_rotated);
        }
        match Mat3::from_quat(rot) {
            Some(rm) => self.rot_mat(&rm),
            None => None,
        }
    }

    /// The tensor re-expressed through a rotation matrix:
    /// `R * T * transpose(R)`.
    pub fn rot_mat(&self, rot: &Mat3) -> (r: Option<Inertia>)
        requires
            self.wf(),
            rot.wf9(),
        ensures
            oview(r) == tensor_rot_mat(self@, rot@),
            r matches Some(t) ==> t.wf(),
    {
        proof {
            reveal(tensor_rot_mat);
        }
        let left = rot.mul_mat3(&self.0);
        match left {
            Some(l) => match l.mul_mat3(&rot.transpose()) {
                Some(m) => Some(Inertia(m)),
                None => None,
            },
            None => None,
        }
    }
}

/// A diagonal matrix value.
pub open spec fn diag_m3(a: Frac, b: Frac, c: Frac) -> M3 {
    M3 {
        x_axis: crate::vec3::V3 { x: a, y: frac_zero_s(), z: frac_zero_s() },
        y_axis: crate::vec3::V3 { x: frac_zero_s(), y: b, z: frac_zero_s() },
        z_axis: crate::vec3::V3 { x: frac_zero_s(), y: frac_zero_s(), z: c },
    }
}

/// The zero fraction, spelled locally for [`diag_m3`].
pub open spec fn frac_zero_s() -> Frac {
    crate::rational::frac_zero()
}

/// A diagonal matrix from three scalars.
fn diag_mat(a: Rat, b: Rat, c: Rat) -> (r: Mat3)
    requires
        a.wf(),
        b.wf(),
        c.wf(),
    ensures
        r.wf9(),
        r@ == diag_m3(a@, b@, c@),
{
    let z = Rat::zero();
    Mat3 {
        x_axis: Vec3 { x: a, y: z, z: z },
        y_axis: Vec3 { x: z, y: b, z: z },
        z_axis: Vec3 { x: z, y: z, z: c },
    }
}

/// Mathematical value of an [`InertiaMass`].
pub struct IMV {
    pub mass: Frac,
    pub inertia: M3,
    pub inv_inertia: M3,
}

/// Checked construction of an inertia-mass value: the mass must be
/// positive and the tensor invertible; the inverse is stored exactly.
#[verifier::opaque]
pub open spec fn im_new(mass: Frac, inertia: M3) -> Option<IMV> {
    if mass.n <= 0 {
        None
    } else {
        match mm_inverse(Some(inertia)) {
            Some(inv) => Some(IMV { mass: mass, inertia: inertia, inv_inertia: inv }),
            None => None,
        }
    }
}

/// Checked rotation of an inertia-mass value: both tensors re-expressed
/// independently through the same rotation matrix.
#[verifier::opaque]
pub open spec fn im_rot_mat(im: IMV, rm: M3) -> Option<IMV> {
    match (tensor_rot_mat(im.inertia, rm), tensor_rot_mat(im.inv_inertia, rm)) {
        (Some(t), Some(v)) => Some(IMV { mass: im.mass, inertia: t, inv_inertia: v }),
        _ => None,
    }
}

/// Checked rotation of an inertia-mass value by a quaternion.
#[verifier::opaque]
pub open spec fn im_rotated(im: IMV, q: Q4) -> Option<IMV> {
    match mm_from_quat(Some(q)) {
        Some(rm) => im_rot_mat(im, rm),
        None => None,
    }
}

/// A mass together with its inertia tensor and the tensor's exact inverse.
/// The inverse is computed once at construction and only ever transformed
/// together with the tensor, never independently mutated.
#[derive(Clone, Copy, Debug, PartialEq, Eq, Structural)]
pub struct InertiaMass {
    /// The mass of the body.
    pub mass: Mass,
    /// The inertia tensor, body frame.
    pub inertia: Inertia,
    /// The exact inverse of the tensor, body frame.
    pub inv_inertia: Inertia,
}

impl View for InertiaMass {
    type V = IMV;

    open spec fn view(&self) -> IMV {
        IMV { mass: self.mass@, inertia: self.inertia@, inv_inertia: self.inv_inertia@ }
    }
}

impl InertiaMass {
    /// Stored form, with a strictly positive mass.
    pub open spec fn wf(self) -> bool {
        self.mass.wf() && self@.mass.n > 0 && self.inertia.wf() && self.inv_inertia.wf()
    }

    /// An inertia-mass from a mass and a tensor.  The inverse tensor is
    /// computed exactly; a non-positive mass or a singular tensor is
    /// rejected, so no silently invalid state can be built.
    pub fn new(mass: Mass, inertia: Inertia) -> (r: Option<InertiaMass>)
        requires
            mass.wf(),
            inertia.wf(),
        ensures
            oview(r) == im_new(mass@, inertia@),
            r matches Some(m) ==> m.wf(),
    {
        proof {
            reveal(im_new);
        }
        if mass.0.is_neg() || mass.0.is_zero() {
            return None;
        }
        match inertia.0.inverse() {
            Some(inv) => Some(InertiaMass { mass, inertia, inv_inertia: Inertia(inv) }),
            None => None,
        }
    }

    /// Both tensors re-expressed in world axes through a quaternion; the
    /// stored inverse stays the exact inverse of the rotated tensor.
    pub fn rotated(&self, rot: Quat) -> (r: Option<InertiaMass>)
        requires
            self.wf(),
            rot.wf4(),
        ensures
            oview(r) == im_rotated(self@, rot@),
            r matches Some(m) ==> m.wf(),
    {
        proof {
            reveal(im_rotated);
        }
        match Mat3::from_quat(&rot) {
            Some(rm) => self.rot_mat(rm),
            None => None,
        }
    }

    /// Both tensors re-expressed through a rotation matrix.
    pub fn rot_mat(&self, rot: Mat3) -> (r: Option<InertiaMass>)
        requires
            self.wf(),
            rot.wf9(),
        ensures
            oview(r) == im_rot_mat(self@, rot@),
            r matches Some(m) ==> m.wf(),
    {
        proof {
            reveal(im_rot_mat);
        }
        let t = self.inertia.rot_mat(&rot);
        let v = self.inv_inertia.rot_mat(&rot);
        match (t, v) {
            (Some(a), Some(b)) => Some(
                InertiaMass { mass: self.mass, inertia: a, inv_inertia: b },
            ),
            _ => None,
        }
    }
}

} // verus!
