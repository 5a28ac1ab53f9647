//! Laws of the model, proved once and for all inputs.
//!
//! Each public proof function here states a property of the checked model
//! functions that every caller may rely on: the panel force model vanishes
//! at rest and under flow parallel to the surface, composing an axis
//! rotation with itself doubles its angle, converting momentum to velocity
//! and back returns the same linear momentum, a step with no panels and no
//! external moment conserves momentum exactly and advances the translation
//! by exactly the velocity times the span (for both integrators), the
//! self-composed first-order rotation increment is characterized against
//! the doubled-span increment, renormalization restores an exactly unit
//! quaternion whenever the squared norm is a perfect square, and rotating
//! a vector, a panel, or a mass distribution by the identity quaternion
//! keeps every value.

use crate::moments::{momt_add, momt_mul_secs, momt_scalev, momt_zero};
use crate::momentum::MomV;
use crate::panels::{pv_rotated, pv_to_force, PV};
use crate::quat::{mq_mul, mq_rotate, q4_identity, Q4};
use crate::rational::{chk, frac_add, frac_div, frac_eq, frac_int, frac_mul, frac_one, frac_ok, frac_sub,
    frac_zero, lemma_chk_add_ok, lemma_chk_mul_ok, lemma_chk_some, lemma_chk_sub_ok,
    lemma_chk_zero_num, lemma_frac_add_congr, lemma_frac_eq_trans, lemma_frac_mul_congr,
    lemma_frac_sub_congr, Frac};
use crate::transform::TV;
use crate::vec3::{m_div, m_mul, v3_zero, V3};
use crate::velocity::VelV;
use crate::{panel_moment_sum, rk4_combine_momt, sv_advance, sv_stage, sv_stages, sv_step, sv_velocity,
    sv_with, SV};
use vstd::prelude::*;

verus! {

/// All components of a vector value have positive denominators.
pub open spec fn v3_ok(v: V3) -> bool {
    frac_ok(v.x) && frac_ok(v.y) && frac_ok(v.z)
}

/// Componentwise value equality of vector values.
pub open spec fn v3_eqv(a: V3, b: V3) -> bool {
    frac_eq(a.x, b.x) && frac_eq(a.y, b.y) && frac_eq(a.z, b.z)
}

/// The panel force model vanishes at rest: a panel in still air feels
/// exactly the zero force, never a rounded or indeterminate one.
pub proof fn law_to_force_zero_velocity(p: PV)
    requires
        v3_ok(p.normal),
        frac_ok(p.area),
    ensures
        pv_to_force(p, v3_zero()) == Some(v3_zero()),
{
    let z = frac_zero();
    // The squared speed and the projected area are built from products with
    // a zero factor, and a zero numerator survives every reduction.
    lemma_chk_zero_num(frac_mul(p.normal.x, z));
    lemma_chk_zero_num(frac_mul(p.normal.y, z));
    lemma_chk_zero_num(frac_mul(p.normal.z, z));
    lemma_chk_zero_num(frac_mul(z, z));
    lemma_chk_zero_num(crate::rational::frac_add(z, z));
    lemma_chk_zero_num(frac_mul(z, p.area));
    lemma_chk_zero_num(frac_mul(crate::panels::density_frac(), z));
    lemma_chk_zero_num(frac_mul(z, crate::panels::half_c_d_frac()));
    lemma_chk_zero_num(frac_mul(crate::rational::frac_neg(p.normal.x), z));
    lemma_chk_zero_num(frac_mul(crate::rational::frac_neg(p.normal.y), z));
    lemma_chk_zero_num(frac_mul(crate::rational::frac_neg(p.normal.z), z));
}

/// Dividing a scalar by a nonzero mass and multiplying back returns the
/// original value, whenever both checked steps are representable: the
/// momentum-to-velocity conversion inverts exactly.
pub proof fn law_div_mul_round_trip(p: Frac, m: Frac)
    requires
        frac_ok(p),
        frac_ok(m),
        m.n != 0,
    ensures
        ({
            match m_div(Some(p), Some(m)) {
                Some(v) => match m_mul(Some(m), Some(v)) {
                    Some(r) => frac_eq(r, p),
                    None => true,
                },
                None => true,
            }
        }),
{
    if m_div(Some(p), Some(m)) is Some {
        let v = m_div(Some(p), Some(m))->Some_0;
        assert(frac_div(p, m).d != 0) by (nonlinear_arith)
            requires
                frac_ok(p),
                m.n != 0,
        ;
        lemma_chk_some(frac_div(p, m));
        assert(frac_eq(v, frac_div(p, m)));
        if m_mul(Some(m), Some(v)) is Some {
            let r = m_mul(Some(m), Some(v))->Some_0;
            assert(frac_mul(m, v).d != 0) by (nonlinear_arith)
                requires
                    frac_ok(m),
                    frac_ok(v),
            ;
            lemma_chk_some(frac_mul(m, v));
            assert(frac_div(p, m).d != 0) by (nonlinear_arith)
                requires
                    frac_ok(p),
                    m.n != 0,
            ;
            lemma_frac_mul_congr(m, m, v, frac_div(p, m));
            assert(frac_eq(frac_mul(m, frac_div(p, m)), p)) by (nonlinear_arith)
                requires
                    frac_ok(p),
                    frac_ok(m),
                    m.n != 0,
            ;
            lemma_frac_eq_trans(r, frac_mul(m, v), frac_mul(m, frac_div(p, m)));
            assert(frac_mul(m, frac_div(p, m)).d != 0) by (nonlinear_arith)
                requires
                    frac_ok(p),
                    frac_ok(m),
                    m.n != 0,
            ;
            lemma_frac_eq_trans(r, frac_mul(m, frac_div(p, m)), p);
        }
    }
}

/// Composing a single-axis rotation with itself doubles its angle: for a
/// quaternion `(s, 0, 0, c)`, standing for a rotation about the first axis
/// with half-angle sine `s` and cosine `c`, the self-composition is
/// `(2 s c, 0, 0, c * c - s * s)` as a value: exactly the half-angle form
/// of the doubled rotation.  The result stays on the same axis.
pub proof fn law_compose_self_doubles_axis_angle(s: Frac, c: Frac)
    requires
        frac_ok(s),
        frac_ok(c),
    ensures
        ({
            let q = Q4 { x: s, y: frac_zero(), z: frac_zero(), w: c };
            match mq_mul(Some(q), Some(q)) {
                Some(t) => t.y == frac_zero() && t.z == frac_zero() && frac_eq(
                    t.x,
                    frac_mul(frac_int(2), frac_mul(s, c)),
                ) && frac_eq(t.w, frac_sub(frac_mul(c, c), frac_mul(s, s))),
                None => true,
            }
        }),
{
    let z = frac_zero();
    let q = Q4 { x: s, y: z, z: z, w: c };
    // Products with a zero factor reduce to the zero fraction exactly.
    lemma_chk_zero_num(frac_mul(c, z));
    lemma_chk_zero_num(frac_mul(s, z));
    lemma_chk_zero_num(frac_mul(z, z));
    lemma_chk_zero_num(frac_mul(z, c));
    lemma_chk_zero_num(frac_mul(z, s));
    lemma_chk_zero_num(crate::rational::frac_add(z, z));
    lemma_chk_zero_num(frac_sub(z, z));
    if mq_mul(Some(q), Some(q)) is Some {
        let t = mq_mul(Some(q), Some(q))->Some_0;
        // The vector component along the axis: c*s + s*c + 0 - 0 = 2*s*c.
        let cs = frac_mul(c, s);
        let sc = frac_mul(s, c);
        assert(cs.d > 0 && sc.d > 0) by (nonlinear_arith)
            requires
                frac_ok(s),
                frac_ok(c),
                cs == frac_mul(c, s),
                sc == frac_mul(s, c),
        ;
        lemma_chk_some(cs);
        lemma_chk_some(sc);
        let cs2 = chk(cs)->Some_0;
        let sc2 = chk(sc)->Some_0;
        let xsum = crate::rational::frac_add(cs2, sc2);
        assert(xsum.d != 0) by (nonlinear_arith)
            requires
                cs2.d > 0,
                sc2.d > 0,
                xsum == crate::rational::frac_add(cs2, sc2),
        ;
        lemma_chk_some(xsum);
        let x3 = chk(xsum)->Some_0;
        crate::rational::lemma_frac_add_congr(cs2, cs, sc2, sc);
        assert(frac_eq(
            crate::rational::frac_add(frac_mul(c, s), frac_mul(s, c)),
            frac_mul(frac_int(2), frac_mul(s, c)),
        )) by (nonlinear_arith)
            requires
                frac_ok(s),
                frac_ok(c),
        ;
        assert(crate::rational::frac_add(cs, sc).d != 0) by (nonlinear_arith)
            requires
                frac_ok(s),
                frac_ok(c),
                cs == frac_mul(c, s),
                sc == frac_mul(s, c),
        ;
        lemma_frac_eq_trans(x3, xsum, crate::rational::frac_add(cs, sc));
        lemma_frac_eq_trans(x3, crate::rational::frac_add(cs, sc), frac_mul(
            frac_int(2),
            frac_mul(s, c),
        ));
        // Adding and then subtracting the zero products keeps the value.
        let x4 = crate::rational::frac_add(x3, z);
        assert(crate::rational::frac_add(x3, frac_zero()) == x3) by (nonlinear_arith);
        lemma_chk_some(x4);
        let x5 = chk(x4)->Some_0;
        lemma_frac_eq_trans(x5, x3, frac_mul(frac_int(2), frac_mul(s, c)));
        let x6 = frac_sub(x5, z);
        assert(frac_sub(x5, frac_zero()) == x5) by (nonlinear_arith);
        lemma_chk_some(x6);
        let tx = chk(x6)->Some_0;
        lemma_frac_eq_trans(tx, x5, frac_mul(frac_int(2), frac_mul(s, c)));
        // The scalar component: c*c - s*s - 0 - 0.
        let cc = frac_mul(c, c);
        let ss = frac_mul(s, s);
        assert(cc.d > 0 && ss.d > 0) by (nonlinear_arith)
            requires
                frac_ok(s),
                frac_ok(c),
                cc == frac_mul(c, c),
                ss == frac_mul(s, s),
        ;
        lemma_chk_some(cc);
        lemma_chk_some(ss);
        let cc2 = chk(cc)->Some_0;
        let ss2 = chk(ss)->Some_0;
        let wsub = frac_sub(cc2, ss2);
        assert(wsub.d != 0) by (nonlinear_arith)
            requires
                cc2.d > 0,
                ss2.d > 0,
                wsub == frac_sub(cc2, ss2),
        ;
        lemma_chk_some(wsub);
        let w3 = chk(wsub)->Some_0;
        crate::rational::lemma_frac_sub_congr(cc2, cc, ss2, ss);
        assert(frac_sub(cc, ss).d != 0) by (nonlinear_arith)
            requires
                frac_ok(s),
                frac_ok(c),
                cc == frac_mul(c, c),
                ss == frac_mul(s, s),
        ;
        lemma_frac_eq_trans(w3, wsub, frac_sub(cc, ss));
        let w4 = frac_sub(w3, z);
        assert(frac_sub(w3, frac_zero()) == w3) by (nonlinear_arith);
        lemma_chk_some(w4);
        let w5 = chk(w4)->Some_0;
        lemma_frac_eq_trans(w5, w3, frac_sub(cc, ss));
        let w6 = frac_sub(w5, z);
        assert(frac_sub(w5, frac_zero()) == w5) by (nonlinear_arith);
        lemma_chk_some(w6);
        let tw = chk(w6)->Some_0;
        lemma_frac_eq_trans(tw, w5, frac_sub(cc, ss));
    }
}

/// All components of a momentum value have positive denominators.
pub open spec fn mom_ok(p: MomV) -> bool {
    v3_ok(p.linear) && v3_ok(p.angular)
}

/// Adding the zero moment to the zero moment gives the zero moment,
/// exactly.
proof fn lemma_momt_add_zeros()
    ensures
        momt_add(Some(momt_zero()), Some(momt_zero())) == Some(momt_zero()),
{
    lemma_chk_zero_num(frac_add(frac_zero(), frac_zero()));
}

/// Scaling the zero moment gives the zero moment, exactly, for any scalar
/// with a positive denominator.
proof fn lemma_momt_scale_zero(k: Frac)
    requires
        frac_ok(k),
    ensures
        momt_scalev(momt_zero(), k) == Some(momt_zero()),
        momt_mul_secs(momt_zero(), k) matches Some(dp) ==> dp.linear == v3_zero() && dp.angular
            == v3_zero(),
        momt_mul_secs(momt_zero(), k) is Some,
{
    lemma_chk_zero_num(frac_mul(frac_zero(), k));
}

/// With no panels, a stage under a zero external moment yields the state's
/// velocity and exactly the zero total moment.
proof fn lemma_stage_no_panels(s: SV)
    requires
        s.panels.len() == 0,
    ensures
        sv_stage(s, momt_zero()) == (match sv_velocity(s) {
            Some(v) => Some((v, momt_zero())),
            None => None,
        }),
{
    reveal(sv_stage);
    reveal(panel_moment_sum);
    lemma_momt_add_zeros();
}

/// Advancing a momentum by the zero moment keeps each component's value:
/// the addition of zero only renormalizes the stored fraction.
proof fn lemma_advance_zero_moment_keeps_momentum(
    tf: TV,
    p: MomV,
    kv: VelV,
    dt: Frac,
    t2: TV,
    p2: MomV,
)
    requires
        mom_ok(p),
        frac_ok(dt),
        sv_advance(tf, p, kv, momt_zero(), dt) == Some((t2, p2)),
    ensures
        v3_eqv(p2.linear, p.linear),
        v3_eqv(p2.angular, p.angular),
        mom_ok(p2),
{
    lemma_momt_scale_zero(dt);
    let z = frac_zero();
    assert(frac_add(p.linear.x, frac_zero()) == p.linear.x) by (nonlinear_arith);
    assert(frac_add(p.linear.y, frac_zero()) == p.linear.y) by (nonlinear_arith);
    assert(frac_add(p.linear.z, frac_zero()) == p.linear.z) by (nonlinear_arith);
    assert(frac_add(p.angular.x, frac_zero()) == p.angular.x) by (nonlinear_arith);
    assert(frac_add(p.angular.y, frac_zero()) == p.angular.y) by (nonlinear_arith);
    assert(frac_add(p.angular.z, frac_zero()) == p.angular.z) by (nonlinear_arith);
    lemma_chk_some(p.linear.x);
    lemma_chk_some(p.linear.y);
    lemma_chk_some(p.linear.z);
    lemma_chk_some(p.angular.x);
    lemma_chk_some(p.angular.y);
    lemma_chk_some(p.angular.z);
}

/// With an empty panel list and no external moment, one Runge-Kutta step
/// conserves momentum exactly: the total moment is zero at every stage, so
/// the momentum update adds zero and at most renormalizes the stored
/// fractions.
pub proof fn law_step_conserves_momentum(s: SV, dt: Frac, tf2: TV, p2: MomV)
    requires
        s.panels.len() == 0,
        mom_ok(s.momentum),
        frac_ok(dt),
        sv_step(s, dt, momt_zero()) == Some((tf2, p2)),
    ensures
        v3_eqv(p2.linear, s.momentum.linear),
        v3_eqv(p2.angular, s.momentum.angular),
{
    reveal(sv_step);
    reveal(sv_stages);
    let z = momt_zero();
    let half = crate::vec3::m_div(Some(dt), Some(frac_int(2)));
    assert(half is Some);
    let h = half->Some_0;
    let stages = sv_stages(s, dt, z, h);
    assert(stages is Some);
    let (k1, k2, k3, k4) = stages->Some_0;
    // Each stage state also has the empty panel list, so each stage moment
    // is exactly zero.
    lemma_stage_no_panels(s);
    assert(k1.1 == z);
    let a1 = sv_advance(s.transform, s.momentum, k1.0, k1.1, h);
    assert(a1 is Some);
    let (tf1, p1) = a1->Some_0;
    lemma_stage_no_panels(sv_with(s, tf1, p1));
    assert(k2.1 == z);
    let a2 = sv_advance(s.transform, s.momentum, k2.0, k2.1, h);
    assert(a2 is Some);
    let (tfb, pb) = a2->Some_0;
    lemma_stage_no_panels(sv_with(s, tfb, pb));
    assert(k3.1 == z);
    let a3 = sv_advance(s.transform, s.momentum, k3.0, k3.1, dt);
    assert(a3 is Some);
    let (tfc, pc) = a3->Some_0;
    lemma_stage_no_panels(sv_with(s, tfc, pc));
    assert(k4.1 == z);
    // The weighted combination of four zero moments is the zero moment.
    lemma_momt_add_zeros();
    lemma_momt_scale_zero(frac_int(2));
    assert(rk4_combine_momt(k1.1, k2.1, k3.1, k4.1) == Some(z));
    let dt6 = crate::vec3::m_div(Some(dt), Some(frac_int(6)));
    assert(dt6 is Some);
    let d6 = dt6->Some_0;
    assert(frac_div(dt, frac_int(6)).d != 0) by (nonlinear_arith)
        requires
            frac_ok(dt),
    ;
    lemma_chk_some(frac_div(dt, frac_int(6)));
    let kvo = crate::rk4_combine_vel(k1.0, k2.0, k3.0, k4.0);
    assert(kvo is Some);
    let kv = kvo->Some_0;
    assert(sv_advance(s.transform, s.momentum, kv, z, d6) == Some((tf2, p2)));
    lemma_advance_zero_moment_keeps_momentum(s.transform, s.momentum, kv, d6, tf2, p2);
}

/// Multiplying by a quotient is multiplying by the reciprocal:
/// `a * (b / l)` and `(a * b) * (1 / l)` are the same value.
proof fn lemma_mul_div_swap(a: Frac, b: Frac, l: Frac)
    by (nonlinear_arith)
    requires
        a.d != 0,
        b.d != 0,
        l.n != 0,
    ensures
        frac_eq(
            frac_mul(a, frac_div(b, l)),
            frac_mul(frac_mul(a, b), frac_div(frac_one(), l)),
        ),
{
}

/// Multiplication distributes over addition of values:
/// `a*c + b*c` equals `(a + b)*c`.
proof fn lemma_mul_distributes(a: Frac, b: Frac, c: Frac)
    requires
        a.d != 0,
        b.d != 0,
        c.d != 0,
    ensures
        frac_eq(frac_add(frac_mul(a, c), frac_mul(b, c)), frac_mul(frac_add(a, b), c)),
{
    vstd::arithmetic::mul::lemma_mul_is_distributive_add_other_way(
        (a.d * b.d) * c.d,
        (a.n * c.n) * (b.d * c.d),
        (b.n * c.n) * (a.d * c.d),
    );
    assert((a.n * c.n) * (b.d * c.d) == ((a.n * b.d) * c.n) * c.d) by (nonlinear_arith);
    assert(c.d * ((a.d * b.d) * c.d) == (a.d * c.d) * (b.d * c.d)) by (nonlinear_arith);
    vstd::arithmetic::mul::lemma_mul_is_associative((a.n * b.d) * c.n, c.d, (a.d * b.d) * c.d);
    assert(((a.n * c.n) * (b.d * c.d)) * ((a.d * b.d) * c.d) == ((a.n * b.d) * c.n) * ((a.d * c.d)
        * (b.d * c.d)));
    assert((b.n * c.n) * (a.d * c.d) == ((b.n * a.d) * c.n) * c.d) by (nonlinear_arith);
    vstd::arithmetic::mul::lemma_mul_is_associative((b.n * a.d) * c.n, c.d, (a.d * b.d) * c.d);
    assert(((b.n * c.n) * (a.d * c.d)) * ((a.d * b.d) * c.d) == ((b.n * a.d) * c.n) * ((a.d * c.d)
        * (b.d * c.d)));
    vstd::arithmetic::mul::lemma_mul_is_distributive_add_other_way(c.n, a.n * b.d, b.n * a.d);
    vstd::arithmetic::mul::lemma_mul_is_distributive_add_other_way(
        (a.d * c.d) * (b.d * c.d),
        (a.n * b.d) * c.n,
        (b.n * a.d) * c.n,
    );
}

/// A panel force under flow parallel to its surface is exactly zero: when
/// the normal and the relative velocity have a zero dot product as values,
/// every representable evaluation of the force model yields the zero
/// vector.
pub proof fn law_to_force_perpendicular(p: PV, v: V3)
    requires
        v3_ok(p.normal),
        v3_ok(v),
        frac_ok(p.area),
        frac_eq(
            frac_add(
                frac_add(frac_mul(p.normal.x, v.x), frac_mul(p.normal.y, v.y)),
                frac_mul(p.normal.z, v.z),
            ),
            frac_zero(),
        ),
    ensures
        ({
            match pv_to_force(p, v) {
                Some(f) => f == v3_zero(),
                None => true,
            }
        }),
{
    if v.x.n == 0 && v.y.n == 0 && v.z.n == 0 {
        // The zero-velocity branch: covered by the rest-state reasoning.
        law_to_force_zero_velocity_with(p, v);
    } else {
        if pv_to_force(p, v) is Some {
            let nn = p.normal;
            // The squared-length chain is representable and well formed.
            let qx = frac_mul(v.x, v.x);
            let qy = frac_mul(v.y, v.y);
            let qz = frac_mul(v.z, v.z);
            assert(qx.d != 0 && qy.d != 0 && qz.d != 0) by (nonlinear_arith)
                requires
                    v3_ok(v),
                    qx == frac_mul(v.x, v.x),
                    qy == frac_mul(v.y, v.y),
                    qz == frac_mul(v.z, v.z),
            ;
            lemma_chk_some(qx);
            lemma_chk_some(qy);
            lemma_chk_some(qz);
            let qx2 = chk(qx)->Some_0;
            let qy2 = chk(qy)->Some_0;
            let qz2 = chk(qz)->Some_0;
            let qs1 = frac_add(qx2, qy2);
            assert(qs1.d != 0) by (nonlinear_arith)
                requires
                    qx2.d > 0,
                    qy2.d > 0,
                    qs1 == frac_add(qx2, qy2),
            ;
            lemma_chk_some(qs1);
            let qs1c = chk(qs1)->Some_0;
            let qs2 = frac_add(qs1c, qz2);
            assert(qs2.d != 0) by (nonlinear_arith)
                requires
                    qs1c.d > 0,
                    qz2.d > 0,
                    qs2 == frac_add(qs1c, qz2),
            ;
            lemma_chk_some(qs2);
            let sq = chk(qs2)->Some_0;
            // The floor square root of the squared length.
            let l = crate::rational::m_sqrt(Some(sq))->Some_0;
            assert(l.n != 0);
            // Each normalized component keeps the value of v_i / l.
            let ux = chk(frac_div(v.x, l))->Some_0;
            let uy = chk(frac_div(v.y, l))->Some_0;
            let uz = chk(frac_div(v.z, l))->Some_0;
            assert(frac_div(v.x, l).d != 0 && frac_div(v.y, l).d != 0 && frac_div(v.z, l).d != 0)
                by (nonlinear_arith)
                requires
                    v3_ok(v),
                    l.n != 0,
            ;
            lemma_chk_some(frac_div(v.x, l));
            lemma_chk_some(frac_div(v.y, l));
            lemma_chk_some(frac_div(v.z, l));
            // The computed dot product keeps the value of the exact sum of
            // the three quotients.
            let inv = frac_div(frac_one(), l);
            let mx = frac_mul(nn.x, ux);
            let my = frac_mul(nn.y, uy);
            let mz = frac_mul(nn.z, uz);
            assert(mx.d != 0 && my.d != 0 && mz.d != 0) by (nonlinear_arith)
                requires
                    v3_ok(nn),
                    ux.d > 0,
                    uy.d > 0,
                    uz.d > 0,
                    mx == frac_mul(nn.x, ux),
                    my == frac_mul(nn.y, uy),
                    mz == frac_mul(nn.z, uz),
            ;
            lemma_chk_some(mx);
            lemma_chk_some(my);
            lemma_chk_some(mz);
            let mx2 = chk(mx)->Some_0;
            let my2 = chk(my)->Some_0;
            let mz2 = chk(mz)->Some_0;
            // mx2 keeps the value of (n.x * v.x) * (1 / l), and so on.
            lemma_frac_mul_congr(nn.x, nn.x, ux, frac_div(v.x, l));
            lemma_frac_mul_congr(nn.y, nn.y, uy, frac_div(v.y, l));
            lemma_frac_mul_congr(nn.z, nn.z, uz, frac_div(v.z, l));
            lemma_mul_div_swap(nn.x, v.x, l);
            lemma_mul_div_swap(nn.y, v.y, l);
            lemma_mul_div_swap(nn.z, v.z, l);
            let px = frac_mul(frac_mul(nn.x, v.x), inv);
            let py = frac_mul(frac_mul(nn.y, v.y), inv);
            let pz = frac_mul(frac_mul(nn.z, v.z), inv);
            assert(frac_mul(nn.x, frac_div(v.x, l)).d != 0 && frac_mul(nn.y, frac_div(v.y, l)).d
                != 0 && frac_mul(nn.z, frac_div(v.z, l)).d != 0 && px.d != 0 && py.d != 0 && pz.d
                != 0 && inv.d != 0) by (nonlinear_arith)
                requires
                    v3_ok(nn),
                    v3_ok(v),
                    l.n != 0,
                    inv == frac_div(frac_one(), l),
                    px == frac_mul(frac_mul(nn.x, v.x), inv),
                    py == frac_mul(frac_mul(nn.y, v.y), inv),
                    pz == frac_mul(frac_mul(nn.z, v.z), inv),
            ;
            lemma_frac_eq_trans(mx2, mx, frac_mul(nn.x, frac_div(v.x, l)));
            lemma_frac_eq_trans(my2, my, frac_mul(nn.y, frac_div(v.y, l)));
            lemma_frac_eq_trans(mz2, mz, frac_mul(nn.z, frac_div(v.z, l)));
            lemma_frac_eq_trans(mx2, frac_mul(nn.x, frac_div(v.x, l)), px);
            lemma_frac_eq_trans(my2, frac_mul(nn.y, frac_div(v.y, l)), py);
            lemma_frac_eq_trans(mz2, frac_mul(nn.z, frac_div(v.z, l)), pz);
            // Sum the three terms and factor out the reciprocal.
            let s1 = frac_add(mx2, my2);
            assert(s1.d != 0) by (nonlinear_arith)
                requires
                    mx2.d > 0,
                    my2.d > 0,
                    s1 == frac_add(mx2, my2),
            ;
            lemma_chk_some(s1);
            let s1c = chk(s1)->Some_0;
            crate::rational::lemma_frac_add_congr(mx2, px, my2, py);
            assert(frac_add(px, py).d != 0) by (nonlinear_arith)
                requires
                    px.d != 0,
                    py.d != 0,
            ;
            lemma_frac_eq_trans(s1c, s1, frac_add(px, py));
            let s2 = frac_add(s1c, mz2);
            assert(s2.d != 0) by (nonlinear_arith)
                requires
                    s1c.d > 0,
                    mz2.d > 0,
                    s2 == frac_add(s1c, mz2),
            ;
            lemma_chk_some(s2);
            let d0 = chk(s2)->Some_0;
            crate::rational::lemma_frac_add_congr(s1c, frac_add(px, py), mz2, pz);
            assert(frac_add(frac_add(px, py), pz).d != 0) by (nonlinear_arith)
                requires
                    px.d != 0,
                    py.d != 0,
                    pz.d != 0,
            ;
            lemma_frac_eq_trans(d0, s2, frac_add(frac_add(px, py), pz));
            // (nx vx) inv + (ny vy) inv + (nz vz) inv equals (sum) * inv,
            // and the hypothesis makes that sum zero in value.
            let ax = frac_mul(nn.x, v.x);
            let ay = frac_mul(nn.y, v.y);
            let az = frac_mul(nn.z, v.z);
            assert(ax.d != 0 && ay.d != 0 && az.d != 0 && frac_add(ax, ay).d != 0 && frac_add(
                frac_add(ax, ay),
                az,
            ).d != 0) by (nonlinear_arith)
                requires
                    v3_ok(nn),
                    v3_ok(v),
                    ax == frac_mul(nn.x, v.x),
                    ay == frac_mul(nn.y, v.y),
                    az == frac_mul(nn.z, v.z),
            ;
            lemma_mul_distributes(ax, ay, inv);
            lemma_mul_distributes(frac_add(ax, ay), az, inv);
            let total = frac_mul(frac_add(frac_add(ax, ay), az), inv);
            assert(frac_mul(frac_add(ax, ay), inv).d != 0 && frac_mul(ax, inv).d != 0 && frac_mul(
                ay,
                inv,
            ).d != 0 && frac_mul(az, inv).d != 0 && frac_add(
                frac_mul(frac_add(ax, ay), inv),
                frac_mul(az, inv),
            ).d != 0 && total.d != 0) by (nonlinear_arith)
                requires
                    ax.d != 0,
                    ay.d != 0,
                    az.d != 0,
                    inv.d != 0,
                    total == frac_mul(frac_add(frac_add(ax, ay), az), inv),
            ;
            crate::rational::lemma_frac_add_congr(
                frac_add(px, py),
                frac_mul(frac_add(ax, ay), inv),
                pz,
                pz,
            );
            lemma_frac_eq_trans(
                d0,
                frac_add(frac_add(px, py), pz),
                frac_add(frac_mul(frac_add(ax, ay), inv), frac_mul(az, inv)),
            );
            lemma_frac_eq_trans(
                d0,
                frac_add(frac_mul(frac_add(ax, ay), inv), frac_mul(az, inv)),
                total,
            );
            assert(frac_eq(total, frac_zero())) by (nonlinear_arith)
                requires
                    frac_eq(frac_add(frac_add(ax, ay), az), frac_zero()),
                    total == frac_mul(frac_add(frac_add(ax, ay), az), inv),
            ;
            lemma_frac_eq_trans(d0, total, frac_zero());
            assert(d0.n == 0) by (nonlinear_arith)
                requires
                    frac_eq(d0, frac_zero()),
            ;
            // A zero projected area zeroes the coefficient and the force.
            assert(frac_mul(d0, p.area).n == 0 && frac_mul(d0, p.area).d > 0) by (nonlinear_arith)
                requires
                    d0.n == 0,
                    d0.d > 0,
                    frac_ok(p.area),
            ;
            lemma_chk_zero_num(frac_mul(d0, p.area));
            let c1 = frac_mul(crate::panels::density_frac(), sq);
            assert(c1.d != 0) by (nonlinear_arith)
                requires
                    sq.d > 0,
                    c1 == frac_mul(crate::panels::density_frac(), sq),
            ;
            lemma_chk_some(c1);
            let c1v = chk(c1)->Some_0;
            let c2 = frac_mul(c1v, crate::panels::half_c_d_frac());
            assert(c2.d != 0) by (nonlinear_arith)
                requires
                    c1v.d > 0,
                    c2 == frac_mul(c1v, crate::panels::half_c_d_frac()),
            ;
            lemma_chk_some(c2);
            let c2v = chk(c2)->Some_0;
            assert(frac_mul(c2v, frac_zero()).n == 0 && frac_mul(c2v, frac_zero()).d > 0)
                by (nonlinear_arith)
                requires
                    c2v.d > 0,
            ;
            lemma_chk_zero_num(frac_mul(c2v, frac_zero()));
            assert(frac_mul(crate::rational::frac_neg(nn.x), frac_zero()).d > 0 && frac_mul(
                crate::rational::frac_neg(nn.y),
                frac_zero(),
            ).d > 0 && frac_mul(crate::rational::frac_neg(nn.z), frac_zero()).d > 0)
                by (nonlinear_arith)
                requires
                    v3_ok(nn),
            ;
            lemma_chk_zero_num(frac_mul(crate::rational::frac_neg(nn.x), frac_zero()));
            lemma_chk_zero_num(frac_mul(crate::rational::frac_neg(nn.y), frac_zero()));
            lemma_chk_zero_num(frac_mul(crate::rational::frac_neg(nn.z), frac_zero()));
        }
    }
}

/// The rest-state force law restated for a velocity whose components all
/// have zero numerators.
proof fn law_to_force_zero_velocity_with(p: PV, v: V3)
    requires
        v3_ok(p.normal),
        v3_ok(v),
        frac_ok(p.area),
        v.x.n == 0,
        v.y.n == 0,
        v.z.n == 0,
    ensures
        pv_to_force(p, v) == Some(v3_zero()),
{
    let z = frac_zero();
    assert(frac_mul(v.x, v.x).d > 0 && frac_mul(v.y, v.y).d > 0 && frac_mul(v.z, v.z).d > 0)
        by (nonlinear_arith)
        requires
            v3_ok(v),
    ;
    lemma_chk_zero_num(frac_mul(v.x, v.x));
    lemma_chk_zero_num(frac_mul(v.y, v.y));
    lemma_chk_zero_num(frac_mul(v.z, v.z));
    lemma_chk_zero_num(frac_mul(p.normal.x, z));
    lemma_chk_zero_num(frac_mul(p.normal.y, z));
    lemma_chk_zero_num(frac_mul(p.normal.z, z));
    lemma_chk_zero_num(frac_mul(z, z));
    lemma_chk_zero_num(frac_add(z, z));
    lemma_chk_zero_num(frac_mul(z, p.area));
    lemma_chk_zero_num(frac_mul(crate::panels::density_frac(), z));
    lemma_chk_zero_num(frac_mul(z, crate::panels::half_c_d_frac()));
    lemma_chk_zero_num(frac_mul(crate::rational::frac_neg(p.normal.x), z));
    lemma_chk_zero_num(frac_mul(crate::rational::frac_neg(p.normal.y), z));
    lemma_chk_zero_num(frac_mul(crate::rational::frac_neg(p.normal.z), z));
}

/// Dividing value-equal numerators by the same nonzero scalar gives
/// value-equal, well-formed quotients.
proof fn lemma_div_congr_chk(p1: Frac, p0: Frac, m: Frac, v1: Frac, v0: Frac)
    requires
        frac_ok(p1),
        frac_ok(p0),
        frac_ok(m),
        m.n != 0,
        frac_eq(p1, p0),
        chk(frac_div(p1, m)) == Some(v1),
        chk(frac_div(p0, m)) == Some(v0),
    ensures
        frac_eq(v1, v0),
        frac_ok(v1),
        frac_ok(v0),
{
    assert(frac_div(p1, m).d != 0 && frac_div(p0, m).d != 0) by (nonlinear_arith)
        requires
            frac_ok(p1),
            frac_ok(p0),
            m.n != 0,
    ;
    lemma_chk_some(frac_div(p1, m));
    lemma_chk_some(frac_div(p0, m));
    crate::rational::lemma_frac_div_congr(p1, p0, m, m);
    lemma_frac_eq_trans(v1, frac_div(p1, m), frac_div(p0, m));
    lemma_frac_eq_trans(v1, frac_div(p0, m), v0);
}

/// The checked Runge-Kutta weight combination of four scalars that all
/// share one value `v` has the value `6 * v`.
proof fn lemma_combine_scalar(
    k1: Frac,
    k2: Frac,
    k3: Frac,
    k4: Frac,
    v: Frac,
    w2: Frac,
    w3: Frac,
    a: Frac,
    b: Frac,
    kv: Frac,
)
    requires
        frac_ok(k1),
        frac_ok(k2),
        frac_ok(k3),
        frac_ok(k4),
        frac_ok(v),
        frac_eq(k1, v),
        frac_eq(k2, v),
        frac_eq(k3, v),
        frac_eq(k4, v),
        chk(frac_mul(k2, frac_int(2))) == Some(w2),
        chk(frac_mul(k3, frac_int(2))) == Some(w3),
        chk(frac_add(k1, w2)) == Some(a),
        chk(frac_add(a, w3)) == Some(b),
        chk(frac_add(b, k4)) == Some(kv),
    ensures
        frac_eq(kv, frac_mul(frac_int(6), v)),
        frac_ok(kv),
{
    let two = frac_int(2);
    assert(frac_mul(k2, frac_int(2)).d != 0 && frac_mul(k3, frac_int(2)).d != 0 && frac_mul(
        v,
        frac_int(2),
    ).d != 0) by (nonlinear_arith)
        requires
            frac_ok(k2),
            frac_ok(k3),
            frac_ok(v),
    ;
    lemma_chk_some(frac_mul(k2, two));
    lemma_chk_some(frac_mul(k3, two));
    lemma_frac_mul_congr(k2, v, two, two);
    lemma_frac_mul_congr(k3, v, two, two);
    lemma_frac_eq_trans(w2, frac_mul(k2, two), frac_mul(v, two));
    lemma_frac_eq_trans(w3, frac_mul(k3, two), frac_mul(v, two));
    assert(frac_add(k1, w2).d != 0) by (nonlinear_arith)
        requires
            frac_ok(k1),
            w2.d > 0,
    ;
    lemma_chk_some(frac_add(k1, w2));
    crate::rational::lemma_frac_add_congr(k1, v, w2, frac_mul(v, two));
    let t1 = frac_add(v, frac_mul(v, two));
    assert(t1.d != 0) by (nonlinear_arith)
        requires
            frac_ok(v),
            t1 == frac_add(v, frac_mul(v, frac_int(2))),
    ;
    lemma_frac_eq_trans(a, frac_add(k1, w2), t1);
    assert(frac_add(a, w3).d != 0) by (nonlinear_arith)
        requires
            a.d > 0,
            w3.d > 0,
    ;
    lemma_chk_some(frac_add(a, w3));
    crate::rational::lemma_frac_add_congr(a, t1, w3, frac_mul(v, two));
    let t2 = frac_add(t1, frac_mul(v, two));
    assert(t2.d != 0) by (nonlinear_arith)
        requires
            t1.d != 0,
            frac_ok(v),
            t2 == frac_add(t1, frac_mul(v, frac_int(2))),
    ;
    lemma_frac_eq_trans(b, frac_add(a, w3), t2);
    assert(frac_add(b, k4).d != 0) by (nonlinear_arith)
        requires
            b.d > 0,
            frac_ok(k4),
    ;
    lemma_chk_some(frac_add(b, k4));
    crate::rational::lemma_frac_add_congr(b, t2, k4, v);
    let t3 = frac_add(t2, v);
    assert(t3.d != 0) by (nonlinear_arith)
        requires
            t2.d != 0,
            frac_ok(v),
            t3 == frac_add(t2, v),
    ;
    lemma_frac_eq_trans(kv, frac_add(b, k4), t3);
    assert(frac_eq(
        frac_add(frac_add(frac_add(v, frac_mul(v, frac_int(2))), frac_mul(v, frac_int(2))), v),
        frac_mul(frac_int(6), v),
    )) by (nonlinear_arith)
        requires
            frac_ok(v),
    ;
    lemma_frac_eq_trans(kv, t3, frac_mul(frac_int(6), v));
}

/// Advancing a coordinate by `6 v` over a sixth of the span moves it by
/// exactly `v * dt`.
proof fn lemma_scalar_translate(t: Frac, kv: Frac, v: Frac, dt: Frac, dt6: Frac, dx: Frac, out: Frac)
    requires
        frac_ok(t),
        frac_ok(v),
        frac_ok(dt),
        frac_ok(kv),
        frac_ok(dt6),
        frac_eq(kv, frac_mul(frac_int(6), v)),
        frac_eq(dt6, frac_div(dt, frac_int(6))),
        chk(frac_mul(kv, dt6)) == Some(dx),
        chk(frac_add(t, dx)) == Some(out),
    ensures
        frac_eq(out, frac_add(t, frac_mul(v, dt))),
{
    assert(frac_mul(kv, dt6).d != 0) by (nonlinear_arith)
        requires
            frac_ok(kv),
            frac_ok(dt6),
    ;
    lemma_chk_some(frac_mul(kv, dt6));
    assert(frac_mul(frac_int(6), v).d != 0 && frac_div(dt, frac_int(6)).d != 0)
        by (nonlinear_arith)
        requires
            frac_ok(v),
            frac_ok(dt),
    ;
    lemma_frac_mul_congr(kv, frac_mul(frac_int(6), v), dt6, frac_div(dt, frac_int(6)));
    lemma_frac_eq_trans(dx, frac_mul(kv, dt6), frac_mul(
        frac_mul(frac_int(6), v),
        frac_div(dt, frac_int(6)),
    ));
    assert(frac_eq(
        frac_mul(frac_mul(frac_int(6), v), frac_div(dt, frac_int(6))),
        frac_mul(v, dt),
    )) by (nonlinear_arith)
        requires
            frac_ok(v),
            frac_ok(dt),
    ;
    assert(frac_mul(frac_mul(frac_int(6), v), frac_div(dt, frac_int(6))).d != 0)
        by (nonlinear_arith)
        requires
            frac_ok(v),
            frac_ok(dt),
    ;
    lemma_frac_eq_trans(dx, frac_mul(frac_mul(frac_int(6), v), frac_div(dt, frac_int(6))),
        frac_mul(v, dt));
    assert(frac_add(t, dx).d != 0) by (nonlinear_arith)
        requires
            frac_ok(t),
            dx.d > 0,
    ;
    lemma_chk_some(frac_add(t, dx));
    assert(frac_mul(v, dt).d != 0) by (nonlinear_arith)
        requires
            frac_ok(v),
            frac_ok(dt),
    ;
    crate::rational::lemma_frac_add_congr(t, t, dx, frac_mul(v, dt));
    lemma_frac_eq_trans(out, frac_add(t, dx), frac_add(t, frac_mul(v, dt)));
}

/// The linear velocity of a stage state keeps the value of the original
/// linear velocity whenever the stage momentum keeps the original value:
/// both divide by the same unrotated mass scalar.
proof fn lemma_stage_linear_velocity(s: SV, tf: TV, p: MomV, v0: VelV, v1: VelV)
    requires
        frac_ok(s.mass.mass),
        mom_ok(s.momentum),
        mom_ok(p),
        v3_eqv(p.linear, s.momentum.linear),
        sv_velocity(s) == Some(v0),
        sv_velocity(sv_with(s, tf, p)) == Some(v1),
    ensures
        v3_eqv(v1.linear, v0.linear),
        v3_ok(v1.linear),
        v3_ok(v0.linear),
{
    reveal(sv_velocity);
    reveal(crate::inertia_mass::im_rotated);
    reveal(crate::inertia_mass::im_rot_mat);
    let m0 = crate::inertia_mass::im_rotated(s.mass, s.transform.rotation)->Some_0;
    let m1 = crate::inertia_mass::im_rotated(s.mass, tf.rotation)->Some_0;
    assert(m0.mass == s.mass.mass);
    assert(m1.mass == s.mass.mass);
    let m = s.mass.mass;
    assert(m.n != 0);
    lemma_div_congr_chk(p.linear.x, s.momentum.linear.x, m, v1.linear.x, v0.linear.x);
    lemma_div_congr_chk(p.linear.y, s.momentum.linear.y, m, v1.linear.y, v0.linear.y);
    lemma_div_congr_chk(p.linear.z, s.momentum.linear.z, m, v1.linear.z, v0.linear.z);
}

/// With an empty panel list and no external moment, one Runge-Kutta step
/// advances the translation by exactly the linear velocity times the span:
/// the four stage velocities share the conserved momentum, so the scheme
/// reduces to exact integration for the linear part.
#[verifier::rlimit(100)]
#[verifier::spinoff_prover]
pub proof fn law_step_advances_translation(s: SV, dt: Frac, tf2: TV, p2: MomV, v0: VelV)
    requires
        s.panels.len() == 0,
        frac_ok(s.mass.mass),
        mom_ok(s.momentum),
        v3_ok(s.transform.translation),
        frac_ok(dt),
        sv_velocity(s) == Some(v0),
        sv_step(s, dt, momt_zero()) == Some((tf2, p2)),
    ensures
        frac_eq(tf2.translation.x, frac_add(s.transform.translation.x, frac_mul(v0.linear.x, dt))),
        frac_eq(tf2.translation.y, frac_add(s.transform.translation.y, frac_mul(v0.linear.y, dt))),
        frac_eq(tf2.translation.z, frac_add(s.transform.translation.z, frac_mul(v0.linear.z, dt))),
{
    reveal(sv_step);
    reveal(sv_stages);
    let z = momt_zero();
    let half = crate::vec3::m_div(Some(dt), Some(frac_int(2)))->Some_0;
    assert(frac_div(dt, frac_int(2)).d != 0) by (nonlinear_arith)
        requires
            frac_ok(dt),
    ;
    lemma_chk_some(frac_div(dt, frac_int(2)));
    let (k1, k2, k3, k4) = sv_stages(s, dt, z, half)->Some_0;
    lemma_stage_no_panels(s);
    assert(k1.0 == v0);
    let (tf1, p1) = sv_advance(s.transform, s.momentum, k1.0, k1.1, half)->Some_0;
    lemma_advance_zero_moment_keeps_momentum(s.transform, s.momentum, k1.0, half, tf1, p1);
    lemma_stage_no_panels(sv_with(s, tf1, p1));
    lemma_stage_linear_velocity(s, tf1, p1, v0, k2.0);
    let (tfb, pb) = sv_advance(s.transform, s.momentum, k2.0, k2.1, half)->Some_0;
    lemma_advance_zero_moment_keeps_momentum(s.transform, s.momentum, k2.0, half, tfb, pb);
    lemma_stage_no_panels(sv_with(s, tfb, pb));
    lemma_stage_linear_velocity(s, tfb, pb, v0, k3.0);
    let (tfc, pc) = sv_advance(s.transform, s.momentum, k3.0, k3.1, dt)->Some_0;
    lemma_advance_zero_moment_keeps_momentum(s.transform, s.momentum, k3.0, dt, tfc, pc);
    lemma_stage_no_panels(sv_with(s, tfc, pc));
    lemma_stage_linear_velocity(s, tfc, pc, v0, k4.0);
    // The combined velocity has the value 6 v0 in each linear component.
    let w2 = crate::vel_scalev(k2.0, frac_int(2))->Some_0;
    let w3 = crate::vel_scalev(k3.0, frac_int(2))->Some_0;
    let a = crate::vel_addv(k1.0, w2)->Some_0;
    let b = crate::vel_addv(a, w3)->Some_0;
    let kv = crate::rk4_combine_vel(k1.0, k2.0, k3.0, k4.0)->Some_0;
    assert(v3_ok(v0.linear) && v3_ok(k2.0.linear) && v3_ok(k3.0.linear) && v3_ok(k4.0.linear)) by {
        lemma_stage_linear_velocity(s, tf1, p1, v0, k2.0);
    }
    lemma_combine_scalar(
        k1.0.linear.x,
        k2.0.linear.x,
        k3.0.linear.x,
        k4.0.linear.x,
        v0.linear.x,
        w2.linear.x,
        w3.linear.x,
        a.linear.x,
        b.linear.x,
        kv.linear.x,
    );
    lemma_combine_scalar(
        k1.0.linear.y,
        k2.0.linear.y,
        k3.0.linear.y,
        k4.0.linear.y,
        v0.linear.y,
        w2.linear.y,
        w3.linear.y,
        a.linear.y,
        b.linear.y,
        kv.linear.y,
    );
    lemma_combine_scalar(
        k1.0.linear.z,
        k2.0.linear.z,
        k3.0.linear.z,
        k4.0.linear.z,
        v0.linear.z,
        w2.linear.z,
        w3.linear.z,
        a.linear.z,
        b.linear.z,
        kv.linear.z,
    );
    // The final advance moves each coordinate by v0 times dt.
    let dt6 = crate::vec3::m_div(Some(dt), Some(frac_int(6)))->Some_0;
    assert(frac_div(dt, frac_int(6)).d != 0) by (nonlinear_arith)
        requires
            frac_ok(dt),
    ;
    lemma_chk_some(frac_div(dt, frac_int(6)));
    let km = rk4_combine_momt(k1.1, k2.1, k3.1, k4.1)->Some_0;
    let dxv = crate::velocity::vel_mul_secs(kv, dt6)->Some_0;
    lemma_scalar_translate(
        s.transform.translation.x,
        kv.linear.x,
        v0.linear.x,
        dt,
        dt6,
        dxv.translation.x,
        tf2.translation.x,
    );
    lemma_scalar_translate(
        s.transform.translation.y,
        kv.linear.y,
        v0.linear.y,
        dt,
        dt6,
        dxv.translation.y,
        tf2.translation.y,
    );
    lemma_scalar_translate(
        s.transform.translation.z,
        kv.linear.z,
        v0.linear.z,
        dt,
        dt6,
        dxv.translation.z,
        tf2.translation.z,
    );
}

/// Swapping the factors of a product keeps its value.
proof fn lemma_mul_comm_val(a: Frac, b: Frac)
    by (nonlinear_arith)
    ensures
        frac_eq(frac_mul(b, a), frac_mul(a, b)),
{
}

/// Three cancellation shapes that the quaternion self-composition
/// produces: adding a term and later removing a value-equal term leaves
/// twice the base value.
/// Adding a fraction and subtracting it again keeps the value.
proof fn lemma_add_sub_cancel(b: Frac, m: Frac)
    by (nonlinear_arith)
    requires
        b.d != 0,
        m.d != 0,
    ensures
        frac_eq(frac_sub(frac_add(b, m), m), b),
{
}

/// Subtracting a fraction and adding it again keeps the value.
proof fn lemma_sub_add_cancel(b: Frac, m: Frac)
    by (nonlinear_arith)
    requires
        b.d != 0,
        m.d != 0,
    ensures
        frac_eq(frac_add(frac_sub(b, m), m), b),
{
}

/// A subtraction commutes past an addition of the base value.
proof fn lemma_sub_add_swap(a: Frac, m: Frac)
    requires
        a.d != 0,
        m.d != 0,
    ensures
        frac_eq(frac_add(frac_sub(a, m), a), frac_sub(frac_add(a, a), m)),
{
    assert(frac_add(frac_sub(a, m), a).n == frac_sub(frac_add(a, a), m).n) by (nonlinear_arith);
    assert(frac_add(frac_sub(a, m), a).d == frac_sub(frac_add(a, a), m).d) by (nonlinear_arith);
    assert(frac_eq(frac_add(frac_sub(a, m), a), frac_sub(frac_add(a, a), m)))
        by (nonlinear_arith)
        requires
            frac_add(frac_sub(a, m), a).n == frac_sub(frac_add(a, a), m).n,
            frac_add(frac_sub(a, m), a).d == frac_sub(frac_add(a, a), m).d,
    ;
}

/// A fraction added to itself is the fraction doubled.
proof fn lemma_add_self_double(a: Frac)
    by (nonlinear_arith)
    requires
        a.d != 0,
    ensures
        frac_eq(frac_add(a, a), frac_mul(frac_int(2), a)),
{
}

/// Three cancellation shapes that the quaternion self-composition
/// produces: adding a term and later removing a value-equal term leaves
/// twice the base value.
proof fn lemma_cancel_pair(a: Frac, m: Frac, m2: Frac)
    requires
        frac_ok(a),
        m.d != 0,
        m2.d != 0,
        frac_eq(m2, m),
    ensures
        frac_eq(frac_sub(frac_add(frac_add(a, a), m), m2), frac_mul(frac_int(2), a)),
        frac_eq(frac_add(frac_add(frac_sub(a, m), a), m2), frac_mul(frac_int(2), a)),
        frac_eq(frac_add(frac_sub(frac_add(a, m), m2), a), frac_mul(frac_int(2), a)),
{
    assert(frac_add(a, a).d != 0 && frac_add(frac_add(a, a), m).d != 0 && frac_sub(a, m).d != 0
        && frac_add(frac_sub(a, m), a).d != 0 && frac_add(a, m).d != 0 && frac_sub(
        frac_add(a, m),
        m,
    ).d != 0 && frac_sub(frac_add(a, m), m2).d != 0 && frac_sub(
        frac_add(frac_add(a, a), m),
        m,
    ).d != 0 && frac_add(frac_add(frac_sub(a, m), a), m).d != 0 && frac_add(
        frac_sub(frac_add(a, m), m),
        a,
    ).d != 0 && frac_sub(frac_add(a, a), m).d != 0 && frac_add(
        frac_sub(frac_add(a, a), m),
        m,
    ).d != 0) by (nonlinear_arith)
        requires
            frac_ok(a),
            m.d != 0,
            m2.d != 0,
    ;
    lemma_add_self_double(a);
    // First shape: (a + a + m) - m2.
    lemma_frac_sub_congr(frac_add(frac_add(a, a), m), frac_add(frac_add(a, a), m), m2, m);
    lemma_add_sub_cancel(frac_add(a, a), m);
    lemma_frac_eq_trans(
        frac_sub(frac_add(frac_add(a, a), m), m2),
        frac_sub(frac_add(frac_add(a, a), m), m),
        frac_add(a, a),
    );
    lemma_frac_eq_trans(
        frac_sub(frac_add(frac_add(a, a), m), m2),
        frac_add(a, a),
        frac_mul(frac_int(2), a),
    );
    // Second shape: ((a - m) + a) + m2.
    lemma_frac_add_congr(frac_add(frac_sub(a, m), a), frac_add(frac_sub(a, m), a), m2, m);
    lemma_sub_add_swap(a, m);
    lemma_frac_add_congr(frac_add(frac_sub(a, m), a), frac_sub(frac_add(a, a), m), m, m);
    lemma_sub_add_cancel(frac_add(a, a), m);
    lemma_frac_eq_trans(
        frac_add(frac_add(frac_sub(a, m), a), m2),
        frac_add(frac_add(frac_sub(a, m), a), m),
        frac_add(frac_sub(frac_add(a, a), m), m),
    );
    lemma_frac_eq_trans(
        frac_add(frac_add(frac_sub(a, m), a), m2),
        frac_add(frac_sub(frac_add(a, a), m), m),
        frac_add(a, a),
    );
    lemma_frac_eq_trans(
        frac_add(frac_add(frac_sub(a, m), a), m2),
        frac_add(a, a),
        frac_mul(frac_int(2), a),
    );
    // Third shape: ((a + m) - m2) + a.
    lemma_frac_sub_congr(frac_add(a, m), frac_add(a, m), m2, m);
    lemma_frac_add_congr(
        frac_sub(frac_add(a, m), m2),
        frac_sub(frac_add(a, m), m),
        a,
        a,
    );
    lemma_add_sub_cancel(a, m);
    lemma_frac_add_congr(frac_sub(frac_add(a, m), m), a, a, a);
    lemma_frac_eq_trans(
        frac_add(frac_sub(frac_add(a, m), m2), a),
        frac_add(frac_sub(frac_add(a, m), m), a),
        frac_add(a, a),
    );
    lemma_frac_eq_trans(
        frac_add(frac_sub(frac_add(a, m), m2), a),
        frac_add(a, a),
        frac_mul(frac_int(2), a),
    );
}

/// The self-composition of a first-order rotation increment.  Every
/// increment [`crate::velocity::AngVel::mul_secs`] produces has the shape
/// `(hx, hy, hz, 1)`; composing such a quaternion with itself gives, in
/// value, the vector part doubled and the scalar part
/// `1 - (hx*hx + hy*hy + hz*hz)`.  The increment for a doubled span has
/// the same doubled vector part but scalar part exactly one, so the two
/// are the same quaternion only when the vector part is zero: the
/// first-order increment is not the axis-angle exponential, and turns by
/// twice the arctangent of half the angle per application.
pub proof fn law_increment_compose_self(hx: Frac, hy: Frac, hz: Frac)
    requires
        frac_ok(hx),
        frac_ok(hy),
        frac_ok(hz),
    ensures
        ({
            let q = Q4 { x: hx, y: hy, z: hz, w: frac_one() };
            match mq_mul(Some(q), Some(q)) {
                Some(t) => frac_eq(t.x, frac_mul(frac_int(2), hx)) && frac_eq(
                    t.y,
                    frac_mul(frac_int(2), hy),
                ) && frac_eq(t.z, frac_mul(frac_int(2), hz)) && frac_eq(
                    t.w,
                    frac_sub(
                        frac_sub(frac_sub(frac_one(), frac_mul(hx, hx)), frac_mul(hy, hy)),
                        frac_mul(hz, hz),
                    ),
                ),
                None => true,
            }
        }),
{
    let one = frac_one();
    let q = Q4 { x: hx, y: hy, z: hz, w: one };
    if mq_mul(Some(q), Some(q)) is Some {
        let t = mq_mul(Some(q), Some(q))->Some_0;
        // Multiplying by one keeps the fraction unchanged, on either side.
        assert(frac_mul(one, hx) == hx && frac_mul(hx, one) == hx);
        assert(frac_mul(one, hy) == hy && frac_mul(hy, one) == hy);
        assert(frac_mul(one, hz) == hz && frac_mul(hz, one) == hz);
        assert(frac_mul(one, one) == one);
        // The reduced forms of the components and products.
        lemma_chk_some(hx);
        lemma_chk_some(hy);
        lemma_chk_some(hz);
        lemma_chk_some(one);
        let a2 = chk(hx)->Some_0;
        let e2 = chk(hy)->Some_0;
        let i2 = chk(hz)->Some_0;
        let m2 = chk(one)->Some_0;
        lemma_chk_mul_ok(hy, hz);
        lemma_chk_mul_ok(hz, hy);
        lemma_chk_mul_ok(hx, hz);
        lemma_chk_mul_ok(hz, hx);
        lemma_chk_mul_ok(hx, hy);
        lemma_chk_mul_ok(hy, hx);
        lemma_chk_mul_ok(hx, hx);
        lemma_chk_mul_ok(hy, hy);
        lemma_chk_mul_ok(hz, hz);
        let cyz = chk(frac_mul(hy, hz))->Some_0;
        let czy = chk(frac_mul(hz, hy))->Some_0;
        let cxz = chk(frac_mul(hx, hz))->Some_0;
        let czx = chk(frac_mul(hz, hx))->Some_0;
        let cxy = chk(frac_mul(hx, hy))->Some_0;
        let cyx = chk(frac_mul(hy, hx))->Some_0;
        let xx = chk(frac_mul(hx, hx))->Some_0;
        let yy = chk(frac_mul(hy, hy))->Some_0;
        let zz = chk(frac_mul(hz, hz))->Some_0;
        // First axis: ((a2 + a2) + cyz) - czy has the value 2 hx.
        lemma_chk_add_ok(a2, a2);
        let s1 = chk(frac_add(a2, a2))->Some_0;
        lemma_chk_add_ok(s1, cyz);
        let s2 = chk(frac_add(s1, cyz))->Some_0;
        lemma_chk_sub_ok(s2, czy);
        assert(frac_add(a2, a2).d != 0 && frac_add(frac_add(a2, a2), cyz).d != 0 && frac_sub(
            frac_add(frac_add(a2, a2), cyz),
            czy,
        ).d != 0) by (nonlinear_arith)
            requires
                a2.d > 0,
                cyz.d > 0,
                czy.d > 0,
        ;
        lemma_frac_add_congr(s1, frac_add(a2, a2), cyz, cyz);
        lemma_frac_eq_trans(s2, frac_add(s1, cyz), frac_add(frac_add(a2, a2), cyz));
        lemma_frac_sub_congr(s2, frac_add(frac_add(a2, a2), cyz), czy, czy);
        lemma_frac_eq_trans(t.x, frac_sub(s2, czy), frac_sub(frac_add(frac_add(a2, a2), cyz), czy));
        lemma_mul_comm_val(hy, hz);
        lemma_frac_eq_trans(czy, frac_mul(hz, hy), frac_mul(hy, hz));
        lemma_frac_eq_trans(czy, frac_mul(hy, hz), cyz);
        lemma_cancel_pair(a2, cyz, czy);
        lemma_frac_eq_trans(
            t.x,
            frac_sub(frac_add(frac_add(a2, a2), cyz), czy),
            frac_mul(frac_int(2), a2),
        );
        assert(frac_eq(frac_mul(frac_int(2), a2), frac_mul(frac_int(2), hx))) by (nonlinear_arith)
            requires
                frac_eq(a2, hx),
                a2.d > 0,
                frac_ok(hx),
        ;
        assert(frac_mul(frac_int(2), a2).d != 0) by (nonlinear_arith)
            requires
                a2.d > 0,
        ;
        lemma_frac_eq_trans(t.x, frac_mul(frac_int(2), a2), frac_mul(frac_int(2), hx));
        // Second axis: ((e2 - cxz) + e2) + czx has the value 2 hy.
        lemma_chk_sub_ok(e2, cxz);
        let u1 = chk(frac_sub(e2, cxz))->Some_0;
        lemma_chk_add_ok(u1, e2);
        let u2 = chk(frac_add(u1, e2))->Some_0;
        lemma_chk_add_ok(u2, czx);
        assert(frac_sub(e2, cxz).d != 0 && frac_add(frac_sub(e2, cxz), e2).d != 0 && frac_add(
            frac_add(frac_sub(e2, cxz), e2),
            czx,
        ).d != 0) by (nonlinear_arith)
            requires
                e2.d > 0,
                cxz.d > 0,
                czx.d > 0,
        ;
        lemma_frac_add_congr(u1, frac_sub(e2, cxz), e2, e2);
        lemma_frac_eq_trans(u2, frac_add(u1, e2), frac_add(frac_sub(e2, cxz), e2));
        lemma_frac_add_congr(u2, frac_add(frac_sub(e2, cxz), e2), czx, czx);
        lemma_frac_eq_trans(t.y, frac_add(u2, czx), frac_add(frac_add(frac_sub(e2, cxz), e2), czx));
        lemma_mul_comm_val(hx, hz);
        lemma_frac_eq_trans(czx, frac_mul(hz, hx), frac_mul(hx, hz));
        lemma_frac_eq_trans(czx, frac_mul(hx, hz), cxz);
        lemma_cancel_pair(e2, cxz, czx);
        lemma_frac_eq_trans(
            t.y,
            frac_add(frac_add(frac_sub(e2, cxz), e2), czx),
            frac_mul(frac_int(2), e2),
        );
        assert(frac_eq(frac_mul(frac_int(2), e2), frac_mul(frac_int(2), hy))) by (nonlinear_arith)
            requires
                frac_eq(e2, hy),
                e2.d > 0,
                frac_ok(hy),
        ;
        assert(frac_mul(frac_int(2), e2).d != 0) by (nonlinear_arith)
            requires
                e2.d > 0,
        ;
        lemma_frac_eq_trans(t.y, frac_mul(frac_int(2), e2), frac_mul(frac_int(2), hy));
        // Third axis: ((i2 + cxy) - cyx) + i2 has the value 2 hz.
        lemma_chk_add_ok(i2, cxy);
        let w1 = chk(frac_add(i2, cxy))->Some_0;
        lemma_chk_sub_ok(w1, cyx);
        let w2 = chk(frac_sub(w1, cyx))->Some_0;
        lemma_chk_add_ok(w2, i2);
        assert(frac_add(i2, cxy).d != 0 && frac_sub(frac_add(i2, cxy), cyx).d != 0 && frac_add(
            frac_sub(frac_add(i2, cxy), cyx),
            i2,
        ).d != 0) by (nonlinear_arith)
            requires
                i2.d > 0,
                cxy.d > 0,
                cyx.d > 0,
        ;
        lemma_frac_sub_congr(w1, frac_add(i2, cxy), cyx, cyx);
        lemma_frac_eq_trans(w2, frac_sub(w1, cyx), frac_sub(frac_add(i2, cxy), cyx));
        lemma_frac_add_congr(w2, frac_sub(frac_add(i2, cxy), cyx), i2, i2);
        lemma_frac_eq_trans(t.z, frac_add(w2, i2), frac_add(frac_sub(frac_add(i2, cxy), cyx), i2));
        lemma_mul_comm_val(hx, hy);
        lemma_frac_eq_trans(cyx, frac_mul(hy, hx), frac_mul(hx, hy));
        lemma_frac_eq_trans(cyx, frac_mul(hx, hy), cxy);
        lemma_cancel_pair(i2, cxy, cyx);
        lemma_frac_eq_trans(
            t.z,
            frac_add(frac_sub(frac_add(i2, cxy), cyx), i2),
            frac_mul(frac_int(2), i2),
        );
        assert(frac_eq(frac_mul(frac_int(2), i2), frac_mul(frac_int(2), hz))) by (nonlinear_arith)
            requires
                frac_eq(i2, hz),
                i2.d > 0,
                frac_ok(hz),
        ;
        assert(frac_mul(frac_int(2), i2).d != 0) by (nonlinear_arith)
            requires
                i2.d > 0,
        ;
        lemma_frac_eq_trans(t.z, frac_mul(frac_int(2), i2), frac_mul(frac_int(2), hz));
        // Scalar part: ((m2 - xx) - yy) - zz has the value 1 - hx2 - hy2 - hz2.
        lemma_chk_sub_ok(m2, xx);
        let n1 = chk(frac_sub(m2, xx))->Some_0;
        lemma_chk_sub_ok(n1, yy);
        let n2 = chk(frac_sub(n1, yy))->Some_0;
        lemma_chk_sub_ok(n2, zz);
        assert(frac_sub(frac_one(), frac_mul(hx, hx)).d != 0 && frac_sub(
            frac_sub(frac_one(), frac_mul(hx, hx)),
            frac_mul(hy, hy),
        ).d != 0) by (nonlinear_arith)
            requires
                frac_ok(hx),
                frac_ok(hy),
        ;
        lemma_frac_sub_congr(m2, one, xx, frac_mul(hx, hx));
        lemma_frac_eq_trans(n1, frac_sub(m2, xx), frac_sub(one, frac_mul(hx, hx)));
        lemma_frac_sub_congr(n1, frac_sub(one, frac_mul(hx, hx)), yy, frac_mul(hy, hy));
        lemma_frac_eq_trans(n2, frac_sub(n1, yy), frac_sub(
            frac_sub(one, frac_mul(hx, hx)),
            frac_mul(hy, hy),
        ));
        lemma_frac_sub_congr(n2, frac_sub(frac_sub(one, frac_mul(hx, hx)), frac_mul(hy, hy)), zz,
            frac_mul(hz, hz));
        lemma_frac_eq_trans(t.w, frac_sub(n2, zz), frac_sub(
            frac_sub(frac_sub(one, frac_mul(hx, hx)), frac_mul(hy, hy)),
            frac_mul(hz, hz),
        ));
    }
}

/// With an empty panel list and no external moment, one forward-Euler
/// step conserves momentum exactly and advances the translation by
/// exactly the linear velocity times the span: the total moment is zero,
/// so the momentum update adds zero and at most renormalizes the stored
/// fractions, and the velocity of the updated state keeps the original
/// value.
pub proof fn law_euler_conserves_momentum(s: SV, dt: Frac, tf2: TV, p2: MomV, v0: VelV)
    requires
        s.panels.len() == 0,
        frac_ok(s.mass.mass),
        mom_ok(s.momentum),
        v3_ok(s.transform.translation),
        frac_ok(dt),
        sv_velocity(s) == Some(v0),
        crate::sv_euler(s, dt, momt_zero()) == Some((tf2, p2)),
    ensures
        v3_eqv(p2.linear, s.momentum.linear),
        v3_eqv(p2.angular, s.momentum.angular),
        frac_eq(tf2.translation.x, frac_add(s.transform.translation.x, frac_mul(v0.linear.x, dt))),
        frac_eq(tf2.translation.y, frac_add(s.transform.translation.y, frac_mul(v0.linear.y, dt))),
        frac_eq(tf2.translation.z, frac_add(s.transform.translation.z, frac_mul(v0.linear.z, dt))),
{
    reveal(crate::sv_euler);
    let z = momt_zero();
    lemma_stage_no_panels(s);
    lemma_momt_scale_zero(dt);
    let dp = momt_mul_secs(z, dt)->Some_0;
    // The momentum update adds an exactly-zero increment.
    let p = s.momentum;
    assert(frac_add(p.linear.x, frac_zero()) == p.linear.x) by (nonlinear_arith);
    assert(frac_add(p.linear.y, frac_zero()) == p.linear.y) by (nonlinear_arith);
    assert(frac_add(p.linear.z, frac_zero()) == p.linear.z) by (nonlinear_arith);
    assert(frac_add(p.angular.x, frac_zero()) == p.angular.x) by (nonlinear_arith);
    assert(frac_add(p.angular.y, frac_zero()) == p.angular.y) by (nonlinear_arith);
    assert(frac_add(p.angular.z, frac_zero()) == p.angular.z) by (nonlinear_arith);
    lemma_chk_some(p.linear.x);
    lemma_chk_some(p.linear.y);
    lemma_chk_some(p.linear.z);
    lemma_chk_some(p.angular.x);
    lemma_chk_some(p.angular.y);
    lemma_chk_some(p.angular.z);
    // The velocity of the updated state keeps the original linear value.
    lemma_stage_linear_velocity(s, s.transform, p2, v0, sv_velocity(sv_with(s, s.transform, p2))->Some_0);
    let v2 = sv_velocity(sv_with(s, s.transform, p2))->Some_0;
    // The translation advances by that velocity times the span.
    let dx = crate::velocity::vel_mul_secs(v2, dt)->Some_0;
    assert(frac_mul(v2.linear.x, dt).d != 0 && frac_mul(v2.linear.y, dt).d != 0 && frac_mul(
        v2.linear.z,
        dt,
    ).d != 0 && frac_mul(v0.linear.x, dt).d != 0 && frac_mul(v0.linear.y, dt).d != 0 && frac_mul(
        v0.linear.z,
        dt,
    ).d != 0) by (nonlinear_arith)
        requires
            v3_ok(v2.linear),
            v3_ok(v0.linear),
            frac_ok(dt),
    ;
    lemma_chk_some(frac_mul(v2.linear.x, dt));
    lemma_chk_some(frac_mul(v2.linear.y, dt));
    lemma_chk_some(frac_mul(v2.linear.z, dt));
    lemma_frac_mul_congr(v2.linear.x, v0.linear.x, dt, dt);
    lemma_frac_mul_congr(v2.linear.y, v0.linear.y, dt, dt);
    lemma_frac_mul_congr(v2.linear.z, v0.linear.z, dt, dt);
    lemma_frac_eq_trans(dx.translation.x, frac_mul(v2.linear.x, dt), frac_mul(v0.linear.x, dt));
    lemma_frac_eq_trans(dx.translation.y, frac_mul(v2.linear.y, dt), frac_mul(v0.linear.y, dt));
    lemma_frac_eq_trans(dx.translation.z, frac_mul(v2.linear.z, dt), frac_mul(v0.linear.z, dt));
    let t = s.transform.translation;
    assert(frac_add(t.x, dx.translation.x).d != 0 && frac_add(t.y, dx.translation.y).d != 0
        && frac_add(t.z, dx.translation.z).d != 0 && frac_add(t.x, frac_mul(v0.linear.x, dt)).d
        != 0 && frac_add(t.y, frac_mul(v0.linear.y, dt)).d != 0 && frac_add(
        t.z,
        frac_mul(v0.linear.z, dt),
    ).d != 0) by (nonlinear_arith)
        requires
            v3_ok(t),
            v3_ok(v0.linear),
            frac_ok(dt),
            frac_ok(dx.translation.x),
            frac_ok(dx.translation.y),
            frac_ok(dx.translation.z),
    ;
    lemma_chk_some(frac_add(t.x, dx.translation.x));
    lemma_chk_some(frac_add(t.y, dx.translation.y));
    lemma_chk_some(frac_add(t.z, dx.translation.z));
    lemma_frac_add_congr(t.x, t.x, dx.translation.x, frac_mul(v0.linear.x, dt));
    lemma_frac_add_congr(t.y, t.y, dx.translation.y, frac_mul(v0.linear.y, dt));
    lemma_frac_add_congr(t.z, t.z, dx.translation.z, frac_mul(v0.linear.z, dt));
    lemma_frac_eq_trans(tf2.translation.x, frac_add(t.x, dx.translation.x), frac_add(
        t.x,
        frac_mul(v0.linear.x, dt),
    ));
    lemma_frac_eq_trans(tf2.translation.y, frac_add(t.y, dx.translation.y), frac_add(
        t.y,
        frac_mul(v0.linear.y, dt),
    ));
    lemma_frac_eq_trans(tf2.translation.z, frac_add(t.z, dx.translation.z), frac_add(
        t.z,
        frac_mul(v0.linear.z, dt),
    ));
}

/// All components of a quaternion value have positive denominators.
pub open spec fn q4_okv(p: Q4) -> bool {
    frac_ok(p.x) && frac_ok(p.y) && frac_ok(p.z) && frac_ok(p.w)
}

/// The exact sum of the squared components of a quaternion value, summed
/// left to right.
pub open spec fn q4_sum_sq(p: Q4) -> Frac {
    frac_add(
        frac_add(frac_add(frac_mul(p.x, p.x), frac_mul(p.y, p.y)), frac_mul(p.z, p.z)),
        frac_mul(p.w, p.w),
    )
}

/// The checked squared norm keeps the value of the exact sum of squares.
proof fn lemma_norm_sq_value(p: Q4, s: Frac)
    requires
        q4_okv(p),
        crate::quat::mq_norm_sq(Some(p)) == Some(s),
    ensures
        frac_ok(s),
        q4_sum_sq(p).d != 0,
        frac_eq(s, q4_sum_sq(p)),
{
    lemma_chk_mul_ok(p.x, p.x);
    lemma_chk_mul_ok(p.y, p.y);
    lemma_chk_mul_ok(p.z, p.z);
    lemma_chk_mul_ok(p.w, p.w);
    let m1 = chk(frac_mul(p.x, p.x))->Some_0;
    let m2 = chk(frac_mul(p.y, p.y))->Some_0;
    let m3 = chk(frac_mul(p.z, p.z))->Some_0;
    let m4 = chk(frac_mul(p.w, p.w))->Some_0;
    lemma_chk_add_ok(m1, m2);
    let a1 = chk(frac_add(m1, m2))->Some_0;
    lemma_chk_add_ok(a1, m3);
    let a2 = chk(frac_add(a1, m3))->Some_0;
    lemma_chk_add_ok(a2, m4);
    assert(frac_add(frac_mul(p.x, p.x), frac_mul(p.y, p.y)).d != 0 && frac_add(
        frac_add(frac_mul(p.x, p.x), frac_mul(p.y, p.y)),
        frac_mul(p.z, p.z),
    ).d != 0 && q4_sum_sq(p).d != 0) by (nonlinear_arith)
        requires
            q4_okv(p),
    ;
    lemma_frac_add_congr(m1, frac_mul(p.x, p.x), m2, frac_mul(p.y, p.y));
    lemma_frac_eq_trans(a1, frac_add(m1, m2), frac_add(frac_mul(p.x, p.x), frac_mul(p.y, p.y)));
    lemma_frac_add_congr(
        a1,
        frac_add(frac_mul(p.x, p.x), frac_mul(p.y, p.y)),
        m3,
        frac_mul(p.z, p.z),
    );
    lemma_frac_eq_trans(a2, frac_add(a1, m3), frac_add(
        frac_add(frac_mul(p.x, p.x), frac_mul(p.y, p.y)),
        frac_mul(p.z, p.z),
    ));
    lemma_frac_add_congr(
        a2,
        frac_add(frac_add(frac_mul(p.x, p.x), frac_mul(p.y, p.y)), frac_mul(p.z, p.z)),
        m4,
        frac_mul(p.w, p.w),
    );
    lemma_frac_eq_trans(s, frac_add(a2, m4), q4_sum_sq(p));
}

/// Squaring a quotient is multiplying the squared numerator by the
/// reciprocal of the squared divisor.
proof fn lemma_sq_div_swap(a: Frac, l: Frac)
    by (nonlinear_arith)
    requires
        a.d != 0,
        l.n != 0,
    ensures
        frac_eq(
            frac_mul(frac_div(a, l), frac_div(a, l)),
            frac_mul(frac_mul(a, a), frac_div(frac_one(), frac_mul(l, l))),
        ),
{
}

/// Renormalization restores an exactly unit quaternion whenever the
/// squared norm is a perfect rational square: the normalized result's own
/// squared norm, when representable, has the value one.  Between squares
/// the floor square root undershoots, so the drift correction is exact
/// exactly on squares; spec-wise this is the sense in which the explicit
/// renormalize operation keeps rotations normalized.
pub proof fn law_normalize_unit(q: Q4, sq: Frac, l: Frac, q2: Q4)
    requires
        q4_okv(q),
        crate::quat::mq_norm_sq(Some(q)) == Some(sq),
        crate::rational::m_sqrt(Some(sq)) == Some(l),
        frac_eq(frac_mul(l, l), sq),
        crate::transform::rot_normalize(q) == Some(q2),
    ensures
        ({
            match crate::quat::mq_norm_sq(Some(q2)) {
                Some(n2) => frac_eq(n2, frac_one()),
                None => true,
            }
        }),
{
    lemma_norm_sq_value(q, sq);
    // The floor square root of a well-formed value is well formed.
    crate::rational::lemma_norm_ok(
        Frac { n: crate::rational::sqrt_val(sq.n * sq.d), d: sq.d },
    );
    assert(frac_ok(l));
    assert(l.n != 0);
    // The normalized components keep the values of the quotients.
    assert(frac_div(q.x, l).d != 0 && frac_div(q.y, l).d != 0 && frac_div(q.z, l).d != 0
        && frac_div(q.w, l).d != 0) by (nonlinear_arith)
        requires
            q4_okv(q),
            l.n != 0,
    ;
    lemma_chk_some(frac_div(q.x, l));
    lemma_chk_some(frac_div(q.y, l));
    lemma_chk_some(frac_div(q.z, l));
    lemma_chk_some(frac_div(q.w, l));
    assert(q4_okv(q2));
    if crate::quat::mq_norm_sq(Some(q2)) is Some {
        let n2 = crate::quat::mq_norm_sq(Some(q2))->Some_0;
        lemma_norm_sq_value(q2, n2);
        // Each squared component is the squared numerator times the
        // reciprocal of the squared length.
        let inv2 = frac_div(frac_one(), frac_mul(l, l));
        lemma_frac_mul_congr(q2.x, frac_div(q.x, l), q2.x, frac_div(q.x, l));
        lemma_frac_mul_congr(q2.y, frac_div(q.y, l), q2.y, frac_div(q.y, l));
        lemma_frac_mul_congr(q2.z, frac_div(q.z, l), q2.z, frac_div(q.z, l));
        lemma_frac_mul_congr(q2.w, frac_div(q.w, l), q2.w, frac_div(q.w, l));
        lemma_sq_div_swap(q.x, l);
        lemma_sq_div_swap(q.y, l);
        lemma_sq_div_swap(q.z, l);
        lemma_sq_div_swap(q.w, l);
        let px = frac_mul(frac_mul(q.x, q.x), inv2);
        let py = frac_mul(frac_mul(q.y, q.y), inv2);
        let pz = frac_mul(frac_mul(q.z, q.z), inv2);
        let pw = frac_mul(frac_mul(q.w, q.w), inv2);
        assert(frac_mul(frac_div(q.x, l), frac_div(q.x, l)).d != 0 && frac_mul(
            frac_div(q.y, l),
            frac_div(q.y, l),
        ).d != 0 && frac_mul(frac_div(q.z, l), frac_div(q.z, l)).d != 0 && frac_mul(
            frac_div(q.w, l),
            frac_div(q.w, l),
        ).d != 0 && px.d != 0 && py.d != 0 && pz.d != 0 && pw.d != 0 && inv2.d != 0)
            by (nonlinear_arith)
            requires
                q4_okv(q),
                l.n != 0,
                frac_ok(l),
                inv2 == frac_div(frac_one(), frac_mul(l, l)),
                px == frac_mul(frac_mul(q.x, q.x), inv2),
                py == frac_mul(frac_mul(q.y, q.y), inv2),
                pz == frac_mul(frac_mul(q.z, q.z), inv2),
                pw == frac_mul(frac_mul(q.w, q.w), inv2),
        ;
        lemma_frac_eq_trans(
            frac_mul(q2.x, q2.x),
            frac_mul(frac_div(q.x, l), frac_div(q.x, l)),
            px,
        );
        lemma_frac_eq_trans(
            frac_mul(q2.y, q2.y),
            frac_mul(frac_div(q.y, l), frac_div(q.y, l)),
            py,
        );
        lemma_frac_eq_trans(
            frac_mul(q2.z, q2.z),
            frac_mul(frac_div(q.z, l), frac_div(q.z, l)),
            pz,
        );
        lemma_frac_eq_trans(
            frac_mul(q2.w, q2.w),
            frac_mul(frac_div(q.w, l), frac_div(q.w, l)),
            pw,
        );
        // Fold the reciprocal out of the sum.
        let ax = frac_mul(q.x, q.x);
        let ay = frac_mul(q.y, q.y);
        let az = frac_mul(q.z, q.z);
        let aw = frac_mul(q.w, q.w);
        assert(ax.d != 0 && ay.d != 0 && az.d != 0 && aw.d != 0 && frac_add(ax, ay).d != 0
            && frac_add(frac_add(ax, ay), az).d != 0 && frac_add(
            frac_add(frac_add(ax, ay), az),
            aw,
        ).d != 0 && frac_mul(frac_add(ax, ay), inv2).d != 0 && frac_mul(
            frac_add(frac_add(ax, ay), az),
            inv2,
        ).d != 0 && frac_add(frac_mul(frac_add(ax, ay), inv2), frac_mul(az, inv2)).d != 0
            && frac_add(
            frac_mul(frac_add(frac_add(ax, ay), az), inv2),
            frac_mul(aw, inv2),
        ).d != 0 && frac_mul(frac_add(frac_add(frac_add(ax, ay), az), aw), inv2).d != 0
            && frac_add(px, py).d != 0 && frac_add(frac_add(px, py), pz).d != 0)
            by (nonlinear_arith)
            requires
                q4_okv(q),
                l.n != 0,
                frac_ok(l),
                inv2 == frac_div(frac_one(), frac_mul(l, l)),
                px == frac_mul(frac_mul(q.x, q.x), inv2),
                py == frac_mul(frac_mul(q.y, q.y), inv2),
                pz == frac_mul(frac_mul(q.z, q.z), inv2),
                ax == frac_mul(q.x, q.x),
                ay == frac_mul(q.y, q.y),
                az == frac_mul(q.z, q.z),
                aw == frac_mul(q.w, q.w),
        ;
        assert(frac_mul(q2.x, q2.x).d != 0 && frac_mul(q2.y, q2.y).d != 0 && frac_mul(
            q2.z,
            q2.z,
        ).d != 0 && frac_mul(q2.w, q2.w).d != 0 && frac_add(
            frac_mul(q2.x, q2.x),
            frac_mul(q2.y, q2.y),
        ).d != 0 && frac_add(
            frac_add(frac_mul(q2.x, q2.x), frac_mul(q2.y, q2.y)),
            frac_mul(q2.z, q2.z),
        ).d != 0) by (nonlinear_arith)
            requires
                q4_okv(q2),
        ;
        lemma_frac_add_congr(frac_mul(q2.x, q2.x), px, frac_mul(q2.y, q2.y), py);
        lemma_mul_distributes(ax, ay, inv2);
        lemma_frac_eq_trans(
            frac_add(frac_mul(q2.x, q2.x), frac_mul(q2.y, q2.y)),
            frac_add(px, py),
            frac_mul(frac_add(ax, ay), inv2),
        );
        lemma_frac_add_congr(
            frac_add(frac_mul(q2.x, q2.x), frac_mul(q2.y, q2.y)),
            frac_mul(frac_add(ax, ay), inv2),
            frac_mul(q2.z, q2.z),
            pz,
        );
        lemma_mul_distributes(frac_add(ax, ay), az, inv2);
        lemma_frac_eq_trans(
            frac_add(frac_add(frac_mul(q2.x, q2.x), frac_mul(q2.y, q2.y)), frac_mul(q2.z, q2.z)),
            frac_add(frac_mul(frac_add(ax, ay), inv2), frac_mul(az, inv2)),
            frac_mul(frac_add(frac_add(ax, ay), az), inv2),
        );
        lemma_frac_add_congr(
            frac_add(frac_add(frac_mul(q2.x, q2.x), frac_mul(q2.y, q2.y)), frac_mul(q2.z, q2.z)),
            frac_mul(frac_add(frac_add(ax, ay), az), inv2),
            frac_mul(q2.w, q2.w),
            pw,
        );
        lemma_mul_distributes(frac_add(frac_add(ax, ay), az), aw, inv2);
        lemma_frac_eq_trans(
            q4_sum_sq(q2),
            frac_add(frac_mul(frac_add(frac_add(ax, ay), az), inv2), frac_mul(aw, inv2)),
            frac_mul(frac_add(frac_add(frac_add(ax, ay), az), aw), inv2),
        );
        // The folded sum is the squared norm over the squared length: one.
        lemma_frac_eq_trans(frac_mul(l, l), sq, q4_sum_sq(q));
        assert(frac_eq(
            frac_mul(frac_add(frac_add(frac_add(ax, ay), az), aw), inv2),
            frac_one(),
        )) by (nonlinear_arith)
            requires
                frac_eq(frac_mul(l, l), frac_add(frac_add(frac_add(ax, ay), az), aw)),
                inv2 == frac_div(frac_one(), frac_mul(l, l)),
                ax == frac_mul(q.x, q.x),
                ay == frac_mul(q.y, q.y),
                az == frac_mul(q.z, q.z),
                aw == frac_mul(q.w, q.w),
                l.n != 0,
        ;
        lemma_frac_eq_trans(
            q4_sum_sq(q2),
            frac_mul(frac_add(frac_add(frac_add(ax, ay), az), aw), inv2),
            frac_one(),
        );
        lemma_frac_eq_trans(n2, q4_sum_sq(q2), frac_one());
    }
}

/// Adding or subtracting zero and multiplying or dividing by one leave a
/// fraction unchanged, as a pair.
proof fn lemma_neutral(c: Frac)
    by (nonlinear_arith)
    ensures
        frac_add(c, frac_zero()) == c,
        frac_add(frac_zero(), c) == c,
        frac_sub(c, frac_zero()) == c,
        frac_mul(c, frac_one()) == c,
        frac_mul(frac_one(), c) == c,
        frac_div(c, frac_one()) == c,
{
}

/// Rotating a vector by the identity quaternion keeps its value: the
/// identity has unit norm, every product against its zero components is
/// exactly zero, and the surviving terms only renormalize the original
/// components.
pub proof fn law_rotate_identity(u: V3)
    requires
        v3_ok(u),
    ensures
        ({
            match mq_rotate(Some(q4_identity()), Some(u)) {
                Some(r) => v3_eqv(r, u),
                None => true,
            }
        }),
{
    let z = frac_zero();
    let one = frac_one();
    lemma_neutral(u.x);
    lemma_neutral(u.y);
    lemma_neutral(u.z);
    lemma_neutral(z);
    lemma_neutral(one);
    // Products against the identity's zero components vanish exactly.
    lemma_chk_zero_num(frac_mul(z, z));
    lemma_chk_zero_num(frac_mul(one, z));
    lemma_chk_zero_num(frac_sub(z, z));
    lemma_chk_zero_num(frac_add(z, z));
    assert(frac_mul(frac_zero(), u.x).d > 0 && frac_mul(frac_zero(), u.y).d > 0 && frac_mul(
        frac_zero(),
        u.z,
    ).d > 0) by (nonlinear_arith)
        requires
            v3_ok(u),
    ;
    lemma_chk_zero_num(frac_mul(z, u.x));
    lemma_chk_zero_num(frac_mul(z, u.y));
    lemma_chk_zero_num(frac_mul(z, u.z));
    // The identity's squared norm reduces to exactly one.
    crate::rational::lemma_chk_one();
    if mq_rotate(Some(q4_identity()), Some(u)) is Some {
        // First product, component by component; the scalar part is an
        // exact zero throughout.
        lemma_chk_some(u.x);
        let a1 = chk(u.x)->Some_0;
        lemma_neutral(a1);
        lemma_chk_some(a1);
        let a2 = chk(a1)->Some_0;
        lemma_neutral(a2);
        lemma_chk_some(a2);
        let a3 = chk(a2)->Some_0;
        lemma_neutral(a3);
        lemma_chk_some(a3);
        let a4 = chk(a3)->Some_0;
        lemma_neutral(a4);
        lemma_chk_some(u.y);
        let c1 = chk(u.y)->Some_0;
        lemma_neutral(c1);
        lemma_chk_some(c1);
        let c2 = chk(c1)->Some_0;
        lemma_neutral(c2);
        lemma_chk_some(c2);
        let c3 = chk(c2)->Some_0;
        lemma_neutral(c3);
        lemma_chk_some(c3);
        let c4 = chk(c3)->Some_0;
        lemma_neutral(c4);
        lemma_chk_some(u.z);
        let e1 = chk(u.z)->Some_0;
        lemma_neutral(e1);
        lemma_chk_some(e1);
        let e2 = chk(e1)->Some_0;
        lemma_neutral(e2);
        lemma_chk_some(e2);
        let e3 = chk(e2)->Some_0;
        lemma_neutral(e3);
        lemma_chk_some(e3);
        let e4 = chk(e3)->Some_0;
        lemma_neutral(e4);
        // Zero products against the intermediate components.
        assert(frac_mul(a4, frac_zero()).d > 0 && frac_mul(c4, frac_zero()).d > 0 && frac_mul(
            e4,
            frac_zero(),
        ).d > 0) by (nonlinear_arith)
            requires
                a4.d > 0,
                c4.d > 0,
                e4.d > 0,
        ;
        lemma_chk_zero_num(frac_mul(a4, z));
        lemma_chk_zero_num(frac_mul(c4, z));
        lemma_chk_zero_num(frac_mul(e4, z));
        // Second product against the conjugated identity, which is the
        // identity itself since negating zero changes nothing.
        assert(crate::quat::q4_conj(q4_identity()) == q4_identity());
        lemma_chk_some(a4);
        let b1 = chk(a4)->Some_0;
        lemma_neutral(b1);
        lemma_chk_some(b1);
        let b2 = chk(b1)->Some_0;
        lemma_neutral(b2);
        lemma_chk_some(b2);
        let b3 = chk(b2)->Some_0;
        lemma_neutral(b3);
        lemma_chk_some(b3);
        let b4 = chk(b3)->Some_0;
        lemma_neutral(b4);
        lemma_chk_some(b4);
        let b5 = chk(b4)->Some_0;
        lemma_chk_some(c4);
        let d1 = chk(c4)->Some_0;
        lemma_neutral(d1);
        lemma_chk_some(d1);
        let d2 = chk(d1)->Some_0;
        lemma_neutral(d2);
        lemma_chk_some(d2);
        let d3 = chk(d2)->Some_0;
        lemma_neutral(d3);
        lemma_chk_some(d3);
        let d4 = chk(d3)->Some_0;
        lemma_chk_some(e4);
        let f1 = chk(e4)->Some_0;
        lemma_neutral(f1);
        lemma_chk_some(f1);
        let f2 = chk(f1)->Some_0;
        lemma_neutral(f2);
        lemma_chk_some(f2);
        let f3 = chk(f2)->Some_0;
        // Chain the value equalities back to the inputs.
        lemma_frac_eq_trans(b5, b4, b3);
        lemma_frac_eq_trans(b5, b3, b2);
        lemma_frac_eq_trans(b5, b2, b1);
        lemma_frac_eq_trans(b5, b1, a4);
        lemma_frac_eq_trans(b5, a4, a3);
        lemma_frac_eq_trans(b5, a3, a2);
        lemma_frac_eq_trans(b5, a2, a1);
        lemma_frac_eq_trans(b5, a1, u.x);
        lemma_frac_eq_trans(d4, d3, d2);
        lemma_frac_eq_trans(d4, d2, d1);
        lemma_frac_eq_trans(d4, d1, c4);
        lemma_frac_eq_trans(d4, c4, c3);
        lemma_frac_eq_trans(d4, c3, c2);
        lemma_frac_eq_trans(d4, c2, c1);
        lemma_frac_eq_trans(d4, c1, u.y);
        lemma_frac_eq_trans(f3, f2, f1);
        lemma_frac_eq_trans(f3, f1, e4);
        lemma_frac_eq_trans(f3, e4, e3);
        lemma_frac_eq_trans(f3, e3, e2);
        lemma_frac_eq_trans(f3, e2, e1);
        lemma_frac_eq_trans(f3, e1, u.z);
    }
}

/// Rotating a panel by the identity quaternion is a no-op: offset and
/// normal keep their values and the area is unchanged.
pub proof fn law_panel_rotated_identity(p: PV)
    requires
        v3_ok(p.offset),
        v3_ok(p.normal),
    ensures
        ({
            match pv_rotated(p, q4_identity()) {
                Some(p2) => v3_eqv(p2.offset, p.offset) && v3_eqv(p2.normal, p.normal) && p2.area
                    == p.area,
                None => true,
            }
        }),
{
    law_rotate_identity(p.offset);
    law_rotate_identity(p.normal);
}

/// The identity rotation matrix as a value.
pub open spec fn m3_identity_v() -> crate::mat3::M3 {
    crate::mat3::M3 {
        x_axis: V3 { x: frac_one(), y: frac_zero(), z: frac_zero() },
        y_axis: V3 { x: frac_zero(), y: frac_one(), z: frac_zero() },
        z_axis: V3 { x: frac_zero(), y: frac_zero(), z: frac_one() },
    }
}

/// The rotation matrix of the identity quaternion is exactly the identity
/// matrix.
proof fn lemma_from_quat_identity()
    ensures
        crate::mat3::mm_from_quat(Some(q4_identity())) == Some(m3_identity_v()),
{
    reveal(crate::mat3::mm_from_quat);
    let z = frac_zero();
    let one = frac_one();
    lemma_neutral(z);
    lemma_neutral(one);
    crate::rational::lemma_chk_one();
    lemma_chk_zero_num(frac_mul(z, z));
    lemma_chk_zero_num(frac_mul(one, z));
    lemma_chk_zero_num(frac_mul(z, one));
    lemma_chk_zero_num(frac_add(z, z));
    lemma_chk_zero_num(frac_sub(z, z));
    lemma_chk_zero_num(frac_mul(frac_int(2), z));
    lemma_chk_zero_num(frac_div(z, one));
}

/// Applying the identity matrix value to a vector value keeps each
/// component's value.
proof fn lemma_mul_vec_identity(u: V3)
    requires
        v3_ok(u),
    ensures
        ({
            match crate::mat3::mm_mul_vec(Some(m3_identity_v()), Some(u)) {
                Some(r) => v3_eqv(r, u) && v3_ok(r),
                None => true,
            }
        }),
{
    let z = frac_zero();
    lemma_neutral(u.x);
    lemma_neutral(u.y);
    lemma_neutral(u.z);
    assert(frac_mul(frac_zero(), u.x).d > 0 && frac_mul(frac_zero(), u.y).d > 0 && frac_mul(
        frac_zero(),
        u.z,
    ).d > 0) by (nonlinear_arith)
        requires
            v3_ok(u),
    ;
    lemma_chk_zero_num(frac_mul(z, u.x));
    lemma_chk_zero_num(frac_mul(z, u.y));
    lemma_chk_zero_num(frac_mul(z, u.z));
    lemma_chk_zero_num(frac_add(z, z));
    if crate::mat3::mm_mul_vec(Some(m3_identity_v()), Some(u)) is Some {
        // Row one: u.x + 0 + 0, renormalized at each checked step.
        lemma_chk_some(u.x);
        let a1 = chk(u.x)->Some_0;
        lemma_neutral(a1);
        lemma_chk_some(a1);
        let a2 = chk(a1)->Some_0;
        lemma_neutral(a2);
        lemma_chk_some(a2);
        let a3 = chk(a2)->Some_0;
        lemma_frac_eq_trans(a3, a2, a1);
        lemma_frac_eq_trans(a3, a1, u.x);
        // Row two: 0 + u.y + 0.
        lemma_chk_some(u.y);
        let b1 = chk(u.y)->Some_0;
        lemma_neutral(b1);
        lemma_chk_some(b1);
        let b2 = chk(b1)->Some_0;
        lemma_neutral(b2);
        lemma_chk_some(b2);
        let b3 = chk(b2)->Some_0;
        lemma_frac_eq_trans(b3, b2, b1);
        lemma_frac_eq_trans(b3, b1, u.y);
        // Row three: (0 + 0) + u.z.
        lemma_chk_some(u.z);
        let c1 = chk(u.z)->Some_0;
        lemma_neutral(c1);
        lemma_chk_some(c1);
        let c2 = chk(c1)->Some_0;
        lemma_frac_eq_trans(c2, c1, u.z);
    }
}

/// Applying a matrix value to each identity column extracts that column's
/// values: multiplying by the identity on the right keeps every entry's
/// value.
proof fn lemma_mul_vec_columns(m: crate::mat3::M3)
    requires
        v3_ok(m.x_axis),
        v3_ok(m.y_axis),
        v3_ok(m.z_axis),
    ensures
        ({
            match crate::mat3::mm_mul_vec(Some(m), Some(m3_identity_v().x_axis)) {
                Some(r) => v3_eqv(r, m.x_axis) && v3_ok(r),
                None => true,
            }
        }),
        ({
            match crate::mat3::mm_mul_vec(Some(m), Some(m3_identity_v().y_axis)) {
                Some(r) => v3_eqv(r, m.y_axis) && v3_ok(r),
                None => true,
            }
        }),
        ({
            match crate::mat3::mm_mul_vec(Some(m), Some(m3_identity_v().z_axis)) {
                Some(r) => v3_eqv(r, m.z_axis) && v3_ok(r),
                None => true,
            }
        }),
{
    let z = frac_zero();
    lemma_chk_zero_num(frac_add(z, z));
    lemma_mul_vec_column_one(m);
    lemma_mul_vec_column_two(m);
    lemma_mul_vec_column_three(m);
}

/// Applying a matrix value to the first identity column keeps the first
/// column's values.
proof fn lemma_mul_vec_column_one(m: crate::mat3::M3)
    requires
        v3_ok(m.x_axis),
        v3_ok(m.y_axis),
        v3_ok(m.z_axis),
    ensures
        ({
            match crate::mat3::mm_mul_vec(Some(m), Some(m3_identity_v().x_axis)) {
                Some(r) => v3_eqv(r, m.x_axis) && v3_ok(r),
                None => true,
            }
        }),
{
    let z = frac_zero();
    lemma_neutral(m.x_axis.x);
    lemma_neutral(m.x_axis.y);
    lemma_neutral(m.x_axis.z);
    assert(frac_mul(m.y_axis.x, frac_zero()).d > 0 && frac_mul(m.z_axis.x, frac_zero()).d > 0
        && frac_mul(m.y_axis.y, frac_zero()).d > 0 && frac_mul(m.z_axis.y, frac_zero()).d > 0
        && frac_mul(m.y_axis.z, frac_zero()).d > 0 && frac_mul(m.z_axis.z, frac_zero()).d > 0)
        by (nonlinear_arith)
        requires
            v3_ok(m.y_axis),
            v3_ok(m.z_axis),
    ;
    lemma_chk_zero_num(frac_mul(m.y_axis.x, z));
    lemma_chk_zero_num(frac_mul(m.z_axis.x, z));
    lemma_chk_zero_num(frac_mul(m.y_axis.y, z));
    lemma_chk_zero_num(frac_mul(m.z_axis.y, z));
    lemma_chk_zero_num(frac_mul(m.y_axis.z, z));
    lemma_chk_zero_num(frac_mul(m.z_axis.z, z));
    if crate::mat3::mm_mul_vec(Some(m), Some(m3_identity_v().x_axis)) is Some {
        lemma_chk_some(m.x_axis.x);
        let a1 = chk(m.x_axis.x)->Some_0;
        lemma_neutral(a1);
        lemma_chk_some(a1);
        let a2 = chk(a1)->Some_0;
        lemma_neutral(a2);
        lemma_chk_some(a2);
        let a3 = chk(a2)->Some_0;
        lemma_frac_eq_trans(a3, a2, a1);
        lemma_frac_eq_trans(a3, a1, m.x_axis.x);
        lemma_chk_some(m.x_axis.y);
        let b1 = chk(m.x_axis.y)->Some_0;
        lemma_neutral(b1);
        lemma_chk_some(b1);
        let b2 = chk(b1)->Some_0;
        lemma_neutral(b2);
        lemma_chk_some(b2);
        let b3 = chk(b2)->Some_0;
        lemma_frac_eq_trans(b3, b2, b1);
        lemma_frac_eq_trans(b3, b1, m.x_axis.y);
        lemma_chk_some(m.x_axis.z);
        let c1 = chk(m.x_axis.z)->Some_0;
        lemma_neutral(c1);
        lemma_chk_some(c1);
        let c2 = chk(c1)->Some_0;
        lemma_neutral(c2);
        lemma_chk_some(c2);
        let c3 = chk(c2)->Some_0;
        lemma_frac_eq_trans(c3, c2, c1);
        lemma_frac_eq_trans(c3, c1, m.x_axis.z);
    }
}

/// Applying a matrix value to the second identity column keeps the second
/// column's values.
proof fn lemma_mul_vec_column_two(m: crate::mat3::M3)
    requires
        v3_ok(m.x_axis),
        v3_ok(m.y_axis),
        v3_ok(m.z_axis),
    ensures
        ({
            match crate::mat3::mm_mul_vec(Some(m), Some(m3_identity_v().y_axis)) {
                Some(r) => v3_eqv(r, m.y_axis) && v3_ok(r),
                None => true,
            }
        }),
{
    let z = frac_zero();
    lemma_neutral(m.y_axis.x);
    lemma_neutral(m.y_axis.y);
    lemma_neutral(m.y_axis.z);
    assert(frac_mul(m.x_axis.x, frac_zero()).d > 0 && frac_mul(m.z_axis.x, frac_zero()).d > 0
        && frac_mul(m.x_axis.y, frac_zero()).d > 0 && frac_mul(m.z_axis.y, frac_zero()).d > 0
        && frac_mul(m.x_axis.z, frac_zero()).d > 0 && frac_mul(m.z_axis.z, frac_zero()).d > 0)
        by (nonlinear_arith)
        requires
            v3_ok(m.x_axis),
            v3_ok(m.z_axis),
    ;
    lemma_chk_zero_num(frac_mul(m.x_axis.x, z));
    lemma_chk_zero_num(frac_mul(m.z_axis.x, z));
    lemma_chk_zero_num(frac_mul(m.x_axis.y, z));
    lemma_chk_zero_num(frac_mul(m.z_axis.y, z));
    lemma_chk_zero_num(frac_mul(m.x_axis.z, z));
    lemma_chk_zero_num(frac_mul(m.z_axis.z, z));
    if crate::mat3::mm_mul_vec(Some(m), Some(m3_identity_v().y_axis)) is Some {
        lemma_chk_some(m.y_axis.x);
        let a1 = chk(m.y_axis.x)->Some_0;
        lemma_neutral(a1);
        lemma_chk_some(a1);
        let a2 = chk(a1)->Some_0;
        lemma_neutral(a2);
        lemma_chk_some(a2);
        let a3 = chk(a2)->Some_0;
        lemma_frac_eq_trans(a3, a2, a1);
        lemma_frac_eq_trans(a3, a1, m.y_axis.x);
        lemma_chk_some(m.y_axis.y);
        let b1 = chk(m.y_axis.y)->Some_0;
        lemma_neutral(b1);
        lemma_chk_some(b1);
        let b2 = chk(b1)->Some_0;
        lemma_neutral(b2);
        lemma_chk_some(b2);
        let b3 = chk(b2)->Some_0;
        lemma_frac_eq_trans(b3, b2, b1);
        lemma_frac_eq_trans(b3, b1, m.y_axis.y);
        lemma_chk_some(m.y_axis.z);
        let c1 = chk(m.y_axis.z)->Some_0;
        lemma_neutral(c1);
        lemma_chk_some(c1);
        let c2 = chk(c1)->Some_0;
        lemma_neutral(c2);
        lemma_chk_some(c2);
        let c3 = chk(c2)->Some_0;
        lemma_frac_eq_trans(c3, c2, c1);
        lemma_frac_eq_trans(c3, c1, m.y_axis.z);
    }
}

/// Applying a matrix value to the third identity column keeps the third
/// column's values.
proof fn lemma_mul_vec_column_three(m: crate::mat3::M3)
    requires
        v3_ok(m.x_axis),
        v3_ok(m.y_axis),
        v3_ok(m.z_axis),
    ensures
        ({
            match crate::mat3::mm_mul_vec(Some(m), Some(m3_identity_v().z_axis)) {
                Some(r) => v3_eqv(r, m.z_axis) && v3_ok(r),
                None => true,
            }
        }),
{
    let z = frac_zero();
    lemma_chk_zero_num(frac_add(z, z));
    assert(frac_mul(m.x_axis.x, frac_zero()).d > 0 && frac_mul(m.y_axis.x, frac_zero()).d > 0
        && frac_mul(m.x_axis.y, frac_zero()).d > 0 && frac_mul(m.y_axis.y, frac_zero()).d > 0
        && frac_mul(m.x_axis.z, frac_zero()).d > 0 && frac_mul(m.y_axis.z, frac_zero()).d > 0)
        by (nonlinear_arith)
        requires
            v3_ok(m.x_axis),
            v3_ok(m.y_axis),
    ;
    lemma_chk_zero_num(frac_mul(m.x_axis.x, z));
    lemma_chk_zero_num(frac_mul(m.y_axis.x, z));
    lemma_chk_zero_num(frac_mul(m.x_axis.y, z));
    lemma_chk_zero_num(frac_mul(m.y_axis.y, z));
    lemma_chk_zero_num(frac_mul(m.x_axis.z, z));
    lemma_chk_zero_num(frac_mul(m.y_axis.z, z));
    if crate::mat3::mm_mul_vec(Some(m), Some(m3_identity_v().z_axis)) is Some {
        lemma_chk_some(m.z_axis.x);
        lemma_neutral(m.z_axis.x);
        let a1 = chk(m.z_axis.x)->Some_0;
        lemma_neutral(a1);
        lemma_chk_some(a1);
        let a2 = chk(a1)->Some_0;
        lemma_frac_eq_trans(a2, a1, m.z_axis.x);
        lemma_chk_some(m.z_axis.y);
        lemma_neutral(m.z_axis.y);
        let b1 = chk(m.z_axis.y)->Some_0;
        lemma_neutral(b1);
        lemma_chk_some(b1);
        let b2 = chk(b1)->Some_0;
        lemma_frac_eq_trans(b2, b1, m.z_axis.y);
        lemma_chk_some(m.z_axis.z);
        lemma_neutral(m.z_axis.z);
        let c1 = chk(m.z_axis.z)->Some_0;
        lemma_neutral(c1);
        lemma_chk_some(c1);
        let c2 = chk(c1)->Some_0;
        lemma_frac_eq_trans(c2, c1, m.z_axis.z);
    }
}

/// All entries of a matrix value have positive denominators.
pub open spec fn m3_okv(m: crate::mat3::M3) -> bool {
    v3_ok(m.x_axis) && v3_ok(m.y_axis) && v3_ok(m.z_axis)
}

/// Columnwise value equality of matrix values.
pub open spec fn m3_eqv(a: crate::mat3::M3, b: crate::mat3::M3) -> bool {
    v3_eqv(a.x_axis, b.x_axis) && v3_eqv(a.y_axis, b.y_axis) && v3_eqv(a.z_axis, b.z_axis)
}

/// The congruence transform by the identity matrix keeps every tensor
/// entry's value.
proof fn lemma_tensor_rot_mat_identity(t: crate::mat3::M3)
    requires
        m3_okv(t),
    ensures
        ({
            match crate::inertia_mass::tensor_rot_mat(t, m3_identity_v()) {
                Some(t2) => m3_eqv(t2, t) && m3_okv(t2),
                None => true,
            }
        }),
{
    reveal(crate::inertia_mass::tensor_rot_mat);
    assert(crate::mat3::m3_transpose(m3_identity_v()) == m3_identity_v());
    if crate::inertia_mass::tensor_rot_mat(t, m3_identity_v()) is Some {
        lemma_mul_vec_identity(t.x_axis);
        lemma_mul_vec_identity(t.y_axis);
        lemma_mul_vec_identity(t.z_axis);
        let left = crate::mat3::mm_mul_mat(Some(m3_identity_v()), Some(t))->Some_0;
        lemma_mul_vec_columns(left);
        let out = crate::inertia_mass::tensor_rot_mat(t, m3_identity_v())->Some_0;
        lemma_frac_eq_trans(out.x_axis.x, left.x_axis.x, t.x_axis.x);
        lemma_frac_eq_trans(out.x_axis.y, left.x_axis.y, t.x_axis.y);
        lemma_frac_eq_trans(out.x_axis.z, left.x_axis.z, t.x_axis.z);
        lemma_frac_eq_trans(out.y_axis.x, left.y_axis.x, t.y_axis.x);
        lemma_frac_eq_trans(out.y_axis.y, left.y_axis.y, t.y_axis.y);
        lemma_frac_eq_trans(out.y_axis.z, left.y_axis.z, t.y_axis.z);
        lemma_frac_eq_trans(out.z_axis.x, left.z_axis.x, t.z_axis.x);
        lemma_frac_eq_trans(out.z_axis.y, left.z_axis.y, t.z_axis.y);
        lemma_frac_eq_trans(out.z_axis.z, left.z_axis.z, t.z_axis.z);
    }
}

/// Rotating a mass distribution by the identity quaternion is a no-op:
/// the mass is unchanged and both tensors keep every entry's value.
pub proof fn law_inertia_mass_rotated_identity(im: crate::inertia_mass::IMV)
    requires
        m3_okv(im.inertia),
        m3_okv(im.inv_inertia),
    ensures
        ({
            match crate::inertia_mass::im_rotated(im, q4_identity()) {
                Some(im2) => im2.mass == im.mass && m3_eqv(im2.inertia, im.inertia) && m3_eqv(
                    im2.inv_inertia,
                    im.inv_inertia,
                ),
                None => true,
            }
        }),
{
    reveal(crate::inertia_mass::im_rotated);
    reveal(crate::inertia_mass::im_rot_mat);
    lemma_from_quat_identity();
    lemma_tensor_rot_mat_identity(im.inertia);
    lemma_tensor_rot_mat_identity(im.inv_inertia);
}

} // verus!
