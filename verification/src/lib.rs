//! Kinetic-state core of a six-degree-of-freedom rigid-body simulator.
//!
//! The library converts momentum to velocity, evaluates a per-panel
//! aerodynamic force model, and advances pose and momentum in time with a
//! classical fourth-order Runge-Kutta integrator.  All quantities are exact
//! rational numbers, so every operation is either exact or reports that the
//! result left the representable range; no operation ever produces a silent
//! wrong value.

use vstd::prelude::*;

pub mod rational;
pub mod vec3;
pub mod quat;
pub mod mat3;
pub mod transform;
pub mod inertia_mass;
pub mod velocity;
pub mod momentum;
pub mod moments;
pub mod panels;
pub mod builder;
pub mod laws;

use crate::inertia_mass::{im_rotated, InertiaMass, IMV};
use crate::moments::{momt_add, momt_mul_secs, momt_scalev, momt_zero, Moment, MomtV};
use crate::momentum::{mom_addv, mom_div_mass, MomV, Momentum};
use crate::panels::{pv_to_moment, Panel, PV};
use crate::quat::Q4;
use crate::rational::{frac_int, Frac, Rat};
use crate::transform::{tf_add, Transform, TV};
use crate::vec3::{m_div, mv_add, mv_scale, oview};
use crate::velocity::{vel_addv, vel_mul_secs, vel_scalev, VelV, Velocity};

verus! {

/// Mathematical value of a state: mass distribution, pose, momentum, and
/// the panel shapes.
pub struct SV {
    pub mass: IMV,
    pub transform: TV,
    pub momentum: MomV,
    pub panels: Seq<PV>,
}

/// Checked velocity of a state value: the mass distribution is rotated
/// into the world frame by the current orientation, then the momentum is
/// divided by it.
#[verifier::opaque]
pub open spec fn sv_velocity(s: SV) -> Option<VelV> {
    match im_rotated(s.mass, s.transform.rotation) {
        Some(m) => mom_div_mass(s.momentum, m),
        None => None,
    }
}

/// Checked left fold of the panel moments, starting from the zero moment.
#[verifier::opaque]
pub open spec fn panel_moment_sum(panels: Seq<PV>, v: VelV, q: Q4) -> Option<MomtV>
    decreases panels.len(),
{
    if panels.len() == 0 {
        Some(momt_zero())
    } else {
        momt_add(panel_moment_sum(panels.drop_last(), v, q), pv_to_moment(panels.last(), v, q))
    }
}

/// Checked aggregate aerodynamic moment of a state value.
#[verifier::opaque]
pub open spec fn sv_panel_moment(s: SV) -> Option<MomtV> {
    match sv_velocity(s) {
        Some(v) => panel_moment_sum(s.panels, v, s.transform.rotation),
        None => None,
    }
}

/// Checked velocity and total moment of a state value under an external
/// moment: the forcing term is the external moment plus the aggregate
/// panel moment, re-evaluated from the state itself.
#[verifier::opaque]
pub open spec fn sv_stage(s: SV, ext: MomtV) -> Option<(VelV, MomtV)> {
    match sv_velocity(s) {
        Some(v) => match panel_moment_sum(s.panels, v, s.transform.rotation) {
            Some(pm) => match momt_add(Some(ext), Some(pm)) {
                Some(t) => Some((v, t)),
                None => None,
            },
            None => None,
        },
        None => None,
    }
}

/// Checked advance of a pose and momentum by a velocity and moment over a
/// time span.
pub open spec fn sv_advance(tf: TV, p: MomV, kv: VelV, km: MomtV, dt: Frac) -> Option<(TV, MomV)> {
    match (vel_mul_secs(kv, dt), momt_mul_secs(km, dt)) {
        (Some(dx), Some(dp)) => match (tf_add(tf, dx), mom_addv(p, dp)) {
            (Some(t2), Some(p2)) => Some((t2, p2)),
            _ => None,
        },
        _ => None,
    }
}

/// The state value with the same mass and panels and a new pose and
/// momentum.
pub open spec fn sv_with(s: SV, tf: TV, p: MomV) -> SV {
    SV { mass: s.mass, transform: tf, momentum: p, panels: s.panels }
}

/// The Runge-Kutta weighted combination `k1 + 2 k2 + 2 k3 + k4` of
/// velocity values, combined left to right.
pub open spec fn rk4_combine_vel(k1: VelV, k2: VelV, k3: VelV, k4: VelV) -> Option<VelV> {
    match (vel_scalev(k2, frac_int(2)), vel_scalev(k3, frac_int(2))) {
        (Some(w2), Some(w3)) => match vel_addv(k1, w2) {
            Some(a) => match vel_addv(a, w3) {
                Some(b) => vel_addv(b, k4),
                None => None,
            },
            None => None,
        },
        _ => None,
    }
}

/// The Runge-Kutta weighted combination `k1 + 2 k2 + 2 k3 + k4` of moment
/// values, combined left to right.
pub open spec fn rk4_combine_momt(k1: MomtV, k2: MomtV, k3: MomtV, k4: MomtV) -> Option<MomtV> {
    match (momt_scalev(k2, frac_int(2)), momt_scalev(k3, frac_int(2))) {
        (Some(w2), Some(w3)) => match momt_add(Some(k1), Some(w2)) {
            Some(a) => match momt_add(Some(a), Some(w3)) {
                Some(b) => momt_add(Some(b), Some(k4)),
                None => None,
            },
            None => None,
        },
        _ => None,
    }
}

/// Checked single forward-Euler step of a state value: the total moment is
/// applied to the momentum over the whole span, then the pose advances by
/// the velocity of the updated state.
#[verifier::opaque]
pub open spec fn sv_euler(s: SV, dt: Frac, ext: MomtV) -> Option<(TV, MomV)> {
    match sv_stage(s, ext) {
        Some((v0, m0)) => match momt_mul_secs(m0, dt) {
            Some(dp) => match mom_addv(s.momentum, dp) {
                Some(p2) => match sv_velocity(sv_with(s, s.transform, p2)) {
                    Some(v2) => match vel_mul_secs(v2, dt) {
                        Some(dx) => match tf_add(s.transform, dx) {
                            Some(t2) => Some((t2, p2)),
                            None => None,
                        },
                        None => None,
                    },
                    None => None,
                },
                None => None,
            },
            None => None,
        },
        None => None,
    }
}

/// Checked evaluation of the four Runge-Kutta stages of a state value:
/// each stage's velocity and total moment, the second and third evaluated
/// half a span ahead, the fourth a full span ahead, every intermediate
/// state advanced from the original one, as the classical scheme demands.
#[verifier::opaque]
pub open spec fn sv_stages(s: SV, dt: Frac, ext: MomtV, half: Frac) -> Option<
    ((VelV, MomtV), (VelV, MomtV), (VelV, MomtV), (VelV, MomtV)),
> {
    match sv_stage(s, ext) {
        Some(k1) => match sv_advance(s.transform, s.momentum, k1.0, k1.1, half) {
            Some((tf1, p1)) => match sv_stage(sv_with(s, tf1, p1), ext) {
                Some(k2) => match sv_advance(s.transform, s.momentum, k2.0, k2.1, half) {
                    Some((tf2, p2)) => match sv_stage(sv_with(s, tf2, p2), ext) {
                        Some(k3) => match sv_advance(s.transform, s.momentum, k3.0, k3.1, dt) {
                            Some((tf3, p3)) => match sv_stage(sv_with(s, tf3, p3), ext) {
                                Some(k4) => Some((k1, k2, k3, k4)),
                                None => None,
                            },
                            None => None,
                        },
                        None => None,
                    },
                    None => None,
                },
                None => None,
            },
            None => None,
        },
        None => None,
    }
}

/// Checked classical fourth-order Runge-Kutta step of a state value: the
/// four stages are evaluated, their weighted combination advances the pose
/// and momentum over a sixth of the span.
#[verifier::opaque]
pub open spec fn sv_step(s: SV, dt: Frac, ext: MomtV) -> Option<(TV, MomV)> {
    match m_div(Some(dt), Some(frac_int(2))) {
        Some(half) => match sv_stages(s, dt, ext, half) {
            Some((k1, k2, k3, k4)) => match (
                rk4_combine_vel(k1.0, k2.0, k3.0, k4.0),
                rk4_combine_momt(k1.1, k2.1, k3.1, k4.1),
            ) {
                (Some(kv), Some(km)) => match m_div(Some(dt), Some(frac_int(6))) {
                    Some(dt6) => sv_advance(s.transform, s.momentum, kv, km, dt6),
                    None => None,
                },
                _ => None,
            },
            None => None,
        },
        None => None,
    }
}

/// The kinetic state of a simulated entity: its mass distribution, pose,
/// momentum, and aerodynamic panels.  The four fields are public so a host
/// can persist and rebuild a state exactly.
#[derive(Debug, Clone, PartialEq)]
pub struct State {
    /// The mass distribution, body frame.
    pub mass: InertiaMass,
    /// The pose, world frame.
    pub transform: Transform,
    /// The momentum, world frame: the integrated variable.
    pub momentum: Momentum,
    /// The aerodynamic shape, body frame.
    pub panels: Vec<Panel>,
}

impl View for State {
    type V = SV;

    open spec fn view(&self) -> SV {
        SV {
            mass: self.mass@,
            transform: self.transform@,
            momentum: self.momentum@,
            panels: self.panels@.map_values(|p: Panel| p@),
        }
    }
}

impl State {
    /// All fields in stored form, with a positive mass.
    pub open spec fn wf(self) -> bool {
        self.mass.wf() && self.transform.wf() && self.momentum.wf() && forall|i: int|
            0 <= i < self.panels@.len() ==> self.panels@[i].wf()
    }

    /// A state from its four fields.
    pub fn new(mass: InertiaMass, transform: Transform, momentum: Momentum, panels: Vec<
        Panel,
    >) -> (r: State)
        ensures
            r.mass == mass,
            r.transform == transform,
            r.momentum == momentum,
            r.panels == panels,
    {
        State { mass, transform, momentum, panels }
    }

    /// The current velocity: the momentum divided by the mass distribution
    /// rotated into the world frame by the current orientation.  Derived
    /// fresh on every call, never stored.
    pub fn velocity(&self) -> (r: Option<Velocity>)
        requires
            self.wf(),
        ensures
            oview(r) == sv_velocity(self@),
            r matches Some(v) ==> v.wf(),
    {
        proof {
            reveal(sv_velocity);
        }
        match self.mass.rotated(self.transform.rotation.0) {
            Some(m) => self.momentum.div_mass(&m),
            None => None,
        }
    }

    /// The aggregate aerodynamic moment: the panel moments under the
    /// current velocity and orientation, summed left to right from zero.
    pub fn panel_moment(&self) -> (r: Option<Moment>)
        requires
            self.wf(),
        ensures
            oview(r) == sv_panel_moment(self@),
            r matches Some(m) ==> m.wf(),
    {
        proof {
            reveal(sv_panel_moment);
        }
        match self.velocity() {
            Some(v) => Self::panel_moment_for(&self.panels, &v, &self.transform.rotation.0),
            None => None,
        }
    }

    /// The left fold of the panel moments for a given velocity and
    /// orientation.
    #[verifier::rlimit(100)]
    #[verifier::spinoff_prover]
    fn panel_moment_for(panels: &Vec<Panel>, v: &Velocity, q: &crate::quat::Quat) -> (r: Option<
        Moment,
    >)
        requires
            forall|i: int| 0 <= i < panels@.len() ==> panels@[i].wf(),
            v.wf(),
            q.wf4(),
        ensures
            oview(r) == panel_moment_sum(panels@.map_values(|p: Panel| p@), v@, q@),
            r matches Some(m) ==> m.wf(),
    {
        proof {
            reveal(panel_moment_sum);
        }
        let ghost pvs = panels@.map_values(|p: Panel| p@);
        let mut acc = Moment::zero();
        let mut i: usize = 0;
        while i < panels.len()
            invariant
                i <= panels@.len(),
                forall|k: int| 0 <= k < panels@.len() ==> panels@[k].wf(),
                v.wf(),
                q.wf4(),
                acc.wf(),
                pvs == panels@.map_values(|p: Panel| p@),
                Some(acc@) == panel_moment_sum(pvs.take(i as int), v@, q@),
            decreases panels@.len() - i,
        {
            proof {
                reveal(panel_moment_sum);
            }
            let m = panels[i].to_moment(v, q);
            let next = match m {
                Some(pm) => acc.add(&pm),
                None => None,
            };
            proof {
                assert(pvs.take(i + 1).drop_last() =~= pvs.take(i as int));
                assert(pvs.take(i + 1).last() == pvs[i as int]);
            }
            match next {
                Some(a) => {
                    acc = a;
                },
                None => {
                    proof {
                        lemma_panel_sum_none(pvs, v@, q@, i + 1);
                    }
                    return None;
                },
            }
            i += 1;
        }
        proof {
            assert(pvs.take(panels@.len() as int) =~= pvs);
        }
        Some(acc)
    }

    /// Advance the state by one forward-Euler step over `time` seconds.
    /// On success the state holds the stepped pose and momentum; when a
    /// value leaves the representable range the state is unchanged and the
    /// call reports failure.  The orientation advance uses the first-order
    /// rotation increment; see [`State::step`].
    pub fn forward_euler(&mut self, time: Rat) -> (ok: bool)
        requires
            old(self).wf(),
            time.wf(),
            time@.n >= 0,
        ensures
            ({
                match sv_euler(old(self)@, time@, momt_zero()) {
                    Some((tf, p)) => ok && final(self)@ == sv_with(old(self)@, tf, p)
                        && final(self).wf(),
                    None => !ok && *final(self) == *old(self),
                }
            }),
    {
        let next = self.euler_next(time);
        match next {
            Some((tf, p)) => {
                self.transform = tf;
                self.momentum = p;
                true
            },
            None => false,
        }
    }

    /// The pose and momentum after one forward-Euler step.
    fn euler_next(&self, time: Rat) -> (r: Option<(Transform, Momentum)>)
        requires
            self.wf(),
            time.wf(),
        ensures
            ({
                match r {
                    Some((tf, p)) => Some((tf@, p@)) == sv_euler(self@, time@, momt_zero())
                        && tf.wf() && p.wf(),
                    None => sv_euler(self@, time@, momt_zero()) is None,
                }
            }),
    {
        proof {
            reveal(sv_euler);
            reveal(sv_velocity);
        }
        let zero = Moment::zero();
        let st = self.stage_at(&self.transform, &self.momentum, &zero);
        match st {
            Some((_v0, m0)) => match m0.mul_secs(time) {
                Some(dp) => match self.momentum.add(&dp) {
                    Some(p2) => {
                        let vel2 = match self.mass.rotated(self.transform.rotation.0) {
                            Some(m) => p2.div_mass(&m),
                            None => None,
                        };
                        match vel2 {
                            Some(v2) => match v2.mul_secs(time) {
                                Some(dx) => match self.transform.add(&dx) {
                                    Some(t2) => Some((t2, p2)),
                                    None => None,
                                },
                                None => None,
                            },
                            None => None,
                        }
                    },
                    None => None,
                },
                None => None,
            },
            None => None,
        }
    }

    /// The velocity and total moment of the intermediate state with the
    /// given pose and momentum: the external moment plus the aggregate
    /// panel moment of that state.
    fn stage_at(&self, tf: &Transform, p: &Momentum, ext: &Moment) -> (r: Option<
        (Velocity, Moment),
    >)
        requires
            self.wf(),
            tf.wf(),
            p.wf(),
            ext.wf(),
        ensures
            ({
                match r {
                    Some((v, m)) => Some((v@, m@)) == sv_stage(sv_with(self@, tf@, p@), ext@)
                        && v.wf() && m.wf(),
                    None => sv_stage(sv_with(self@, tf@, p@), ext@) is None,
                }
            }),
    {
        proof {
            reveal(sv_stage);
            reveal(sv_velocity);
        }
        let vel = match self.mass.rotated(tf.rotation.0) {
            Some(m) => p.div_mass(&m),
            None => None,
        };
        match vel {
            Some(v) => match Self::panel_moment_for(&self.panels, &v, &tf.rotation.0) {
                Some(pm) => match ext.add(&pm) {
                    Some(t) => Some((v, t)),
                    None => None,
                },
                None => None,
            },
            None => None,
        }
    }

    /// Advance the state by one classical fourth-order Runge-Kutta step
    /// over `delta` seconds, under an external moment.  Velocity and total
    /// moment are re-evaluated at each of the four stages against that
    /// stage's own intermediate state.  On success the state holds the
    /// stepped pose and momentum; when a value leaves the representable
    /// range the state is unchanged and the call reports failure.
    ///
    /// The orientation advances by the first-order rotation increment of
    /// [`crate::velocity::AngVel::mul_secs`], not the axis-angle
    /// exponential: per increment a body spinning at rate `w` turns by
    /// twice the arctangent of `|w| * dt / 2` rather than `|w| * dt`, a
    /// deviation of second order in the span.
    pub fn step(&mut self, delta: Rat, external: &Moment) -> (ok: bool)
        requires
            old(self).wf(),
            delta.wf(),
            delta@.n >= 0,
            external.wf(),
        ensures
            ({
                match sv_step(old(self)@, delta@, external@) {
                    Some((tf, p)) => ok && final(self)@ == sv_with(old(self)@, tf, p)
                        && final(self).wf(),
                    None => !ok && *final(self) == *old(self),
                }
            }),
    {
        let next = self.rk4_next(delta, external);
        match next {
            Some((tf, p)) => {
                self.transform = tf;
                self.momentum = p;
                true
            },
            None => false,
        }
    }

    /// Advance the state by one Runge-Kutta step with no external moment.
    /// The orientation advance uses the first-order rotation increment;
    /// see [`State::step`].
    pub fn runge_kutta_4(&mut self, delta: Rat) -> (ok: bool)
        requires
            old(self).wf(),
            delta.wf(),
            delta@.n >= 0,
        ensures
            ({
                match sv_step(old(self)@, delta@, momt_zero()) {
                    Some((tf, p)) => ok && final(self)@ == sv_with(old(self)@, tf, p)
                        && final(self).wf(),
                    None => !ok && *final(self) == *old(self),
                }
            }),
    {
        let zero = Moment::zero();
        self.step(delta, &zero)
    }

    /// The four stage evaluations of one Runge-Kutta step.
    #[verifier::rlimit(100)]
    #[verifier::spinoff_prover]
    fn rk4_stages(&self, delta: Rat, external: &Moment, half: Rat) -> (r: Option<
        ((Velocity, Moment), (Velocity, Moment), (Velocity, Moment), (Velocity, Moment)),
    >)
        requires
            self.wf(),
            delta.wf(),
            external.wf(),
            half.wf(),
        ensures
            ({
                match r {
                    Some((k1, k2, k3, k4)) => Some(
                        ((k1.0@, k1.1@), (k2.0@, k2.1@), (k3.0@, k3.1@), (k4.0@, k4.1@)),
                    ) == sv_stages(self@, delta@, external@, half@) && k1.0.wf() && k1.1.wf()
                        && k2.0.wf() && k2.1.wf() && k3.0.wf() && k3.1.wf() && k4.0.wf()
                        && k4.1.wf(),
                    None => sv_stages(self@, delta@, external@, half@) is None,
                }
            }),
    {
        proof {
            reveal(sv_stages);
        }
        let k1 = match self.stage_at(&self.transform, &self.momentum, external) {
            Some(k) => k,
            None => {
                return None;
            },
        };
        let (tf1, p1) = match Self::advance(&self.transform, &self.momentum, &k1.0, &k1.1, half) {
            Some(a) => a,
            None => {
                return None;
            },
        };
        let k2 = match self.stage_at(&tf1, &p1, external) {
            Some(k) => k,
            None => {
                return None;
            },
        };
        let (tf2, p2) = match Self::advance(&self.transform, &self.momentum, &k2.0, &k2.1, half) {
            Some(a) => a,
            None => {
                return None;
            },
        };
        let k3 = match self.stage_at(&tf2, &p2, external) {
            Some(k) => k,
            None => {
                return None;
            },
        };
        let (tf3, p3) = match Self::advance(&self.transform, &self.momentum, &k3.0, &k3.1, delta) {
            Some(a) => a,
            None => {
                return None;
            },
        };
        let k4 = match self.stage_at(&tf3, &p3, external) {
            Some(k) => k,
            None => {
                return None;
            },
        };
        Some((k1, k2, k3, k4))
    }

    /// The pose and momentum after one Runge-Kutta step.
    #[verifier::rlimit(100)]
    #[verifier::spinoff_prover]
    fn rk4_next(&self, delta: Rat, external: &Moment) -> (r: Option<(Transform, Momentum)>)
        requires
            self.wf(),
            delta.wf(),
            external.wf(),
        ensures
            ({
                match r {
                    Some((tf, p)) => Some((tf@, p@)) == sv_step(self@, delta@, external@) && tf.wf()
                        && p.wf(),
                    None => sv_step(self@, delta@, external@) is None,
                }
            }),
    {
        proof {
            reveal(sv_step);
        }
        let half = match delta.div(Rat::from_int(2)) {
            Some(h) => h,
            None => {
                return None;
            },
        };
        let ((k1v, k1m), (k2v, k2m), (k3v, k3m), (k4v, k4m)) = match self.rk4_stages(
            delta,
            external,
            half,
        ) {
            Some(k) => k,
            None => {
                return None;
            },
        };
        let two = Rat::from_int(2);
        let kv = match (k2v.scale(two), k3v.scale(two)) {
            (Some(w2), Some(w3)) => match k1v.add(&w2) {
                Some(a) => match a.add(&w3) {
                    Some(b) => b.add(&k4v),
                    None => None,
                },
                None => None,
            },
            _ => None,
        };
        let km = match (k2m.scale(two), k3m.scale(two)) {
            (Some(w2), Some(w3)) => match k1m.add(&w2) {
                Some(a) => match a.add(&w3) {
                    Some(b) => b.add(&k4m),
                    None => None,
                },
                None => None,
            },
            _ => None,
        };
        match (kv, km) {
            (Some(cv), Some(cm)) => match delta.div(Rat::from_int(6)) {
                Some(dt6) => Self::advance(&self.transform, &self.momentum, &cv, &cm, dt6),
                None => None,
            },
            _ => None,
        }
    }

    /// The pose and momentum advanced from a base by a velocity and a
    /// moment over a time span.
    fn advance(tf: &Transform, p: &Momentum, kv: &Velocity, km: &Moment, dt: Rat) -> (r: Option<
        (Transform, Momentum),
    >)
        requires
            tf.wf(),
            p.wf(),
            kv.wf(),
            km.wf(),
            dt.wf(),
        ensures
            ({
                match r {
                    Some((t2, p2)) => Some((t2@, p2@)) == sv_advance(tf@, p@, kv@, km@, dt@)
                        && t2.wf() && p2.wf(),
                    None => sv_advance(tf@, p@, kv@, km@, dt@) is None,
                }
            }),
    {
        let dx = kv.mul_secs(dt);
        let dp = km.mul_secs(dt);
        match (dx, dp) {
            (Some(x), Some(q)) => {
                let t2 = tf.add(&x);
                let p2 = p.add(&q);
                match (t2, p2) {
                    (Some(a), Some(b)) => Some((a, b)),
                    _ => None,
                }
            },
            _ => None,
        }
    }
}

/// Once one prefix of the panel fold fails, the whole fold fails.
proof fn lemma_panel_sum_none(panels: Seq<PV>, v: VelV, q: Q4, i: int)
    requires
        0 <= i <= panels.len(),
        panel_moment_sum(panels.take(i), v, q) is None,
    ensures
        panel_moment_sum(panels, v, q) is None,
    decreases panels.len() - i,
{
    reveal(panel_moment_sum);
    if i == panels.len() {
        assert(panels.take(i) =~= panels);
    } else {
        assert(panels.take(i + 1).drop_last() =~= panels.take(i));
        lemma_panel_sum_none(panels, v, q, i + 1);
    }
}

} // verus!
