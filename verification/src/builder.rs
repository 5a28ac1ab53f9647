//! Step-by-step assembly of a [`State`].

use crate::inertia_mass::InertiaMass;
use crate::momentum::{MomV, Momentum};
use crate::panels::Panel;
use crate::quat::q4_identity;
use crate::transform::{Transform, TV};
use crate::vec3::v3_zero;
use crate::State;
use vstd::prelude::*;

verus! {

/// Collects the parts of a [`State`]; the mass is mandatory, the pose and
/// momentum default to rest, the panel list to empty.
#[derive(Debug, Clone)]
pub struct StateBuilder {
    /// The mass to build with, once set.
    pub mass: Option<InertiaMass>,
    /// The pose to build with, if set.
    pub transform: Option<Transform>,
    /// The momentum to build with, if set.
    pub momentum: Option<Momentum>,
    /// The panels collected so far.
    pub panels: Vec<Panel>,
}

impl StateBuilder {
    /// Every part that has been set is in stored form.
    pub open spec fn wf(self) -> bool {
        (self.mass matches Some(m) ==> m.wf()) && (self.transform matches Some(t) ==> t.wf()) && (
        self.momentum matches Some(p) ==> p.wf()) && forall|i: int|
            0 <= i < self.panels@.len() ==> self.panels@[i].wf()
    }

    /// The mass that has been set, if any.
    pub open spec fn mass_set(self) -> Option<InertiaMass> {
        self.mass
    }

    /// The pose that has been set, if any.
    pub open spec fn transform_set(self) -> Option<Transform> {
        self.transform
    }

    /// The momentum that has been set, if any.
    pub open spec fn momentum_set(self) -> Option<Momentum> {
        self.momentum
    }

    /// The panels collected so far.
    pub open spec fn panels_set(self) -> Seq<Panel> {
        self.panels@
    }

    /// An empty builder: nothing set, no panels.
    pub fn new() -> (r: StateBuilder)
        ensures
            r.wf(),
            r.mass_set() is None,
            r.transform_set() is None,
            r.momentum_set() is None,
            r.panels_set() == Seq::<Panel>::empty(),
    {
        let r = StateBuilder { mass: None, transform: None, momentum: None, panels: Vec::new() };
        proof {
            assert(r.panels@ =~= Seq::<Panel>::empty());
        }
        r
    }

    /// Sets the mass.
    pub fn mass(self, mass: InertiaMass) -> (r: StateBuilder)
        ensures
            r.mass_set() == Some(mass),
            r.transform_set() == self.transform_set(),
            r.momentum_set() == self.momentum_set(),
            r.panels_set() == self.panels_set(),
    {
        StateBuilder { mass: Some(mass), ..self }
    }

    /// Sets the pose.
    pub fn transform(self, transform: Transform) -> (r: StateBuilder)
        ensures
            r.transform_set() == Some(transform),
            r.mass_set() == self.mass_set(),
            r.momentum_set() == self.momentum_set(),
            r.panels_set() == self.panels_set(),
    {
        StateBuilder { transform: Some(transform), ..self }
    }

    /// Sets the momentum.
    pub fn momentum(self, momentum: Momentum) -> (r: StateBuilder)
        ensures
            r.momentum_set() == Some(momentum),
            r.mass_set() == self.mass_set(),
            r.transform_set() == self.transform_set(),
            r.panels_set() == self.panels_set(),
    {
        StateBuilder { momentum: Some(momentum), ..self }
    }

    /// Appends one panel.
    pub fn add_panel(self, panel: Panel) -> (r: StateBuilder)
        ensures
            r.panels_set() == self.panels_set().push(panel),
            r.mass_set() == self.mass_set(),
            r.transform_set() == self.transform_set(),
            r.momentum_set() == self.momentum_set(),
    {
        let mut b = self;
        b.panels.push(panel);
        b
    }

    /// Appends several panels, in order.
    pub fn add_panels(self, panels: Vec<Panel>) -> (r: StateBuilder)
        ensures
            r.panels_set() == self.panels_set() + panels@,
            r.mass_set() == self.mass_set(),
            r.transform_set() == self.transform_set(),
            r.momentum_set() == self.momentum_set(),
    {
        let mut b = self;
        let mut more = panels;
        b.panels.append(&mut more);
        b
    }

    /// Replaces the panel list.
    pub fn panels(self, panels: Vec<Panel>) -> (r: StateBuilder)
        ensures
            r.panels_set() == panels@,
            r.mass_set() == self.mass_set(),
            r.transform_set() == self.transform_set(),
            r.momentum_set() == self.momentum_set(),
    {
        StateBuilder { panels, ..self }
    }

    /// Builds the state.  The mass must have been set; a missing pose or
    /// momentum defaults to rest at the origin.
    pub fn build(self) -> (r: State)
        requires
            self.mass_set() is Some,
        ensures
            Some(r.mass) == self.mass_set(),
            self.transform_set() matches Some(t) ==> r.transform == t,
            self.transform_set() is None ==> r.transform@ == (TV {
                translation: v3_zero(),
                rotation: q4_identity(),
            }) && r.transform.wf(),
            self.momentum_set() matches Some(p) ==> r.momentum == p,
            self.momentum_set() is None ==> r.momentum@ == (MomV {
                linear: v3_zero(),
                angular: v3_zero(),
            }) && r.momentum.wf(),
            r.panels@ == self.panels_set(),
    {
        let mass = match self.mass {
            Some(m) => m,
            None => vstd::pervasive::unreached(),
        };
        let transform = match self.transform {
            Some(t) => t,
            None => Transform::zero(),
        };
        let momentum = match self.momentum {
            Some(p) => p,
            None => Momentum::zero(),
        };
        State { mass, transform, momentum, panels: self.panels }
    }
}

} // verus!
