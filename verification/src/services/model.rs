//! The uniform capability contract, and the entity views of the engine.
//!
//! Every installable or manageable entity describes itself as data: a display
//! name, a presence probe, and ordered action plans.  The orchestration
//! engine is the sole consumer of this contract; a driver performs the
//! described observations and actions.

use vstd::prelude::*;

use crate::engine::{EnsureRun, RemoveRun};
use crate::plan::{Step, StepView};
use crate::probe::{Probe, ProbeView};

verus! {

/// An entity with a stable display name.
pub trait Nameable {
    /// The display name.
    spec fn spec_name(&self) -> Seq<char>;

    /// The display name, as shown to the operator.
    fn name(&self) -> (n: &'static str)
        ensures
            n@ == self.spec_name(),
    ;
}

/// An entity whose presence can be probed and established.
pub trait Ensurable: Nameable {
    /// The presence probe this entity uses.
    spec fn spec_probe(&self) -> ProbeView;

    /// The ordered sub-steps of the installation action.  `in_container`
    /// is the execution context: whether the orchestrating process itself
    /// runs inside a container.
    spec fn spec_install_plan(&self, in_container: bool) -> Seq<StepView>;

    /// The presence probe, freshly constructed: presence is always
    /// recomputed, never cached.
    fn probe(&self) -> (p: Probe)
        ensures
            p@ == self.spec_probe(),
    ;

    /// The installation action's plan.
    fn install_plan(&self, in_container: bool) -> (p: Vec<Step>)
        ensures
            p.deep_view() == self.spec_install_plan(in_container),
    ;
}

/// An entity whose presence can also be removed.
pub trait Removable: Ensurable {
    /// The ordered sub-steps of the removal action.
    spec fn spec_removal_plan(&self) -> Seq<StepView>;

    /// The removal action's plan.
    fn removal_plan(&self) -> (p: Vec<Step>)
        ensures
            p.deep_view() == self.spec_removal_plan(),
    ;
}

/// The engine's view of an ensurable entity: one idempotent ensure call.
pub trait EnsurableEntity {
    /// Begin an ensure run for this entity.  `confirm` is the confirmation
    /// gate: whether a mutating action first needs the operator's approval.
    fn ensure(&self, confirm: bool) -> (r: EnsureRun)
        ensures
            r.gate == confirm,
            r.state@ is Checking,
    ;
}

impl<T: Ensurable> EnsurableEntity for T {
    fn ensure(&self, confirm: bool) -> (r: EnsureRun) {
        EnsureRun::new(confirm)
    }
}

/// The engine's view of a removable entity: one idempotent remove call.
pub trait RemovableEntity {
    /// Begin a remove run for this entity.
    fn remove(&self, confirm: bool) -> (r: RemoveRun)
        ensures
            r.gate == confirm,
            r.state@ is Checking,
    ;
}

impl<T: Removable> RemovableEntity for T {
    fn remove(&self, confirm: bool) -> (r: RemoveRun) {
        RemoveRun::new(confirm)
    }
}

/// The confirmation prompt shown before an installation action.
pub fn ensure_prompt(name: &str) -> (p: String)
    ensures
        p@ == "`"@ + name@ + "` is not present: do you want me to make it so?"@,
{
    let p = "`".to_owned();
    let p = p.concat(name);
    p.concat("` is not present: do you want me to make it so?")
}

/// The confirmation prompt shown before a removal action.
pub fn remove_prompt(name: &str) -> (p: String)
    ensures
        p@ == "`"@ + name@ + "` is present: do you want me to remove it?"@,
{
    let p = "`".to_owned();
    let p = p.concat(name);
    p.concat("` is present: do you want me to remove it?")
}

} // verus!
