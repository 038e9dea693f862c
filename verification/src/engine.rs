//! The idempotent ensure/remove orchestration engine.
//!
//! One `ensure` (or `remove`) call is a small state machine: check presence,
//! possibly ask the operator, act, and — for `ensure` — re-check presence.
//! The machines here hold no I/O: the driver performs the probe, the prompt
//! and the action, and feeds each observed outcome back in.  Every decision
//! the engine takes is a pure function of the state and the observation.

use vstd::prelude::*;

use crate::probe::presence_view;

verus! {

/// The mathematical content of a finished run.
#[verifier::ext_equal]
pub enum OutcomeView {
    /// The capability was already present; nothing was done.
    AlreadyPresent,
    /// The operator declined the action; nothing was done.  A success.
    Declined,
    /// The action ran and the re-probe confirmed presence.
    Installed,
    /// The capability was already absent; nothing was removed.  A success.
    AlreadyAbsent,
    /// The removal action ran.
    Removed,
    /// The presence check itself could not execute.
    ProbeFailed(Seq<char>),
    /// A sub-step of the action exited unsuccessfully.
    StepFailed(Seq<char>),
    /// The action claimed success but the re-probe still reports absent.
    VerificationFailed,
}

/// How a finished ensure or remove run ended.
pub enum EngineOutcome {
    AlreadyPresent,
    Declined,
    Installed,
    AlreadyAbsent,
    Removed,
    ProbeFailed(String),
    StepFailed(String),
    VerificationFailed,
}

impl View for EngineOutcome {
    type V = OutcomeView;

    open spec fn view(&self) -> OutcomeView {
        match self {
            EngineOutcome::AlreadyPresent => OutcomeView::AlreadyPresent,
            EngineOutcome::Declined => OutcomeView::Declined,
            EngineOutcome::Installed => OutcomeView::Installed,
            EngineOutcome::AlreadyAbsent => OutcomeView::AlreadyAbsent,
            EngineOutcome::Removed => OutcomeView::Removed,
            EngineOutcome::ProbeFailed(m) => OutcomeView::ProbeFailed(m@),
            EngineOutcome::StepFailed(m) => OutcomeView::StepFailed(m@),
            EngineOutcome::VerificationFailed => OutcomeView::VerificationFailed,
        }
    }
}

/// The successful endings: a deliberate no-op is a success, distinct from
/// every failure.
pub open spec fn outcome_is_success(o: OutcomeView) -> bool {
    match o {
        OutcomeView::AlreadyPresent => true,
        OutcomeView::Declined => true,
        OutcomeView::Installed => true,
        OutcomeView::AlreadyAbsent => true,
        OutcomeView::Removed => true,
        OutcomeView::ProbeFailed(_) => false,
        OutcomeView::StepFailed(_) => false,
        OutcomeView::VerificationFailed => false,
    }
}

impl EngineOutcome {
    /// Whether this outcome reports success.
    pub fn is_success(&self) -> (b: bool)
        ensures
            b == outcome_is_success(self@),
    {
        match self {
            EngineOutcome::AlreadyPresent => true,
            EngineOutcome::Declined => true,
            EngineOutcome::Installed => true,
            EngineOutcome::AlreadyAbsent => true,
            EngineOutcome::Removed => true,
            EngineOutcome::ProbeFailed(_) => false,
            EngineOutcome::StepFailed(_) => false,
            EngineOutcome::VerificationFailed => false,
        }
    }
}

/// The mathematical state of an ensure run.
#[verifier::ext_equal]
pub enum EnsureStateView {
    /// Waiting for the first presence probe.
    Checking,
    /// Absent, and the confirmation gate is active: waiting for the operator.
    Confirming,
    /// Waiting for the installation action.
    Acting,
    /// The action succeeded: waiting for the re-probe.
    Verifying,
    /// The run is over.
    Done(OutcomeView),
}

/// The state of an ensure run.
pub enum EnsureState {
    Checking,
    Confirming,
    Acting,
    Verifying,
    Done(EngineOutcome),
}

impl View for EnsureState {
    type V = EnsureStateView;

    open spec fn view(&self) -> EnsureStateView {
        match self {
            EnsureState::Checking => EnsureStateView::Checking,
            EnsureState::Confirming => EnsureStateView::Confirming,
            EnsureState::Acting => EnsureStateView::Acting,
            EnsureState::Verifying => EnsureStateView::Verifying,
            EnsureState::Done(o) => EnsureStateView::Done(o@),
        }
    }
}

/// What the driver must do next for a given state.
#[derive(PartialEq, Eq, Structural, Clone, Copy, Debug)]
pub enum EngineRequest {
    /// Run the capability's presence probe and report the result.
    RunProbe,
    /// Ask the operator for confirmation and report the decision.
    AskConfirm,
    /// Run the capability's action plan and report its result.
    RunAction,
    /// The run is over; read the outcome.
    Finished,
}

/// Where the first probe of an ensure run leads.
pub open spec fn spec_ensure_probe_step(gate: bool, r: Result<bool, Seq<char>>) -> EnsureStateView {
    match r {
        Ok(true) => EnsureStateView::Done(OutcomeView::AlreadyPresent),
        Ok(false) => if gate {
            EnsureStateView::Confirming
        } else {
            EnsureStateView::Acting
        },
        Err(m) => EnsureStateView::Done(OutcomeView::ProbeFailed(m)),
    }
}

/// Where the operator's decision leads.
pub open spec fn spec_confirm_step(granted: bool) -> EnsureStateView {
    if granted {
        EnsureStateView::Acting
    } else {
        EnsureStateView::Done(OutcomeView::Declined)
    }
}

/// Where the installation action's result leads.
pub open spec fn spec_action_step(r: Result<(), Seq<char>>) -> EnsureStateView {
    match r {
        Ok(u) => EnsureStateView::Verifying,
        Err(m) => EnsureStateView::Done(OutcomeView::StepFailed(m)),
    }
}

/// Where the closing re-probe leads: presence confirmed, contradicted, or
/// unobservable.
pub open spec fn spec_verify_step(r: Result<bool, Seq<char>>) -> EnsureStateView {
    match r {
        Ok(true) => EnsureStateView::Done(OutcomeView::Installed),
        Ok(false) => EnsureStateView::Done(OutcomeView::VerificationFailed),
        Err(m) => EnsureStateView::Done(OutcomeView::ProbeFailed(m)),
    }
}

/// The view of an action result.
pub open spec fn action_view(r: Result<(), String>) -> Result<(), Seq<char>> {
    match r {
        Ok(u) => Ok(u),
        Err(m) => Err(m@),
    }
}

/// One ensure run: the machine that decides, observation by observation,
/// whether the installation action runs and how the run ends.
pub struct EnsureRun {
    pub gate: bool,
    pub state: EnsureState,
}

impl EnsureRun {
    /// A fresh run, about to check presence.  `gate` is the confirmation
    /// gate: whether a mutating action first needs the operator's approval.
    pub fn new(gate: bool) -> (r: EnsureRun)
        ensures
            r.gate == gate,
            r.state@ == EnsureStateView::Checking,
    {
        EnsureRun { gate, state: EnsureState::Checking }
    }

    /// What the driver must do next.
    pub fn request(&self) -> (r: EngineRequest)
        ensures
            r == (match self.state@ {
                EnsureStateView::Checking => EngineRequest::RunProbe,
                EnsureStateView::Confirming => EngineRequest::AskConfirm,
                EnsureStateView::Acting => EngineRequest::RunAction,
                EnsureStateView::Verifying => EngineRequest::RunProbe,
                EnsureStateView::Done(_) => EngineRequest::Finished,
            }),
    {
        match &self.state {
            EnsureState::Checking => EngineRequest::RunProbe,
            EnsureState::Confirming => EngineRequest::AskConfirm,
            EnsureState::Acting => EngineRequest::RunAction,
            EnsureState::Verifying => EngineRequest::RunProbe,
            EnsureState::Done(_) => EngineRequest::Finished,
        }
    }

    /// Feed in a probe result: the first probe when checking, the re-probe
    /// when verifying.
    pub fn on_probe(&mut self, r: Result<bool, String>)
        requires
            old(self).state@ is Checking || old(self).state@ is Verifying,
        ensures
            final(self).gate == old(self).gate,
            old(self).state@ is Checking ==> final(self).state@ == spec_ensure_probe_step(
                old(self).gate,
                presence_view(r),
            ),
            old(self).state@ is Verifying ==> final(self).state@ == spec_verify_step(
                presence_view(r),
            ),
    {
        let checking = match &self.state {
            EnsureState::Checking => true,
            _ => false,
        };
        self.state = match r {
            Ok(true) => if checking {
                EnsureState::Done(EngineOutcome::AlreadyPresent)
            } else {
                EnsureState::Done(EngineOutcome::Installed)
            },
            Ok(false) => if checking {
                if self.gate {
                    EnsureState::Confirming
                } else {
                    EnsureState::Acting
                }
            } else {
                EnsureState::Done(EngineOutcome::VerificationFailed)
            },
            Err(m) => EnsureState::Done(EngineOutcome::ProbeFailed(m)),
        };
    }

    /// Feed in the operator's decision.
    pub fn on_confirm(&mut self, granted: bool)
        requires
            old(self).state@ is Confirming,
        ensures
            final(self).gate == old(self).gate,
            final(self).state@ == spec_confirm_step(granted),
    {
        self.state = if granted {
            EnsureState::Acting
        } else {
            EnsureState::Done(EngineOutcome::Declined)
        };
    }

    /// Feed in the installation action's result.
    pub fn on_action(&mut self, r: Result<(), String>)
        requires
            old(self).state@ is Acting,
        ensures
            final(self).gate == old(self).gate,
            final(self).state@ == spec_action_step(action_view(r)),
    {
        self.state = match r {
            Ok(_) => EnsureState::Verifying,
            Err(m) => EnsureState::Done(EngineOutcome::StepFailed(m)),
        };
    }

    /// The outcome, once the run is over.
    pub fn outcome(self) -> (o: EngineOutcome)
        requires
            self.state@ is Done,
        ensures
            self.state@ == EnsureStateView::Done(o@),
    {
        match self.state {
            EnsureState::Done(o) => o,
            _ => EngineOutcome::VerificationFailed,
        }
    }
}

/// The mathematical state of a remove run.
#[verifier::ext_equal]
pub enum RemoveStateView {
    Checking,
    Confirming,
    Acting,
    Done(OutcomeView),
}

/// The state of a remove run.
pub enum RemoveState {
    Checking,
    Confirming,
    Acting,
    Done(EngineOutcome),
}

impl View for RemoveState {
    type V = RemoveStateView;

    open spec fn view(&self) -> RemoveStateView {
        match self {
            RemoveState::Checking => RemoveStateView::Checking,
            RemoveState::Confirming => RemoveStateView::Confirming,
            RemoveState::Acting => RemoveStateView::Acting,
            RemoveState::Done(o) => RemoveStateView::Done(o@),
        }
    }
}

/// Where the probe of a remove run leads: an absent capability makes the
/// whole call a successful no-op.
pub open spec fn spec_remove_probe_step(gate: bool, r: Result<bool, Seq<char>>) -> RemoveStateView {
    match r {
        Ok(false) => RemoveStateView::Done(OutcomeView::AlreadyAbsent),
        Ok(true) => if gate {
            RemoveStateView::Confirming
        } else {
            RemoveStateView::Acting
        },
        Err(m) => RemoveStateView::Done(OutcomeView::ProbeFailed(m)),
    }
}

/// Where the operator's decision leads in a remove run.
pub open spec fn spec_remove_confirm_step(granted: bool) -> RemoveStateView {
    if granted {
        RemoveStateView::Acting
    } else {
        RemoveStateView::Done(OutcomeView::Declined)
    }
}

/// Where the removal action's result leads.  No re-probe is required after
/// removal, beyond what individual capabilities add themselves.
pub open spec fn spec_remove_action_step(r: Result<(), Seq<char>>) -> RemoveStateView {
    match r {
        Ok(u) => RemoveStateView::Done(OutcomeView::Removed),
        Err(m) => RemoveStateView::Done(OutcomeView::StepFailed(m)),
    }
}

/// One remove run.
pub struct RemoveRun {
    pub gate: bool,
    pub state: RemoveState,
}

impl RemoveRun {
    /// A fresh run, about to check presence.
    pub fn new(gate: bool) -> (r: RemoveRun)
        ensures
            r.gate == gate,
            r.state@ == RemoveStateView::Checking,
    {
        RemoveRun { gate, state: RemoveState::Checking }
    }

    /// What the driver must do next.
    pub fn request(&self) -> (r: EngineRequest)
        ensures
            r == (match self.state@ {
                RemoveStateView::Checking => EngineRequest::RunProbe,
                RemoveStateView::Confirming => EngineRequest::AskConfirm,
                RemoveStateView::Acting => EngineRequest::RunAction,
                RemoveStateView::Done(_) => EngineRequest::Finished,
            }),
    {
        match &self.state {
            RemoveState::Checking => EngineRequest::RunProbe,
            RemoveState::Confirming => EngineRequest::AskConfirm,
            RemoveState::Acting => EngineRequest::RunAction,
            RemoveState::Done(_) => EngineRequest::Finished,
        }
    }

    /// Feed in the presence probe's result.
    pub fn on_probe(&mut self, r: Result<bool, String>)
        requires
            old(self).state@ is Checking,
        ensures
            final(self).gate == old(self).gate,
            final(self).state@ == spec_remove_probe_step(old(self).gate, presence_view(r)),
    {
        self.state = match r {
            Ok(false) => RemoveState::Done(EngineOutcome::AlreadyAbsent),
            Ok(true) => if self.gate {
                RemoveState::Confirming
            } else {
                RemoveState::Acting
            },
            Err(m) => RemoveState::Done(EngineOutcome::ProbeFailed(m)),
        };
    }

    /// Feed in the operator's decision.
    pub fn on_confirm(&mut self, granted: bool)
        requires
            old(self).state@ is Confirming,
        ensures
            final(self).gate == old(self).gate,
            final(self).state@ == spec_remove_confirm_step(granted),
    {
        self.state = if granted {
            RemoveState::Acting
        } else {
            RemoveState::Done(EngineOutcome::Declined)
        };
    }

    /// Feed in the removal action's result.
    pub fn on_action(&mut self, r: Result<(), String>)
        requires
            old(self).state@ is Acting,
        ensures
            final(self).gate == old(self).gate,
            final(self).state@ == spec_remove_action_step(action_view(r)),
    {
        self.state = match r {
            Ok(_) => RemoveState::Done(EngineOutcome::Removed),
            Err(m) => RemoveState::Done(EngineOutcome::StepFailed(m)),
        };
    }

    /// The outcome, once the run is over.
    pub fn outcome(self) -> (o: EngineOutcome)
        requires
            self.state@ is Done,
        ensures
            self.state@ == RemoveStateView::Done(o@),
    {
        match self.state {
            RemoveState::Done(o) => o,
            _ => EngineOutcome::VerificationFailed,
        }
    }
}

/// Whether an ensure run that observes `probe1` first (and, if asked,
/// the operator's decision `granted`) ever reaches the acting state — that
/// is, whether the mutating installation action is invoked at all.
pub open spec fn spec_ensure_acts(gate: bool, probe1: Result<bool, Seq<char>>, granted: bool) -> bool {
    spec_ensure_probe_step(gate, probe1) is Acting || (spec_ensure_probe_step(gate, probe1)
        is Confirming && spec_confirm_step(granted) is Acting)
}

/// Where a started ensure action leads, given the action's result and, when
/// it succeeds, the re-probe's result.
pub open spec fn spec_ensure_from_acting(
    action: Result<(), Seq<char>>,
    probe2: Result<bool, Seq<char>>,
) -> EnsureStateView {
    let s = spec_action_step(action);
    if s is Verifying {
        spec_verify_step(probe2)
    } else {
        s
    }
}

/// The final state of a whole ensure run over its observations: the first
/// probe, the operator's decision (consulted only from the confirming
/// state), the action's result and the re-probe's result (consulted only
/// when the action runs and succeeds).
pub open spec fn spec_ensure_run(
    gate: bool,
    probe1: Result<bool, Seq<char>>,
    granted: bool,
    action: Result<(), Seq<char>>,
    probe2: Result<bool, Seq<char>>,
) -> EnsureStateView {
    let s1 = spec_ensure_probe_step(gate, probe1);
    if s1 is Confirming {
        let s2 = spec_confirm_step(granted);
        if s2 is Acting {
            spec_ensure_from_acting(action, probe2)
        } else {
            s2
        }
    } else if s1 is Acting {
        spec_ensure_from_acting(action, probe2)
    } else {
        s1
    }
}

/// Whether a remove run ever reaches the acting state.
pub open spec fn spec_remove_acts(gate: bool, probe: Result<bool, Seq<char>>, granted: bool) -> bool {
    spec_remove_probe_step(gate, probe) is Acting || (spec_remove_probe_step(gate, probe)
        is Confirming && spec_remove_confirm_step(granted) is Acting)
}

/// The final state of a whole remove run over its observations.
pub open spec fn spec_remove_run(
    gate: bool,
    probe: Result<bool, Seq<char>>,
    granted: bool,
    action: Result<(), Seq<char>>,
) -> RemoveStateView {
    let s1 = spec_remove_probe_step(gate, probe);
    if s1 is Confirming {
        let s2 = spec_remove_confirm_step(granted);
        if s2 is Acting {
            spec_remove_action_step(action)
        } else {
            s2
        }
    } else if s1 is Acting {
        spec_remove_action_step(action)
    } else {
        s1
    }
}

/// When the capability is already present, `ensure` invokes no mutating
/// action and reports success.
pub proof fn lemma_ensure_present_is_noop(
    gate: bool,
    granted: bool,
    action: Result<(), Seq<char>>,
    probe2: Result<bool, Seq<char>>,
)
    ensures
        !spec_ensure_acts(gate, Ok(true), granted),
        spec_ensure_run(gate, Ok(true), granted, action, probe2) == EnsureStateView::Done(
            OutcomeView::AlreadyPresent,
        ),
        outcome_is_success(OutcomeView::AlreadyPresent),
{
}

/// When the capability is absent, the confirmation gate is active and the
/// operator declines, `ensure` invokes no mutating action and still reports
/// success: a deliberate skip, not a failure.
pub proof fn lemma_ensure_declined_is_noop(
    action: Result<(), Seq<char>>,
    probe2: Result<bool, Seq<char>>,
)
    ensures
        !spec_ensure_acts(true, Ok(false), false),
        spec_ensure_run(true, Ok(false), false, action, probe2) == EnsureStateView::Done(
            OutcomeView::Declined,
        ),
        outcome_is_success(OutcomeView::Declined),
{
}

/// An installation that runs and succeeds is always followed by a second
/// probe, and the run succeeds exactly when that second probe reports
/// present.  A second probe that still reports absent ends the run as a
/// verification failure, distinct from any sub-step failure.
pub proof fn lemma_ensure_verifies_after_action(
    gate: bool,
    granted: bool,
    probe2: Result<bool, Seq<char>>,
)
    requires
        !gate || granted,
    ensures
        spec_ensure_acts(gate, Ok(false), granted),
        spec_ensure_run(gate, Ok(false), granted, Ok(()), probe2) == EnsureStateView::Done(
            match probe2 {
                Ok(true) => OutcomeView::Installed,
                Ok(false) => OutcomeView::VerificationFailed,
                Err(m) => OutcomeView::ProbeFailed(m),
            },
        ),
        forall|o: OutcomeView|
            spec_ensure_run(gate, Ok(false), granted, Ok(()), probe2) == EnsureStateView::Done(o)
                ==> (outcome_is_success(o) <==> probe2 == Ok::<bool, Seq<char>>(true)),
{
}

/// When the capability is absent and a sub-step of the invoked installation
/// action fails, the run ends with that step's failure and never reaches the
/// re-probe.
pub proof fn lemma_ensure_propagates_step_failure(
    gate: bool,
    granted: bool,
    message: Seq<char>,
    probe2: Result<bool, Seq<char>>,
)
    requires
        !gate || granted,
    ensures
        spec_ensure_run(gate, Ok(false), granted, Err(message), probe2) == EnsureStateView::Done(
            OutcomeView::StepFailed(message),
        ),
{
}

/// `remove` is a no-op reporting success when the capability is already
/// absent: no confirmation is asked and no removal action is invoked.
pub proof fn lemma_remove_absent_is_noop(
    gate: bool,
    granted: bool,
    action: Result<(), Seq<char>>,
)
    ensures
        !spec_remove_acts(gate, Ok(false), granted),
        spec_remove_run(gate, Ok(false), granted, action) == RemoveStateView::Done(
            OutcomeView::AlreadyAbsent,
        ),
        outcome_is_success(OutcomeView::AlreadyAbsent),
{
}

} // verus!
