//! Installation and removal plans, and their fail-fast execution order.
//!
//! A plan is an ordered list of sub-steps.  `PlanRun` walks a plan from the
//! front: the driver asks for the next step, performs it, and records whether
//! it succeeded.  A failed fatal step halts the run at once and records the
//! step's human-readable context; no later step is ever handed out again.

use vstd::prelude::*;

use crate::cmd::{Cmd, CmdView};

verus! {

/// The mathematical content of one sub-step.
#[verifier::ext_equal]
pub enum StepView {
    /// Run an external command; on a non-zero exit, fail with `context`
    /// unless the step is marked non-fatal.
    Run { cmd: CmdView, context: Seq<char>, fatal: bool },
    /// Pause for a fixed settle interval, in seconds.  Never fails.
    Settle { seconds: u64 },
    /// Rewrite the generated cluster client configuration at `path`.
    Patch { path: Seq<char>, context: Seq<char> },
    /// Re-run the owning capability's presence probe; fail with `context`
    /// unless it now reports present.
    VerifyPresent { context: Seq<char> },
}

/// One sub-step of an installation or removal action.
pub enum Step {
    Run { cmd: Cmd, context: String, fatal: bool },
    Settle { seconds: u64 },
    Patch { path: String, context: String },
    VerifyPresent { context: String },
}

impl View for Step {
    type V = StepView;

    open spec fn view(&self) -> StepView {
        match self {
            Step::Run { cmd, context, fatal } => StepView::Run {
                cmd: cmd@,
                context: context@,
                fatal: *fatal,
            },
            Step::Settle { seconds } => StepView::Settle { seconds: *seconds },
            Step::Patch { path, context } => StepView::Patch { path: path@, context: context@ },
            Step::VerifyPresent { context } => StepView::VerifyPresent { context: context@ },
        }
    }
}

impl DeepView for Step {
    type V = StepView;

    open spec fn deep_view(&self) -> StepView {
        self.view()
    }
}

/// Whether a failure of this step aborts the whole action.
pub open spec fn step_fatal(s: StepView) -> bool {
    match s {
        StepView::Run { fatal, .. } => fatal,
        StepView::Settle { .. } => false,
        StepView::Patch { .. } => true,
        StepView::VerifyPresent { .. } => true,
    }
}

/// The human-readable context reported when this step fails.
pub open spec fn step_context(s: StepView) -> Seq<char> {
    match s {
        StepView::Run { context, .. } => context,
        StepView::Settle { .. } => Seq::<char>::empty(),
        StepView::Patch { context, .. } => context,
        StepView::VerifyPresent { context } => context,
    }
}

/// A fatal command step.
pub open spec fn run_step(program: Seq<char>, args: Seq<Seq<char>>, context: Seq<char>) -> StepView {
    StepView::Run { cmd: CmdView { program, args }, context, fatal: true }
}

/// A command step whose failure is tolerated.
pub open spec fn best_effort_run_step(program: Seq<char>, args: Seq<Seq<char>>) -> StepView {
    StepView::Run { cmd: CmdView { program, args }, context: Seq::<char>::empty(), fatal: false }
}

impl Step {
    /// A fatal command step.
    pub fn run(cmd: Cmd, context: &str) -> (s: Step)
        ensures
            s@ == run_step(cmd@.program, cmd@.args, context@),
    {
        let s = Step::Run { cmd, context: context.to_owned(), fatal: true };
        proof {
            assert(s@ =~~= run_step(cmd@.program, cmd@.args, context@));
        }
        s
    }

    /// A command step whose failure is tolerated: the run continues as if it
    /// had succeeded.
    pub fn run_best_effort(cmd: Cmd) -> (s: Step)
        ensures
            s@ == best_effort_run_step(cmd@.program, cmd@.args),
    {
        let s = Step::Run { cmd, context: String::new(), fatal: false };
        proof {
            assert(s@ =~~= best_effort_run_step(cmd@.program, cmd@.args));
        }
        s
    }

    /// A fixed settle pause.
    pub fn settle(seconds: u64) -> (s: Step)
        ensures
            s@ == (StepView::Settle { seconds }),
    {
        Step::Settle { seconds }
    }

    /// A configuration-patch step.
    pub fn patch(path: &str, context: &str) -> (s: Step)
        ensures
            s@ == (StepView::Patch { path: path@, context: context@ }),
    {
        Step::Patch { path: path.to_owned(), context: context.to_owned() }
    }

    /// A closing re-probe step.
    pub fn verify_present(context: &str) -> (s: Step)
        ensures
            s@ == (StepView::VerifyPresent { context: context@ }),
    {
        Step::VerifyPresent { context: context.to_owned() }
    }
}

/// The mathematical state of a plan run.
#[verifier::ext_equal]
pub struct PlanRunView {
    pub plan: Seq<StepView>,
    pub pos: int,
    pub failure: Option<Seq<char>>,
}

/// The next step a run hands out: the step at the cursor, unless the run has
/// already failed or reached the end of the plan.
pub open spec fn spec_next_step(v: PlanRunView) -> Option<StepView> {
    if v.failure is None && 0 <= v.pos < v.plan.len() {
        Some(v.plan[v.pos])
    } else {
        None
    }
}

/// The state after recording the outcome of the step at the cursor: advance
/// past a step that succeeded (or whose failure is tolerated), otherwise halt
/// with that step's context.
pub open spec fn spec_record(v: PlanRunView, success: bool) -> PlanRunView
    recommends
        spec_next_step(v) is Some,
{
    let st = spec_next_step(v)->Some_0;
    if success || !step_fatal(st) {
        PlanRunView { plan: v.plan, pos: v.pos + 1, failure: v.failure }
    } else {
        PlanRunView { plan: v.plan, pos: v.pos, failure: Some(step_context(st)) }
    }
}

/// A fail-fast walk through a plan.
pub struct PlanRun {
    pub plan: Vec<Step>,
    pub pos: usize,
    pub failure: Option<String>,
}

impl View for PlanRun {
    type V = PlanRunView;

    open spec fn view(&self) -> PlanRunView {
        PlanRunView {
            plan: self.plan.deep_view(),
            pos: self.pos as int,
            failure: self.failure.deep_view(),
        }
    }
}

impl PlanRun {
    /// A run positioned at the first step of `plan`, with nothing failed.
    pub fn new(plan: Vec<Step>) -> (r: PlanRun)
        ensures
            r@.plan == plan.deep_view(),
            r@.pos == 0,
            r@.failure is None,
    {
        PlanRun { plan, pos: 0, failure: None }
    }

    /// The step the driver must perform next, or `None` when the run is over
    /// (every step done, or an earlier step failed).
    pub fn next_step(&self) -> (s: Option<&Step>)
        ensures
            s is Some <==> spec_next_step(self@) is Some,
            s is Some ==> s->Some_0@ == spec_next_step(self@)->Some_0,
    {
        if self.failure.is_none() && self.pos < self.plan.len() {
            Some(&self.plan[self.pos])
        } else {
            None
        }
    }

    /// Record whether the step at the cursor succeeded.
    pub fn record(&mut self, success: bool)
        requires
            spec_next_step(old(self)@) is Some,
        ensures
            final(self)@ == spec_record(old(self)@, success),
    {
        let n = self.plan.len();
        assert(self.pos < n);
        if success {
            self.pos = self.pos + 1;
            return;
        }
        let fatal = match &self.plan[self.pos] {
            Step::Run { fatal, .. } => *fatal,
            Step::Settle { .. } => false,
            Step::Patch { .. } => true,
            Step::VerifyPresent { .. } => true,
        };
        if !fatal {
            self.pos = self.pos + 1;
            return;
        }
        let context = match &self.plan[self.pos] {
            Step::Run { context, .. } => context.clone(),
            Step::Settle { .. } => String::new(),
            Step::Patch { context, .. } => context.clone(),
            Step::VerifyPresent { context } => context.clone(),
        };
        self.failure = Some(context);
        proof {
            assert(final(self)@ =~~= spec_record(old(self)@, success));
        }
    }

    /// The overall result once the run is over: `Ok` when every step was
    /// recorded, `Err` with the failed step's context otherwise.
    pub fn result(&self) -> (r: Result<(), String>)
        requires
            spec_next_step(self@) is None,
        ensures
            r is Ok <==> self@.failure is None,
            r is Err ==> self@.failure == Some(r->Err_0@),
    {
        match &self.failure {
            None => Ok(()),
            Some(m) => Err(m.clone()),
        }
    }
}

/// A sub-step failure halts its action: the recorded failure names exactly
/// the failed step's context, and the run hands out no further step, so no
/// subsequent sub-step of the same action executes.
pub proof fn lemma_step_failure_halts(v: PlanRunView, success: bool)
    requires
        spec_next_step(v) is Some,
        !success,
        step_fatal(spec_next_step(v)->Some_0),
    ensures
        spec_record(v, success).failure == Some(step_context(spec_next_step(v)->Some_0)),
        spec_next_step(spec_record(v, success)) is None,
{
}

/// A run that has failed never hands out a step again, however often its
/// state is consulted.
pub proof fn lemma_failed_run_stays_halted(v: PlanRunView)
    requires
        v.failure is Some,
    ensures
        spec_next_step(v) is None,
{
}

} // verus!
