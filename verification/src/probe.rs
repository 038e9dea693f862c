//! Presence probes and the reading of their observed outcomes.
//!
//! A probe is a pure observation: it never mutates anything.  The driver
//! runs the probe's command (if it has one) and reports what it saw; the
//! meaning of that observation — present, absent, or a probe error — is
//! decided here.

use vstd::prelude::*;

use crate::cmd::{Cmd, CmdView};
use crate::text::contains_seq;

verus! {

/// The mathematical content of a probe.
#[verifier::ext_equal]
pub enum ProbeView {
    /// A named executable is reachable on the search path.  Any inability to
    /// check — a spawn failure included — deliberately reads as "absent",
    /// never as a probe error.
    Binary { name: Seq<char> },
    /// Run a command and scan its captured standard output for a marker
    /// substring.  Here an inability to run the command is a probe error.
    CmdContains { cmd: CmdView, needle: Seq<char> },
    /// Presence is never detected; the action always runs.  Used by the
    /// port-forward tunnel, whose already-bound port is deliberately not
    /// checked.
    AlwaysAbsent,
}

/// A presence probe: how to observe whether a capability's effect is there.
pub enum Probe {
    Binary { name: String },
    CmdContains { cmd: Cmd, needle: String },
    AlwaysAbsent,
}

impl View for Probe {
    type V = ProbeView;

    open spec fn view(&self) -> ProbeView {
        match self {
            Probe::Binary { name } => ProbeView::Binary { name: name@ },
            Probe::CmdContains { cmd, needle } => ProbeView::CmdContains {
                cmd: cmd@,
                needle: needle@,
            },
            Probe::AlwaysAbsent => ProbeView::AlwaysAbsent,
        }
    }
}

/// The mathematical content of what the driver observed.
#[verifier::ext_equal]
pub enum ProbeOutcomeView {
    Ran { exit_ok: bool, stdout: Seq<char> },
    CouldNotRun { message: Seq<char> },
}

/// What the driver observed when it performed a probe's command: either the
/// process ran (with its exit status and captured standard output), or it
/// could not be run at all.
pub enum ProbeOutcome {
    Ran { exit_ok: bool, stdout: String },
    CouldNotRun { message: String },
}

impl View for ProbeOutcome {
    type V = ProbeOutcomeView;

    open spec fn view(&self) -> ProbeOutcomeView {
        match self {
            ProbeOutcome::Ran { exit_ok, stdout } => ProbeOutcomeView::Ran {
                exit_ok: *exit_ok,
                stdout: stdout@,
            },
            ProbeOutcome::CouldNotRun { message } => ProbeOutcomeView::CouldNotRun {
                message: message@,
            },
        }
    }
}

/// The view of a presence result: present, absent, or a probe error with its
/// message.
pub open spec fn presence_view(r: Result<bool, String>) -> Result<bool, Seq<char>> {
    match r {
        Ok(b) => Ok(b),
        Err(m) => Err(m@),
    }
}

/// What a probe's observation means: present, absent, or a probe error.
pub open spec fn spec_interpret(p: ProbeView, o: ProbeOutcomeView) -> Result<bool, Seq<char>> {
    match p {
        ProbeView::AlwaysAbsent => Ok(false),
        ProbeView::Binary { .. } => match o {
            ProbeOutcomeView::Ran { exit_ok, .. } => Ok(exit_ok),
            ProbeOutcomeView::CouldNotRun { .. } => Ok(false),
        },
        ProbeView::CmdContains { needle, .. } => match o {
            ProbeOutcomeView::Ran { stdout, .. } => Ok(contains_seq(stdout, needle)),
            ProbeOutcomeView::CouldNotRun { message } => Err(message),
        },
    }
}

impl Probe {
    /// The command the driver must run to make this observation, or `None`
    /// when the probe observes nothing.
    pub fn command(&self) -> (c: Option<Cmd>)
        ensures
            match self@ {
                ProbeView::Binary { name } => c is Some && c->Some_0@ == (CmdView {
                    program: "which"@,
                    args: seq![name],
                }),
                ProbeView::CmdContains { cmd, .. } => c is Some && c->Some_0@ == cmd,
                ProbeView::AlwaysAbsent => c is None,
            },
    {
        match self {
            Probe::Binary { name } => {
                let c = Cmd::new("which").arg(name.as_str());
                proof {
                    assert(c@ =~~= (CmdView { program: "which"@, args: seq![name@] }));
                }
                Some(c)
            },
            Probe::CmdContains { cmd, .. } => Some(cmd.duplicate()),
            Probe::AlwaysAbsent => None,
        }
    }

    /// Read an observation: present, absent, or a probe error.
    pub fn interpret(&self, outcome: ProbeOutcome) -> (r: Result<bool, String>)
        ensures
            presence_view(r) == spec_interpret(self@, outcome@),
    {
        match self {
            Probe::AlwaysAbsent => Ok(false),
            Probe::Binary { .. } => match outcome {
                ProbeOutcome::Ran { exit_ok, .. } => Ok(exit_ok),
                ProbeOutcome::CouldNotRun { .. } => Ok(false),
            },
            Probe::CmdContains { needle, .. } => match outcome {
                ProbeOutcome::Ran { stdout, .. } => Ok(
                    crate::text::contains_str(stdout.as_str(), needle.as_str()),
                ),
                ProbeOutcome::CouldNotRun { message } => Err(message),
            },
        }
    }
}

} // verus!
