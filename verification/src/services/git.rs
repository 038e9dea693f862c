//! The `git` binary dependency.

use vstd::prelude::*;

use crate::cmd::Cmd;
use crate::plan::{run_step, Step, StepView};
use crate::probe::{Probe, ProbeView};
use crate::services::model::{Ensurable, Nameable};

verus! {

/// The `git` command-line tool, installed through the system package
/// manager.
pub struct Git {}

impl Default for Git {
    /// A fresh capability; it carries no configuration.
    fn default() -> (d: Git)
        ensures
            d == (Git {  }),
    {
        Git {  }
    }
}

impl Nameable for Git {
    open spec fn spec_name(&self) -> Seq<char> {
        "git"@
    }

    fn name(&self) -> (n: &'static str) {
        "git"
    }
}

impl Ensurable for Git {
    open spec fn spec_probe(&self) -> ProbeView {
        ProbeView::Binary { name: "git"@ }
    }

    open spec fn spec_install_plan(&self, in_container: bool) -> Seq<StepView> {
        seq![
            run_step("apt-get"@, seq!["update"@], "Unable to update apt-get."@),
            run_step(
                "apt-get"@,
                seq!["-y"@, "install"@, "git"@],
                "Unable to install git via apt-get.  You can install git manually, and try again."@,
            ),
            run_step("which"@, seq!["git"@], "Unable to verify git installation."@),
        ]
    }

    fn probe(&self) -> (p: Probe) {
        Probe::Binary { name: "git".to_owned() }
    }

    fn install_plan(&self, in_container: bool) -> (p: Vec<Step>) {
        let mut p: Vec<Step> = Vec::new();
        p.push(Step::run(Cmd::new("apt-get").arg("update"), "Unable to update apt-get."));
        p.push(
            Step::run(
                Cmd::new("apt-get").arg("-y").arg("install").arg("git"),
                "Unable to install git via apt-get.  You can install git manually, and try again.",
            ),
        );
        p.push(Step::run(Cmd::new("which").arg("git"), "Unable to verify git installation."));
        proof {
            assert(p.deep_view() =~~= self.spec_install_plan(in_container));
        }
        p
    }
}

} // verus!
