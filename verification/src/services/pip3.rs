//! The `pip3` binary dependency.

use vstd::prelude::*;

use crate::cmd::Cmd;
use crate::plan::{run_step, Step, StepView};
use crate::probe::{Probe, ProbeView};
use crate::services::model::{Ensurable, Nameable};

verus! {

/// The `pip3` command-line tool, installed through the system package
/// manager together with the language runtime it belongs to.
pub struct Pip3 {}

impl Default for Pip3 {
    /// A fresh capability; it carries no configuration.
    fn default() -> (d: Pip3)
        ensures
            d == (Pip3 {  }),
    {
        Pip3 {  }
    }
}

impl Nameable for Pip3 {
    open spec fn spec_name(&self) -> Seq<char> {
        "pip3"@
    }

    fn name(&self) -> (n: &'static str) {
        "pip3"
    }
}

impl Ensurable for Pip3 {
    open spec fn spec_probe(&self) -> ProbeView {
        ProbeView::Binary { name: "pip3"@ }
    }

    open spec fn spec_install_plan(&self, in_container: bool) -> Seq<StepView> {
        seq![
            run_step("apt-get"@, seq!["update"@], "Unable to update apt-get."@),
            run_step(
                "apt-get"@,
                seq!["-y"@, "install"@, "python3"@, "python3-pip"@],
                "Unable to install pip3 via apt-get.  You can install python3 and pip3 manually, and try again."@,
            ),
            run_step("pip3"@, seq!["--version"@], "Unable to verify pip3 installation."@),
        ]
    }

    fn probe(&self) -> (p: Probe) {
        Probe::Binary { name: "pip3".to_owned() }
    }

    fn install_plan(&self, in_container: bool) -> (p: Vec<Step>) {
        let mut p: Vec<Step> = Vec::new();
        p.push(Step::run(Cmd::new("apt-get").arg("update"), "Unable to update apt-get."));
        p.push(
            Step::run(
                Cmd::new("apt-get").arg("-y").arg("install").arg("python3").arg("python3-pip"),
                "Unable to install pip3 via apt-get.  You can install python3 and pip3 manually, and try again.",
            ),
        );
        p.push(Step::run(Cmd::new("pip3").arg("--version"), "Unable to verify pip3 installation."));
        proof {
            assert(p.deep_view() =~~= self.spec_install_plan(in_container));
        }
        p
    }
}

} // verus!
