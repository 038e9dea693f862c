//! The `curl` binary dependency.

use vstd::prelude::*;

use crate::cmd::Cmd;
use crate::plan::{run_step, Step, StepView};
use crate::probe::{Probe, ProbeView};
use crate::services::model::{Ensurable, Nameable};

verus! {

/// The `curl` command-line tool, installed through the system package
/// manager.
pub struct Curl {}

impl Default for Curl {
    /// A fresh capability; it carries no configuration.
    fn default() -> (d: Curl)
        ensures
            d == (Curl {  }),
    {
        Curl {  }
    }
}

impl Nameable for Curl {
    open spec fn spec_name(&self) -> Seq<char> {
        "curl"@
    }

    fn name(&self) -> (n: &'static str) {
        "curl"
    }
}

impl Ensurable for Curl {
    open spec fn spec_probe(&self) -> ProbeView {
        ProbeView::Binary { name: "curl"@ }
    }

    open spec fn spec_install_plan(&self, in_container: bool) -> Seq<StepView> {
        seq![
            run_step("apt-get"@, seq!["update"@], "Unable to update apt-get."@),
            run_step(
                "apt-get"@,
                seq!["-y"@, "install"@, "curl"@],
                "Unable to install curl via apt-get.  You can install curl manually, and try `kfpl init` again."@,
            ),
            run_step("which"@, seq!["curl"@], "Unable to verify curl installation."@),
        ]
    }

    fn probe(&self) -> (p: Probe) {
        Probe::Binary { name: "curl".to_owned() }
    }

    fn install_plan(&self, in_container: bool) -> (p: Vec<Step>) {
        let mut p: Vec<Step> = Vec::new();
        p.push(Step::run(Cmd::new("apt-get").arg("update"), "Unable to update apt-get."));
        p.push(
            Step::run(
                Cmd::new("apt-get").arg("-y").arg("install").arg("curl"),
                "Unable to install curl via apt-get.  You can install curl manually, and try `kfpl init` again.",
            ),
        );
        p.push(Step::run(Cmd::new("which").arg("curl"), "Unable to verify curl installation."));
        proof {
            assert(p.deep_view() =~~= self.spec_install_plan(in_container));
        }
        p
    }
}

} // verus!
