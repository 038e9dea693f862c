//! The `docker` binary dependency.

use vstd::prelude::*;

use crate::cmd::Cmd;
use crate::plan::{best_effort_run_step, run_step, Step, StepView};
use crate::probe::{Probe, ProbeView};
use crate::services::model::{Ensurable, Nameable};

verus! {

/// The `docker` container runtime, installed through its upstream
/// convenience script.
pub struct Docker {}

impl Default for Docker {
    /// A fresh capability; it carries no configuration.
    fn default() -> (d: Docker)
        ensures
            d == (Docker {  }),
    {
        Docker {  }
    }
}

impl Nameable for Docker {
    open spec fn spec_name(&self) -> Seq<char> {
        "docker"@
    }

    fn name(&self) -> (n: &'static str) {
        "docker"
    }
}

impl Ensurable for Docker {
    open spec fn spec_probe(&self) -> ProbeView {
        ProbeView::Binary { name: "docker"@ }
    }

    open spec fn spec_install_plan(&self, in_container: bool) -> Seq<StepView> {
        seq![
            run_step(
                "curl"@,
                seq!["-fsSL"@, "https://get.docker.com"@, "-o"@, "get-docker.sh"@],
                "Unable to curl the docker convenience script."@,
            ),
            run_step(
                "sh"@,
                seq!["get-docker.sh"@],
                "Unable to run the docker install script (might need sudo)."@,
            ),
            // Group membership is best effort: inside a container there may
            // be no such user, and the install is still usable.
            best_effort_run_step("usermod"@, seq!["-aG"@, "docker"@, "$USER"@]),
            run_step(
                "rm"@,
                seq!["-f"@, "get-docker.sh"@],
                "Failed to delete the docker install script."@,
            ),
        ]
    }

    fn probe(&self) -> (p: Probe) {
        Probe::Binary { name: "docker".to_owned() }
    }

    fn install_plan(&self, in_container: bool) -> (p: Vec<Step>) {
        let mut p: Vec<Step> = Vec::new();
        p.push(
            Step::run(
                Cmd::new("curl").arg("-fsSL").arg("https://get.docker.com").arg("-o").arg(
                    "get-docker.sh",
                ),
                "Unable to curl the docker convenience script.",
            ),
        );
        p.push(
            Step::run(
                Cmd::new("sh").arg("get-docker.sh"),
                "Unable to run the docker install script (might need sudo).",
            ),
        );
        p.push(Step::run_best_effort(Cmd::new("usermod").arg("-aG").arg("docker").arg("$USER")));
        p.push(
            Step::run(
                Cmd::new("rm").arg("-f").arg("get-docker.sh"),
                "Failed to delete the docker install script.",
            ),
        );
        proof {
            assert(p.deep_view() =~~= self.spec_install_plan(in_container));
        }
        p
    }
}

} // verus!
