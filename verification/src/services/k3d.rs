//! The `k3d` binary dependency.

use vstd::prelude::*;

use crate::cmd::Cmd;
use crate::plan::{run_step, Step, StepView};
use crate::probe::{Probe, ProbeView};
use crate::services::model::{Ensurable, Nameable};

verus! {

/// The `k3d` cluster tool, installed through its upstream convenience
/// script.
pub struct K3d {}

impl Default for K3d {
    /// A fresh capability; it carries no configuration.
    fn default() -> (d: K3d)
        ensures
            d == (K3d {  }),
    {
        K3d {  }
    }
}

impl Nameable for K3d {
    open spec fn spec_name(&self) -> Seq<char> {
        "k3d"@
    }

    fn name(&self) -> (n: &'static str) {
        "k3d"
    }
}

impl Ensurable for K3d {
    open spec fn spec_probe(&self) -> ProbeView {
        ProbeView::Binary { name: "k3d"@ }
    }

    open spec fn spec_install_plan(&self, in_container: bool) -> Seq<StepView> {
        seq![
            run_step(
                "curl"@,
                seq![
                    "-fsSL"@,
                    "https://raw.githubusercontent.com/rancher/k3d/main/install.sh"@,
                    "-o"@,
                    "k3d-install.sh"@,
                ],
                "Unable to curl the k3d convenience script."@,
            ),
            run_step("bash"@, seq!["k3d-install.sh"@], "Failed to run the k3d install script."@),
            run_step(
                "rm"@,
                seq!["-f"@, "k3d-install.sh"@],
                "Failed to delete the k3d install script."@,
            ),
        ]
    }

    fn probe(&self) -> (p: Probe) {
        Probe::Binary { name: "k3d".to_owned() }
    }

    fn install_plan(&self, in_container: bool) -> (p: Vec<Step>) {
        let mut p: Vec<Step> = Vec::new();
        p.push(
            Step::run(
                Cmd::new("curl")
                    .arg("-fsSL")
                    .arg("https://raw.githubusercontent.com/rancher/k3d/main/install.sh")
                    .arg("-o")
                    .arg("k3d-install.sh"),
                "Unable to curl the k3d convenience script.",
            ),
        );
        p.push(
            Step::run(Cmd::new("bash").arg("k3d-install.sh"), "Failed to run the k3d install script."),
        );
        p.push(
            Step::run(
                Cmd::new("rm").arg("-f").arg("k3d-install.sh"),
                "Failed to delete the k3d install script.",
            ),
        );
        proof {
            assert(p.deep_view() =~~= self.spec_install_plan(in_container));
        }
        p
    }
}

} // verus!
