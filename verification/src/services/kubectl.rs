//! The `kubectl` binary dependency.

use vstd::prelude::*;

use crate::cmd::Cmd;
use crate::plan::{run_step, Step, StepView};
use crate::probe::{Probe, ProbeView};
use crate::services::model::{Ensurable, Nameable};

verus! {

/// The `kubectl` command-line tool, fetched as a release binary and placed
/// on the search path.
pub struct Kubectl {}

impl Default for Kubectl {
    /// A fresh capability; it carries no configuration.
    fn default() -> (d: Kubectl)
        ensures
            d == (Kubectl {  }),
    {
        Kubectl {  }
    }
}

impl Nameable for Kubectl {
    open spec fn spec_name(&self) -> Seq<char> {
        "kubectl"@
    }

    fn name(&self) -> (n: &'static str) {
        "kubectl"
    }
}

impl Ensurable for Kubectl {
    open spec fn spec_probe(&self) -> ProbeView {
        ProbeView::Binary { name: "kubectl"@ }
    }

    open spec fn spec_install_plan(&self, in_container: bool) -> Seq<StepView> {
        seq![
            run_step(
                "curl"@,
                seq![
                    "-LO"@,
                    "https://storage.googleapis.com/kubernetes-release/release/v1.19.2/bin/linux/amd64/kubectl"@,
                ],
                "Unable to curl the kubectl binary."@,
            ),
            run_step(
                "chmod"@,
                seq!["+x"@, "./kubectl"@],
                "Unable to change executable permissions on the kubectl binary."@,
            ),
            run_step(
                "mv"@,
                seq!["./kubectl"@, "/usr/local/bin/kubectl"@],
                "Unable to copy the kubectl binary (might need sudo)."@,
            ),
            run_step(
                "kubectl"@,
                seq!["version"@, "--client"@],
                "Unable to use kubectl after supposed install."@,
            ),
        ]
    }

    fn probe(&self) -> (p: Probe) {
        Probe::Binary { name: "kubectl".to_owned() }
    }

    fn install_plan(&self, in_container: bool) -> (p: Vec<Step>) {
        let mut p: Vec<Step> = Vec::new();
        p.push(
            Step::run(
                Cmd::new("curl").arg("-LO").arg(
                    "https://storage.googleapis.com/kubernetes-release/release/v1.19.2/bin/linux/amd64/kubectl",
                ),
                "Unable to curl the kubectl binary.",
            ),
        );
        p.push(
            Step::run(
                Cmd::new("chmod").arg("+x").arg("./kubectl"),
                "Unable to change executable permissions on the kubectl binary.",
            ),
        );
        p.push(
            Step::run(
                Cmd::new("mv").arg("./kubectl").arg("/usr/local/bin/kubectl"),
                "Unable to copy the kubectl binary (might need sudo).",
            ),
        );
        p.push(
            Step::run(
                Cmd::new("kubectl").arg("version").arg("--client"),
                "Unable to use kubectl after supposed install.",
            ),
        );
        proof {
            assert(p.deep_view() =~~= self.spec_install_plan(in_container));
        }
        p
    }
}

} // verus!
