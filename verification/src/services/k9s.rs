//! The `k9s` binary dependency.

use vstd::prelude::*;

use crate::cmd::Cmd;
use crate::plan::{run_step, Step, StepView};
use crate::probe::{Probe, ProbeView};
use crate::services::model::{Ensurable, Nameable};

verus! {

/// The `k9s` terminal user interface, fetched as a release tarball and
/// placed on the search path.
pub struct K9s {}

impl Default for K9s {
    /// A fresh capability; it carries no configuration.
    fn default() -> (d: K9s)
        ensures
            d == (K9s {  }),
    {
        K9s {  }
    }
}

impl Nameable for K9s {
    open spec fn spec_name(&self) -> Seq<char> {
        "k9s"@
    }

    fn name(&self) -> (n: &'static str) {
        "k9s"
    }
}

impl Ensurable for K9s {
    open spec fn spec_probe(&self) -> ProbeView {
        ProbeView::Binary { name: "k9s"@ }
    }

    open spec fn spec_install_plan(&self, in_container: bool) -> Seq<StepView> {
        seq![
            run_step(
                "curl"@,
                seq![
                    "-LO"@,
                    "https://github.com/derailed/k9s/releases/download/v0.22.1/k9s_Linux_x86_64.tar.gz"@,
                ],
                "Unable to curl the k9s tarball."@,
            ),
            run_step(
                "tar"@,
                seq!["-xvf"@, "./k9s_Linux_x86_64.tar.gz"@],
                "Unable to untar the k9s tarball."@,
            ),
            run_step(
                "rm"@,
                seq!["-f"@, "k9s_Linux_x86_64.tar.gz"@, "LICENSE"@, "README.md"@],
                "Unable to remove the k9s tarball."@,
            ),
            run_step(
                "chmod"@,
                seq!["+x"@, "./k9s"@],
                "Unable to change executable permissions on the k9s binary."@,
            ),
            run_step(
                "mv"@,
                seq!["./k9s"@, "/usr/local/bin/k9s"@],
                "Unable to copy the k9s binary (might need sudo)."@,
            ),
            run_step("k9s"@, seq!["version"@], "Unable to use k9s after supposed install."@),
        ]
    }

    fn probe(&self) -> (p: Probe) {
        Probe::Binary { name: "k9s".to_owned() }
    }

    fn install_plan(&self, in_container: bool) -> (p: Vec<Step>) {
        let mut p: Vec<Step> = Vec::new();
        p.push(
            Step::run(
                Cmd::new("curl").arg("-LO").arg(
                    "https://github.com/derailed/k9s/releases/download/v0.22.1/k9s_Linux_x86_64.tar.gz",
                ),
                "Unable to curl the k9s tarball.",
            ),
        );
        p.push(
            Step::run(
                Cmd::new("tar").arg("-xvf").arg("./k9s_Linux_x86_64.tar.gz"),
                "Unable to untar the k9s tarball.",
            ),
        );
        p.push(
            Step::run(
                Cmd::new("rm").arg("-f").arg("k9s_Linux_x86_64.tar.gz").arg("LICENSE").arg(
                    "README.md",
                ),
                "Unable to remove the k9s tarball.",
            ),
        );
        p.push(
            Step::run(
                Cmd::new("chmod").arg("+x").arg("./k9s"),
                "Unable to change executable permissions on the k9s binary.",
            ),
        );
        p.push(
            Step::run(
                Cmd::new("mv").arg("./k9s").arg("/usr/local/bin/k9s"),
                "Unable to copy the k9s binary (might need sudo).",
            ),
        );
        p.push(Step::run(Cmd::new("k9s").arg("version"), "Unable to use k9s after supposed install."));
        proof {
            assert(p.deep_view() =~~= self.spec_install_plan(in_container));
        }
        p
    }
}

} // verus!
