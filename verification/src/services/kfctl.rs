//! The `kfctl` binary dependency.

use vstd::prelude::*;

use crate::cmd::Cmd;
use crate::plan::{run_step, Step, StepView};
use crate::probe::{Probe, ProbeView};
use crate::services::model::{Ensurable, Nameable};

verus! {

/// The `kfctl` deployment tool, fetched as a release tarball and placed on
/// the search path.
pub struct Kfctl {}

impl Default for Kfctl {
    /// A fresh capability; it carries no configuration.
    fn default() -> (d: Kfctl)
        ensures
            d == (Kfctl {  }),
    {
        Kfctl {  }
    }
}

impl Nameable for Kfctl {
    open spec fn spec_name(&self) -> Seq<char> {
        "kfctl"@
    }

    fn name(&self) -> (n: &'static str) {
        "kfctl"
    }
}

impl Ensurable for Kfctl {
    open spec fn spec_probe(&self) -> ProbeView {
        ProbeView::Binary { name: "kfctl"@ }
    }

    open spec fn spec_install_plan(&self, in_container: bool) -> Seq<StepView> {
        seq![
            run_step(
                "curl"@,
                seq![
                    "-LO"@,
                    "https://github.com/kubeflow/kfctl/releases/download/v1.1.0/kfctl_v1.1.0-0-g9a3621e_linux.tar.gz"@,
                ],
                "Unable to curl the kfctl tarball."@,
            ),
            run_step(
                "tar"@,
                seq!["-xvf"@, "./kfctl_v1.1.0-0-g9a3621e_linux.tar.gz"@],
                "Unable to untar the kfctl tarball."@,
            ),
            run_step(
                "rm"@,
                seq!["-f"@, "./kfctl_v1.1.0-0-g9a3621e_linux.tar.gz"@],
                "Unable to remove the kfctl tarball."@,
            ),
            run_step(
                "chmod"@,
                seq!["+x"@, "./kfctl"@],
                "Unable to change executable permissions on the kfctl binary."@,
            ),
            run_step(
                "mv"@,
                seq!["./kfctl"@, "/usr/local/bin/kfctl"@],
                "Unable to copy the kfctl binary (might need sudo)."@,
            ),
            run_step("kfctl"@, seq!["version"@], "Unable to use kfctl after supposed install."@),
        ]
    }

    fn probe(&self) -> (p: Probe) {
        Probe::Binary { name: "kfctl".to_owned() }
    }

    fn install_plan(&self, in_container: bool) -> (p: Vec<Step>) {
        let mut p: Vec<Step> = Vec::new();
        p.push(
            Step::run(
                Cmd::new("curl").arg("-LO").arg(
                    "https://github.com/kubeflow/kfctl/releases/download/v1.1.0/kfctl_v1.1.0-0-g9a3621e_linux.tar.gz",
                ),
                "Unable to curl the kfctl tarball.",
            ),
        );
        p.push(
            Step::run(
                Cmd::new("tar").arg("-xvf").arg("./kfctl_v1.1.0-0-g9a3621e_linux.tar.gz"),
                "Unable to untar the kfctl tarball.",
            ),
        );
        p.push(
            Step::run(
                Cmd::new("rm").arg("-f").arg("./kfctl_v1.1.0-0-g9a3621e_linux.tar.gz"),
                "Unable to remove the kfctl tarball.",
            ),
        );
        p.push(
            Step::run(
                Cmd::new("chmod").arg("+x").arg("./kfctl"),
                "Unable to change executable permissions on the kfctl binary.",
            ),
        );
        p.push(
            Step::run(
                Cmd::new("mv").arg("./kfctl").arg("/usr/local/bin/kfctl"),
                "Unable to copy the kfctl binary (might need sudo).",
            ),
        );
        p.push(
            Step::run(Cmd::new("kfctl").arg("version"), "Unable to use kfctl after supposed install."),
        );
        proof {
            assert(p.deep_view() =~~= self.spec_install_plan(in_container));
        }
        p
    }
}

} // verus!
