//! The `kfp` command-line client dependency.

use vstd::prelude::*;

use crate::cmd::Cmd;
use crate::plan::{run_step, Step, StepView};
use crate::probe::{Probe, ProbeView};
use crate::services::model::{Ensurable, Nameable};

verus! {

/// The `kfp` pipelines client, installed through `pip3` and copied onto the
/// search path.
pub struct Kfp {}

impl Default for Kfp {
    /// A fresh capability; it carries no configuration.
    fn default() -> (d: Kfp)
        ensures
            d == (Kfp {  }),
    {
        Kfp {  }
    }
}

impl Nameable for Kfp {
    open spec fn spec_name(&self) -> Seq<char> {
        "kfp"@
    }

    fn name(&self) -> (n: &'static str) {
        "kfp"
    }
}

impl Ensurable for Kfp {
    open spec fn spec_probe(&self) -> ProbeView {
        ProbeView::Binary { name: "kfp"@ }
    }

    open spec fn spec_install_plan(&self, in_container: bool) -> Seq<StepView> {
        seq![
            run_step(
                "pip3"@,
                seq![
                    "install"@,
                    "urllib3==1.24.2"@,
                    "kfp"@,
                    "kfp-server-api"@,
                    "--upgrade"@,
                    "--user"@,
                ],
                "Unable to install kfp cli."@,
            ),
            run_step(
                "sh"@,
                seq!["-c"@, "cp $HOME/.local/bin/kfp /usr/local/bin/kfp"@],
                "Unable to copy the kfp binary."@,
            ),
            run_step(
                "sh"@,
                seq!["-c"@, "cp $HOME/.local/bin/dsl-compile /usr/local/bin/dsl-compile"@],
                "Unable to copy the dsl-compile binary."@,
            ),
            run_step("which"@, seq!["dsl-compile"@], "Unable to verify dsl-compile install."@),
            run_step("which"@, seq!["kfp"@], "Unable to verify kfp install."@),
        ]
    }

    fn probe(&self) -> (p: Probe) {
        Probe::Binary { name: "kfp".to_owned() }
    }

    fn install_plan(&self, in_container: bool) -> (p: Vec<Step>) {
        let mut p: Vec<Step> = Vec::new();
        p.push(
            Step::run(
                Cmd::new("pip3")
                    .arg("install")
                    .arg("urllib3==1.24.2")
                    .arg("kfp")
                    .arg("kfp-server-api")
                    .arg("--upgrade")
                    .arg("--user"),
                "Unable to install kfp cli.",
            ),
        );
        p.push(
            Step::run(
                Cmd::new("sh").arg("-c").arg("cp $HOME/.local/bin/kfp /usr/local/bin/kfp"),
                "Unable to copy the kfp binary.",
            ),
        );
        p.push(
            Step::run(
                Cmd::new("sh").arg("-c").arg(
                    "cp $HOME/.local/bin/dsl-compile /usr/local/bin/dsl-compile",
                ),
                "Unable to copy the dsl-compile binary.",
            ),
        );
        p.push(
            Step::run(Cmd::new("which").arg("dsl-compile"), "Unable to verify dsl-compile install."),
        );
        p.push(Step::run(Cmd::new("which").arg("kfp"), "Unable to verify kfp install."));
        proof {
            assert(p.deep_view() =~~= self.spec_install_plan(in_container));
        }
        p
    }
}

} // verus!
