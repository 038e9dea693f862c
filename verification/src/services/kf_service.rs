//! The full-platform service lifecycle.

use vstd::prelude::*;

use crate::cmd::{Cmd, CmdView};
use crate::plan::{run_step, Step, StepView};
use crate::probe::{Probe, ProbeView};
use crate::services::model::{Ensurable, Nameable};

verus! {

/// The temporary working directory staged for the platform's apply tool.
pub open spec fn kf_temp_folder() -> Seq<char> {
    "kftemp409231"@
}

/// The full platform service: one remote manifest bundle applied through the
/// platform's own tool from a temporary working directory.
pub struct KfService {}

impl Default for KfService {
    /// A fresh capability; it carries no configuration.
    fn default() -> (d: KfService)
        ensures
            d == (KfService {  }),
    {
        KfService {  }
    }
}

impl Nameable for KfService {
    open spec fn spec_name(&self) -> Seq<char> {
        "KF Service"@
    }

    fn name(&self) -> (n: &'static str) {
        "KF Service"
    }
}

impl Ensurable for KfService {
    /// The probe scans the full pod listing, across all namespaces, for the
    /// primary workload's name.
    open spec fn spec_probe(&self) -> ProbeView {
        ProbeView::CmdContains {
            cmd: CmdView {
                program: "kubectl"@,
                args: seq!["get"@, "pods"@, "--all-namespaces"@],
            },
            needle: "ml-pipeline"@,
        }
    }

    /// Ordered bring-up: stage a temporary directory, apply the remote
    /// manifest bundle from it, wait for the primary workload deployment,
    /// remove the temporary directory — deliberately before the closing
    /// presence re-check — and then re-check presence.
    open spec fn spec_install_plan(&self, in_container: bool) -> Seq<StepView> {
        seq![
            run_step(
                "mkdir"@,
                seq!["-p"@, kf_temp_folder()],
                "Unable to create a KubeFlow temp directory."@,
            ),
            run_step(
                "sh"@,
                seq![
                    "-c"@,
                    "cd kftemp409231; kfctl apply -V -f https://raw.githubusercontent.com/kubeflow/manifests/v1.1-branch/kfdef/kfctl_k8s_istio.v1.1.0.yaml"@,
                ],
                "Unable to apply the KF kustomize script."@,
            ),
            StepView::Settle { seconds: 10 },
            run_step(
                "kubectl"@,
                seq![
                    "wait"@,
                    "--for=condition=available"@,
                    "--timeout=600s"@,
                    "deploy/ml-pipeline"@,
                    "-n"@,
                    "kubeflow"@,
                ],
                "Unable to wait for the ml-pipeline deployment to come up."@,
            ),
            run_step(
                "rm"@,
                seq!["-rf"@, kf_temp_folder()],
                "Unable to remove the KF temp directory."@,
            ),
            StepView::VerifyPresent {
                context: "Unable to verify that the kf service is running."@,
            },
        ]
    }

    fn probe(&self) -> (p: Probe) {
        let p = Probe::CmdContains {
            cmd: Cmd::new("kubectl").arg("get").arg("pods").arg("--all-namespaces"),
            needle: "ml-pipeline".to_owned(),
        };
        proof {
            assert(p@ =~~= self.spec_probe());
        }
        p
    }

    fn install_plan(&self, in_container: bool) -> (p: Vec<Step>) {
        let mut p: Vec<Step> = Vec::new();
        p.push(
            Step::run(
                Cmd::new("mkdir").arg("-p").arg("kftemp409231"),
                "Unable to create a KubeFlow temp directory.",
            ),
        );
        p.push(
            Step::run(
                Cmd::new("sh").arg("-c").arg(
                    "cd kftemp409231; kfctl apply -V -f https://raw.githubusercontent.com/kubeflow/manifests/v1.1-branch/kfdef/kfctl_k8s_istio.v1.1.0.yaml",
                ),
                "Unable to apply the KF kustomize script.",
            ),
        );
        p.push(Step::settle(10));
        p.push(
            Step::run(
                Cmd::new("kubectl")
                    .arg("wait")
                    .arg("--for=condition=available")
                    .arg("--timeout=600s")
                    .arg("deploy/ml-pipeline")
                    .arg("-n")
                    .arg("kubeflow"),
                "Unable to wait for the ml-pipeline deployment to come up.",
            ),
        );
        p.push(
            Step::run(
                Cmd::new("rm").arg("-rf").arg("kftemp409231"),
                "Unable to remove the KF temp directory.",
            ),
        );
        p.push(Step::verify_present("Unable to verify that the kf service is running."));
        proof {
            assert(p.deep_view() =~~= self.spec_install_plan(in_container));
        }
        p
    }
}

} // verus!
