//! The narrow pipelines-only service lifecycle.

use vstd::prelude::*;

use crate::cmd::{Cmd, CmdView};
use crate::plan::{run_step, Step, StepView};
use crate::probe::{Probe, ProbeView};
use crate::services::model::{Ensurable, Nameable};

verus! {

/// The workload-name marker scanned for in the pod listing.
pub open spec fn kfp_workload_marker() -> Seq<char> {
    "ml-pipeline"@
}

/// The manifest reference for the cluster-scoped resources, before the
/// version suffix.
pub open spec fn kfp_cluster_scoped_base() -> Seq<char> {
    "github.com/kubeflow/pipelines/manifests/kustomize/cluster-scoped-resources?ref="@
}

/// The manifest reference for the platform-agnostic environment overlay,
/// before the version suffix.
pub open spec fn kfp_platform_agnostic_base() -> Seq<char> {
    "github.com/kubeflow/pipelines/manifests/kustomize/env/platform-agnostic-pns?ref="@
}

/// The pipelines-only service: two manifest overlays applied in sequence,
/// gated by a custom-resource-definition readiness wait.
pub struct KfpService {
    pub kfp_version: String,
}

impl Default for KfpService {
    /// A wholly unconfigured lifecycle: the target version still empty.
    fn default() -> (d: KfpService)
        ensures
            d.kfp_version@ == Seq::<char>::empty(),
    {
        KfpService { kfp_version: String::new() }
    }
}

impl KfpService {
    /// The same lifecycle with the target version set.
    pub fn with_kfp_version(self, n: &str) -> (r: Self)
        ensures
            r.kfp_version@ == n@,
    {
        KfpService { kfp_version: n.to_owned() }
    }
}

impl Nameable for KfpService {
    open spec fn spec_name(&self) -> Seq<char> {
        "KFP Service"@
    }

    fn name(&self) -> (n: &'static str) {
        "KFP Service"
    }
}

impl Ensurable for KfpService {
    /// The probe scans the full pod listing, across all namespaces, for the
    /// primary workload's name.
    open spec fn spec_probe(&self) -> ProbeView {
        ProbeView::CmdContains {
            cmd: CmdView {
                program: "kubectl"@,
                args: seq!["get"@, "pods"@, "--all-namespaces"@],
            },
            needle: kfp_workload_marker(),
        }
    }

    /// Ordered bring-up: apply the cluster-scoped resources, wait for the
    /// application custom-resource-definition to be established, only then
    /// apply the platform-agnostic overlay, wait for the primary workload
    /// deployment, and re-check presence.  Both manifest references carry
    /// the configured version as their `ref=` suffix.
    open spec fn spec_install_plan(&self, in_container: bool) -> Seq<StepView> {
        seq![
            run_step(
                "kubectl"@,
                seq!["apply"@, "-k"@, kfp_cluster_scoped_base() + self.kfp_version@],
                "Unable to apply the KFP cluster scoped resources."@,
            ),
            run_step(
                "kubectl"@,
                seq![
                    "wait"@,
                    "--for"@,
                    "condition=established"@,
                    "--timeout=60s"@,
                    "crd/applications.app.k8s.io"@,
                ],
                "Unable to wait for KFP CRD deployment."@,
            ),
            run_step(
                "kubectl"@,
                seq!["apply"@, "-k"@, kfp_platform_agnostic_base() + self.kfp_version@],
                "Unable to apply the KFP platform agnostic deployment."@,
            ),
            StepView::Settle { seconds: 10 },
            run_step(
                "kubectl"@,
                seq![
                    "wait"@,
                    "--for=condition=available"@,
                    "--timeout=600s"@,
                    "deploy/ml-pipeline"@,
                    "-n"@,
                    "kubeflow"@,
                ],
                "Unable to wait for the ml-pipeline deployment to come up."@,
            ),
            StepView::VerifyPresent {
                context: "Unable to verify that the kfp service is running."@,
            },
        ]
    }

    fn probe(&self) -> (p: Probe) {
        let p = Probe::CmdContains {
            cmd: Cmd::new("kubectl").arg("get").arg("pods").arg("--all-namespaces"),
            needle: "ml-pipeline".to_owned(),
        };
        proof {
            assert(p@ =~~= self.spec_probe());
        }
        p
    }

    fn install_plan(&self, in_container: bool) -> (p: Vec<Step>) {
        let cluster_scoped = "github.com/kubeflow/pipelines/manifests/kustomize/cluster-scoped-resources?ref="
            .to_owned().concat(self.kfp_version.as_str());
        let platform_agnostic = "github.com/kubeflow/pipelines/manifests/kustomize/env/platform-agnostic-pns?ref="
            .to_owned().concat(self.kfp_version.as_str());
        let mut p: Vec<Step> = Vec::new();
        p.push(
            Step::run(
                Cmd::new("kubectl").arg("apply").arg("-k").arg_string(cluster_scoped),
                "Unable to apply the KFP cluster scoped resources.",
            ),
        );
        p.push(
            Step::run(
                Cmd::new("kubectl")
                    .arg("wait")
                    .arg("--for")
                    .arg("condition=established")
                    .arg("--timeout=60s")
                    .arg("crd/applications.app.k8s.io"),
                "Unable to wait for KFP CRD deployment.",
            ),
        );
        p.push(
            Step::run(
                Cmd::new("kubectl").arg("apply").arg("-k").arg_string(platform_agnostic),
                "Unable to apply the KFP platform agnostic deployment.",
            ),
        );
        p.push(Step::settle(10));
        p.push(
            Step::run(
                Cmd::new("kubectl")
                    .arg("wait")
                    .arg("--for=condition=available")
                    .arg("--timeout=600s")
                    .arg("deploy/ml-pipeline")
                    .arg("-n")
                    .arg("kubeflow"),
                "Unable to wait for the ml-pipeline deployment to come up.",
            ),
        );
        p.push(Step::verify_present("Unable to verify that the kfp service is running."));
        proof {
            assert(p.deep_view() =~~= self.spec_install_plan(in_container));
        }
        p
    }
}

} // verus!
