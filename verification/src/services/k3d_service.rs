//! The local cluster lifecycle: create, patch, readiness-wait, delete.

use vstd::prelude::*;

use crate::cmd::{Cmd, CmdView};
use crate::plan::{run_step, Step, StepView};
use crate::probe::{Probe, ProbeView};
use crate::services::model::{Ensurable, Nameable, Removable};
use crate::text::replace_all;

verus! {

/// The literal wildcard bind address that the generated client configuration
/// carries after cluster creation.
pub open spec fn wildcard_address() -> Seq<char> {
    "0.0.0.0"@
}

/// The host-reachable alias that replaces the wildcard address when the
/// orchestrating process itself runs inside a container.
pub open spec fn host_alias() -> Seq<char> {
    "host.docker.internal"@
}

/// The conventional path of the generated client configuration.
pub open spec fn kubeconfig_path() -> Seq<char> {
    "/root/.kube/config"@
}

/// The generated client configuration, patched for container-to-host access:
/// every occurrence of the wildcard bind address becomes the host alias.
pub fn patch_kubeconfig(text: &str) -> (r: String)
    ensures
        r@ == replace_all(text@, wildcard_address(), host_alias()),
{
    proof {
        reveal_strlit("0.0.0.0");
    }
    crate::text::replace_all_str(text, "0.0.0.0", "host.docker.internal")
}

/// The local multi-node cluster, managed through the cluster tool and probed
/// through the container runtime's process listing.
pub struct K3dService {
    pub k3d_cluster_name: String,
    pub k3d_image: String,
    pub k3d_api_address: String,
    pub k3d_api_port: String,
}

impl Default for K3dService {
    /// A wholly unconfigured lifecycle: every parameter still empty.
    fn default() -> (d: K3dService)
        ensures
            d.k3d_cluster_name@ == Seq::<char>::empty(),
            d.k3d_image@ == Seq::<char>::empty(),
            d.k3d_api_address@ == Seq::<char>::empty(),
            d.k3d_api_port@ == Seq::<char>::empty(),
    {
        K3dService {
            k3d_cluster_name: String::new(),
            k3d_image: String::new(),
            k3d_api_address: String::new(),
            k3d_api_port: String::new(),
        }
    }
}

impl K3dService {
    /// The same lifecycle with the cluster identifier set.
    pub fn with_k3d_cluster_name(self, n: &str) -> (r: Self)
        ensures
            r.k3d_cluster_name@ == n@,
            r.k3d_image@ == self.k3d_image@,
            r.k3d_api_address@ == self.k3d_api_address@,
            r.k3d_api_port@ == self.k3d_api_port@,
    {
        K3dService { k3d_cluster_name: n.to_owned(), ..self }
    }

    /// The same lifecycle with the base image reference set.
    pub fn with_k3d_image(self, i: &str) -> (r: Self)
        ensures
            r.k3d_cluster_name@ == self.k3d_cluster_name@,
            r.k3d_image@ == i@,
            r.k3d_api_address@ == self.k3d_api_address@,
            r.k3d_api_port@ == self.k3d_api_port@,
    {
        K3dService { k3d_image: i.to_owned(), ..self }
    }

    /// The same lifecycle with the API bind port set.
    pub fn with_k3d_api_port(self, p: &str) -> (r: Self)
        ensures
            r.k3d_cluster_name@ == self.k3d_cluster_name@,
            r.k3d_image@ == self.k3d_image@,
            r.k3d_api_address@ == self.k3d_api_address@,
            r.k3d_api_port@ == p@,
    {
        K3dService { k3d_api_port: p.to_owned(), ..self }
    }

    /// The same lifecycle with the API bind address set.
    pub fn with_k3d_api_address(self, a: &str) -> (r: Self)
        ensures
            r.k3d_cluster_name@ == self.k3d_cluster_name@,
            r.k3d_image@ == self.k3d_image@,
            r.k3d_api_address@ == a@,
            r.k3d_api_port@ == self.k3d_api_port@,
    {
        K3dService { k3d_api_address: a.to_owned(), ..self }
    }
}

impl Nameable for K3dService {
    open spec fn spec_name(&self) -> Seq<char> {
        "k3d cluster"@
    }

    fn name(&self) -> (n: &'static str) {
        "k3d cluster"
    }
}

impl Ensurable for K3dService {
    /// The probe lists running containers filtered by the cluster identifier
    /// and scans the listing for that identifier.  This is a textual match:
    /// an identifier that is a prefix of another running cluster's identifier
    /// also matches — a documented limitation, kept as it is.
    open spec fn spec_probe(&self) -> ProbeView {
        ProbeView::CmdContains {
            cmd: CmdView {
                program: "docker"@,
                args: seq!["ps"@, "--filter"@, "name="@ + self.k3d_cluster_name@],
            },
            needle: self.k3d_cluster_name@,
        }
    }

    /// Ordered bring-up: create the cluster, give the generated client
    /// configuration time to appear, patch it when running inside a
    /// container, wait for the bundled ingress controller's installation job
    /// and deployment, and re-check presence.
    open spec fn spec_install_plan(&self, in_container: bool) -> Seq<StepView> {
        seq![
            run_step(
                "k3d"@,
                seq![
                    "cluster"@,
                    "create"@,
                    self.k3d_cluster_name@,
                    "--image"@,
                    self.k3d_image@,
                    "--api-port"@,
                    self.k3d_api_address@ + ":"@ + self.k3d_api_port@,
                ],
                "Unable to start the k3d k8s cluster."@,
            ),
            StepView::Settle { seconds: 10 },
        ] + (if in_container {
            seq![
                StepView::Patch {
                    path: kubeconfig_path(),
                    context: "Unable to overwrite the kubeconfig."@,
                },
            ]
        } else {
            Seq::<StepView>::empty()
        }) + seq![
            run_step(
                "kubectl"@,
                seq![
                    "wait"@,
                    "--for=condition=complete"@,
                    "--timeout=600s"@,
                    "job/helm-install-traefik"@,
                    "-n"@,
                    "kube-system"@,
                ],
                "Unable to wait for the traefik deployment to complete."@,
            ),
            run_step(
                "kubectl"@,
                seq![
                    "wait"@,
                    "--for=condition=available"@,
                    "--timeout=600s"@,
                    "deploy/traefik"@,
                    "-n"@,
                    "kube-system"@,
                ],
                "Unable to wait for the traefik deployment to come up."@,
            ),
            StepView::VerifyPresent {
                context: "Unable to verify that the k3d cluster is running."@,
            },
        ]
    }

    fn probe(&self) -> (p: Probe) {
        let filter = "name=".to_owned().concat(self.k3d_cluster_name.as_str());
        let p = Probe::CmdContains {
            cmd: Cmd::new("docker").arg("ps").arg("--filter").arg_string(filter),
            needle: self.k3d_cluster_name.clone(),
        };
        proof {
            assert(p@ =~~= self.spec_probe());
        }
        p
    }

    fn install_plan(&self, in_container: bool) -> (p: Vec<Step>) {
        let api_port = self.k3d_api_address.clone().concat(":").concat(self.k3d_api_port.as_str());
        let mut p: Vec<Step> = Vec::new();
        p.push(
            Step::run(
                Cmd::new("k3d")
                    .arg("cluster")
                    .arg("create")
                    .arg(self.k3d_cluster_name.as_str())
                    .arg("--image")
                    .arg(self.k3d_image.as_str())
                    .arg("--api-port")
                    .arg_string(api_port),
                "Unable to start the k3d k8s cluster.",
            ),
        );
        p.push(Step::settle(10));
        if in_container {
            p.push(Step::patch("/root/.kube/config", "Unable to overwrite the kubeconfig."));
        }
        p.push(
            Step::run(
                Cmd::new("kubectl")
                    .arg("wait")
                    .arg("--for=condition=complete")
                    .arg("--timeout=600s")
                    .arg("job/helm-install-traefik")
                    .arg("-n")
                    .arg("kube-system"),
                "Unable to wait for the traefik deployment to complete.",
            ),
        );
        p.push(
            Step::run(
                Cmd::new("kubectl")
                    .arg("wait")
                    .arg("--for=condition=available")
                    .arg("--timeout=600s")
                    .arg("deploy/traefik")
                    .arg("-n")
                    .arg("kube-system"),
                "Unable to wait for the traefik deployment to come up.",
            ),
        );
        p.push(Step::verify_present("Unable to verify that the k3d cluster is running."));
        proof {
            assert(p.deep_view() =~~= self.spec_install_plan(in_container));
        }
        p
    }
}

impl Removable for K3dService {
    /// Teardown is a single step: delete the cluster by identifier.
    open spec fn spec_removal_plan(&self) -> Seq<StepView> {
        seq![
            run_step(
                "k3d"@,
                seq!["cluster"@, "delete"@, self.k3d_cluster_name@],
                "Unable to stop the k3d k8s cluster."@,
            ),
        ]
    }

    fn removal_plan(&self) -> (p: Vec<Step>) {
        let mut p: Vec<Step> = Vec::new();
        p.push(
            Step::run(
                Cmd::new("k3d").arg("cluster").arg("delete").arg(self.k3d_cluster_name.as_str()),
                "Unable to stop the k3d k8s cluster.",
            ),
        );
        proof {
            assert(p.deep_view() =~~= self.spec_removal_plan());
        }
        p
    }
}

} // verus!
