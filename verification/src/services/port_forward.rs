//! The port-forward tunnel: a foreground, blocking network relay.

use vstd::prelude::*;

use crate::cmd::Cmd;
use crate::plan::{run_step, Step, StepView};
use crate::probe::{Probe, ProbeView};
use crate::services::model::{Ensurable, Nameable};

verus! {

/// The cluster-internal endpoint of the pipelines-only user interface.
pub open spec fn kfp_ui_endpoint() -> Seq<char> {
    "svc/ml-pipeline-ui"@
}

/// The cluster-internal endpoint of the platform-wide ingress gateway.
pub open spec fn ingress_endpoint() -> Seq<char> {
    "svc/istio-ingressgateway"@
}

/// The foreground relay exposing a cluster-internal service on a local
/// address and port.  Its action blocks until the relay is terminated
/// externally; it has no removal action.
pub struct PortForward {
    pub kfp_only: bool,
    pub port: String,
    pub address: String,
}

impl Default for PortForward {
    /// A wholly unconfigured tunnel: both parameters still empty, targeting
    /// the platform-wide ingress endpoint.
    fn default() -> (d: PortForward)
        ensures
            d.kfp_only == false,
            d.port@ == Seq::<char>::empty(),
            d.address@ == Seq::<char>::empty(),
    {
        PortForward { kfp_only: false, port: String::new(), address: String::new() }
    }
}

impl PortForward {
    /// The same tunnel, targeting the single-service endpoint when `o` is
    /// true and the platform-wide ingress endpoint otherwise.
    pub fn with_kfp_only(self, o: bool) -> (r: Self)
        ensures
            r.kfp_only == o,
            r.port@ == self.port@,
            r.address@ == self.address@,
    {
        PortForward { kfp_only: o, ..self }
    }

    /// The same tunnel with the local port set.
    pub fn with_port(self, p: &str) -> (r: Self)
        ensures
            r.kfp_only == self.kfp_only,
            r.port@ == p@,
            r.address@ == self.address@,
    {
        PortForward { port: p.to_owned(), ..self }
    }

    /// The same tunnel with the local bind address set.
    pub fn with_address(self, a: &str) -> (r: Self)
        ensures
            r.kfp_only == self.kfp_only,
            r.port@ == self.port@,
            r.address@ == a@,
    {
        PortForward { address: a.to_owned(), ..self }
    }
}

impl Nameable for PortForward {
    open spec fn spec_name(&self) -> Seq<char> {
        "Port Forward"@
    }

    fn name(&self) -> (n: &'static str) {
        "Port Forward"
    }
}

impl Ensurable for PortForward {
    /// Presence is deliberately never detected: whether the local port is
    /// already bound is not checked.  A documented limitation, kept as it is.
    open spec fn spec_probe(&self) -> ProbeView {
        ProbeView::AlwaysAbsent
    }

    /// A single relay process, bound to the configured local address and
    /// port, targeting the endpoint selected by the narrow-service flag.
    open spec fn spec_install_plan(&self, in_container: bool) -> Seq<StepView> {
        seq![
            run_step(
                "kubectl"@,
                seq![
                    "port-forward"@,
                    "--address"@,
                    self.address@,
                    "-n"@,
                    if self.kfp_only {
                        "kubeflow"@
                    } else {
                        "istio-system"@
                    },
                    if self.kfp_only {
                        kfp_ui_endpoint()
                    } else {
                        ingress_endpoint()
                    },
                    self.port@ + ":80"@,
                ],
                "Unable to start the port-forward."@,
            ),
        ]
    }

    fn probe(&self) -> (p: Probe) {
        Probe::AlwaysAbsent
    }

    fn install_plan(&self, in_container: bool) -> (p: Vec<Step>) {
        let binding = self.port.clone().concat(":80");
        let cmd = if self.kfp_only {
            Cmd::new("kubectl")
                .arg("port-forward")
                .arg("--address")
                .arg(self.address.as_str())
                .arg("-n")
                .arg("kubeflow")
                .arg("svc/ml-pipeline-ui")
                .arg_string(binding)
        } else {
            Cmd::new("kubectl")
                .arg("port-forward")
                .arg("--address")
                .arg(self.address.as_str())
                .arg("-n")
                .arg("istio-system")
                .arg("svc/istio-ingressgateway")
                .arg_string(binding)
        };
        let mut p: Vec<Step> = Vec::new();
        p.push(Step::run(cmd, "Unable to start the port-forward."));
        proof {
            assert(p.deep_view() =~~= self.spec_install_plan(in_container));
        }
        p
    }
}

} // verus!
