// The concrete capabilities: configured argument sequences, probes and
// plan shapes.

use kfpl::cmd::Cmd;
use kfpl::plan::Step;
use kfpl::probe::Probe;
use kfpl::services::k3d_service::{patch_kubeconfig, K3dService};
use kfpl::services::kfp_service::KfpService;
use kfpl::services::model::{Ensurable, Nameable, Removable};
use kfpl::services::port_forward::PortForward;

fn run_cmd(step: &Step) -> &Cmd {
    match step {
        Step::Run { cmd, .. } => cmd,
        _ => panic!("expected a command step"),
    }
}

fn configured_cluster() -> K3dService {
    K3dService::default()
        .with_k3d_cluster_name("kfp-local")
        .with_k3d_image("rancher/k3s:v1.19.2-k3s1")
        .with_k3d_api_address("0.0.0.0")
        .with_k3d_api_port("6443")
}

#[test]
fn cluster_create_carries_the_configured_values() {
    let plan = configured_cluster().install_plan(false);
    let create = run_cmd(&plan[0]);
    assert_eq!(create.program, "k3d");
    assert_eq!(
        create.args,
        vec![
            "cluster",
            "create",
            "kfp-local",
            "--image",
            "rancher/k3s:v1.19.2-k3s1",
            "--api-port",
            "0.0.0.0:6443",
        ]
    );
}

#[test]
fn cluster_probe_filters_by_the_configured_identifier() {
    let probe = configured_cluster().probe();
    match &probe {
        Probe::CmdContains { cmd, needle } => {
            assert_eq!(cmd.program, "docker");
            assert_eq!(cmd.args, vec!["ps", "--filter", "name=kfp-local"]);
            assert_eq!(needle.as_str(), "kfp-local");
        }
        _ => panic!("expected a listing probe"),
    }
    let command = probe.command().unwrap();
    assert_eq!(command.program, "docker");
    assert_eq!(command.args, vec!["ps", "--filter", "name=kfp-local"]);
}

#[test]
fn cluster_teardown_deletes_by_identifier() {
    let plan = configured_cluster().removal_plan();
    assert_eq!(plan.len(), 1);
    let delete = run_cmd(&plan[0]);
    assert_eq!(delete.program, "k3d");
    assert_eq!(delete.args, vec!["cluster", "delete", "kfp-local"]);
}

#[test]
fn cluster_plan_patches_the_kubeconfig_only_inside_a_container() {
    let inside = configured_cluster().install_plan(true);
    match &inside[2] {
        Step::Patch { path, .. } => assert_eq!(path.as_str(), "/root/.kube/config"),
        _ => panic!("expected the patch step right after the settle pause"),
    }
    let outside = configured_cluster().install_plan(false);
    assert_eq!(outside.len(), inside.len() - 1);
    for step in &outside {
        assert!(!matches!(step, Step::Patch { .. }));
    }
}

#[test]
fn patching_replaces_every_wildcard_address() {
    let config = "server: https://0.0.0.0:6443\ncluster: 0.0.0.0\n";
    assert_eq!(
        patch_kubeconfig(config),
        "server: https://host.docker.internal:6443\ncluster: host.docker.internal\n"
    );
}

#[test]
fn patching_leaves_other_text_alone() {
    assert_eq!(patch_kubeconfig("server: 127.0.0.1"), "server: 127.0.0.1");
    assert_eq!(patch_kubeconfig(""), "");
}

#[test]
fn patching_replaces_adjacent_occurrences() {
    assert_eq!(
        patch_kubeconfig("0.0.0.00.0.0.0"),
        "host.docker.internalhost.docker.internal"
    );
}

#[test]
fn kfp_manifests_carry_the_configured_version_suffix() {
    let plan = KfpService::default().with_kfp_version("1.0.4").install_plan(false);
    let cluster_scoped = run_cmd(&plan[0]);
    assert_eq!(
        cluster_scoped.args,
        vec![
            "apply",
            "-k",
            "github.com/kubeflow/pipelines/manifests/kustomize/cluster-scoped-resources?ref=1.0.4",
        ]
    );
    let overlay = run_cmd(&plan[2]);
    assert_eq!(
        overlay.args,
        vec![
            "apply",
            "-k",
            "github.com/kubeflow/pipelines/manifests/kustomize/env/platform-agnostic-pns?ref=1.0.4",
        ]
    );
}

#[test]
fn kfp_overlay_waits_for_the_crd_first() {
    // The established-condition wait stands strictly between the two apply
    // steps, and a failure of any step halts the run before the next one.
    let plan = KfpService::default().with_kfp_version("1.0.4").install_plan(false);
    let crd_wait = run_cmd(&plan[1]);
    assert_eq!(crd_wait.program, "kubectl");
    assert_eq!(
        crd_wait.args,
        vec![
            "wait",
            "--for",
            "condition=established",
            "--timeout=60s",
            "crd/applications.app.k8s.io",
        ]
    );
}

#[test]
fn port_forward_targets_the_narrow_endpoint_when_asked() {
    let plan = PortForward::default()
        .with_kfp_only(true)
        .with_port("8080")
        .with_address("0.0.0.0")
        .install_plan(false);
    assert_eq!(plan.len(), 1);
    let relay = run_cmd(&plan[0]);
    assert_eq!(relay.program, "kubectl");
    assert_eq!(
        relay.args,
        vec![
            "port-forward",
            "--address",
            "0.0.0.0",
            "-n",
            "kubeflow",
            "svc/ml-pipeline-ui",
            "8080:80",
        ]
    );
}

#[test]
fn port_forward_targets_the_ingress_endpoint_otherwise() {
    let plan = PortForward::default()
        .with_kfp_only(false)
        .with_port("8080")
        .with_address("0.0.0.0")
        .install_plan(false);
    let relay = run_cmd(&plan[0]);
    assert_eq!(
        relay.args,
        vec![
            "port-forward",
            "--address",
            "0.0.0.0",
            "-n",
            "istio-system",
            "svc/istio-ingressgateway",
            "8080:80",
        ]
    );
}

#[test]
fn port_forward_probe_never_reports_present() {
    let probe = PortForward::default().probe();
    assert!(probe.command().is_none());
}

#[test]
fn display_names_are_stable() {
    assert_eq!(configured_cluster().name(), "k3d cluster");
    assert_eq!(KfpService::default().name(), "KFP Service");
    assert_eq!(PortForward::default().name(), "Port Forward");
}
