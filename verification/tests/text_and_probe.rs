// Textual state inference: containment, probe interpretation, prompts, and
// the exit-status collapse.

use kfpl::cmd::Cmd;
use kfpl::helpers::{cgroup_mentions_docker, ExitStatusIntoUnit};
use kfpl::probe::{Probe, ProbeOutcome};
use kfpl::services::model::{ensure_prompt, remove_prompt};
use kfpl::text::{contains_str, replace_all_str};

#[test]
fn containment_finds_a_marker_inside_a_listing() {
    let listing = "NAMESPACE  NAME\nkubeflow   ml-pipeline-5d8f";
    assert!(contains_str(listing, "ml-pipeline"));
    assert!(!contains_str(listing, "istio-ingressgateway"));
}

#[test]
fn containment_edge_cases() {
    assert!(contains_str("", ""));
    assert!(contains_str("abc", ""));
    assert!(!contains_str("", "a"));
    assert!(contains_str("aaa", "aa"));
}

#[test]
fn an_identifier_that_prefixes_another_also_matches() {
    // The known false-positive of the textual cluster probe: a configured
    // identifier that is a prefix of another running cluster's identifier is
    // reported present.  Documented behaviour, kept as it is.
    let listing = "CONTAINER ID  NAMES\nabc123        k3d-kfp-local-server-0";
    assert!(contains_str(listing, "kfp-local"));
    assert!(contains_str(listing, "kfp"));
}

#[test]
fn replacement_handles_empty_and_missing_needles() {
    assert_eq!(replace_all_str("", "0.0.0.0", "x"), "");
    assert_eq!(replace_all_str("nothing here", "0.0.0.0", "x"), "nothing here");
    assert_eq!(replace_all_str("a.b.a.b", "a.b", "c"), "c.c");
}

#[test]
fn binary_probe_conflates_inability_to_check_with_absence() {
    let probe = Probe::Binary { name: String::from("curl") };
    let command = probe.command().unwrap();
    assert_eq!(command.program, "which");
    assert_eq!(command.args, vec!["curl"]);
    assert_eq!(
        probe.interpret(ProbeOutcome::Ran { exit_ok: true, stdout: String::new() }),
        Ok(true)
    );
    assert_eq!(
        probe.interpret(ProbeOutcome::Ran { exit_ok: false, stdout: String::new() }),
        Ok(false)
    );
    assert_eq!(
        probe.interpret(ProbeOutcome::CouldNotRun { message: String::from("spawn failed") }),
        Ok(false)
    );
}

#[test]
fn listing_probe_scans_stdout_and_surfaces_probe_errors() {
    let probe = Probe::CmdContains {
        cmd: Cmd::new("kubectl").arg("get").arg("pods").arg("--all-namespaces"),
        needle: String::from("ml-pipeline"),
    };
    assert_eq!(
        probe.interpret(ProbeOutcome::Ran {
            exit_ok: true,
            stdout: String::from("kubeflow  ml-pipeline-abc  Running"),
        }),
        Ok(true)
    );
    assert_eq!(
        probe.interpret(ProbeOutcome::Ran { exit_ok: true, stdout: String::from("no pods") }),
        Ok(false)
    );
    assert_eq!(
        probe.interpret(ProbeOutcome::CouldNotRun { message: String::from("no kubectl") }),
        Err(String::from("no kubectl"))
    );
}

#[test]
fn always_absent_probe_reports_absent_whatever_happened() {
    let probe = Probe::AlwaysAbsent;
    assert_eq!(
        probe.interpret(ProbeOutcome::Ran { exit_ok: true, stdout: String::from("anything") }),
        Ok(false)
    );
}

#[test]
fn exit_status_collapses_to_unit() {
    let ran_cleanly: Result<bool, String> = Ok(true);
    assert_eq!(ran_cleanly.status_to_unit(), Ok(()));
    let exited_nonzero: Result<bool, String> = Ok(false);
    assert_eq!(
        exited_nonzero.status_to_unit(),
        Err(String::from("The exit code of the operation was not successful."))
    );
    let unspawnable: Result<bool, String> = Err(String::from("command not found"));
    assert_eq!(unspawnable.status_to_unit(), Err(String::from("command not found")));
}

#[test]
fn execution_context_reads_the_control_group_listing() {
    assert!(cgroup_mentions_docker("12:pids:/docker/abcdef"));
    assert!(!cgroup_mentions_docker("12:pids:/init.scope"));
}

#[test]
fn prompts_carry_the_display_name() {
    assert_eq!(
        ensure_prompt("curl"),
        "`curl` is not present: do you want me to make it so?"
    );
    assert_eq!(
        remove_prompt("k3d cluster"),
        "`k3d cluster` is present: do you want me to remove it?"
    );
}
