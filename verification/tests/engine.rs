// The ensure/remove state machines, driven through concrete runs.

use kfpl::engine::{EngineOutcome, EngineRequest, EnsureRun, RemoveRun};
use kfpl::services::curl::Curl;
use kfpl::services::k3d_service::K3dService;
use kfpl::services::model::{EnsurableEntity, RemovableEntity};

#[test]
fn ensure_present_is_a_successful_noop() {
    let mut run: EnsureRun = Curl::default().ensure(true);
    assert_eq!(run.request(), EngineRequest::RunProbe);
    run.on_probe(Ok(true));
    assert_eq!(run.request(), EngineRequest::Finished);
    let outcome = run.outcome();
    assert!(matches!(outcome, EngineOutcome::AlreadyPresent));
    assert!(outcome.is_success());
}

#[test]
fn ensure_declined_is_a_successful_skip() {
    let mut run: EnsureRun = Curl::default().ensure(true);
    run.on_probe(Ok(false));
    assert_eq!(run.request(), EngineRequest::AskConfirm);
    run.on_confirm(false);
    assert_eq!(run.request(), EngineRequest::Finished);
    let outcome = run.outcome();
    assert!(matches!(outcome, EngineOutcome::Declined));
    assert!(outcome.is_success());
}

#[test]
fn ensure_without_gate_acts_at_once() {
    let mut run: EnsureRun = Curl::default().ensure(false);
    run.on_probe(Ok(false));
    assert_eq!(run.request(), EngineRequest::RunAction);
}

#[test]
fn ensure_reports_success_when_reprobe_confirms() {
    let mut run: EnsureRun = Curl::default().ensure(true);
    run.on_probe(Ok(false));
    run.on_confirm(true);
    assert_eq!(run.request(), EngineRequest::RunAction);
    run.on_action(Ok(()));
    assert_eq!(run.request(), EngineRequest::RunProbe);
    run.on_probe(Ok(true));
    let outcome = run.outcome();
    assert!(matches!(outcome, EngineOutcome::Installed));
    assert!(outcome.is_success());
}

#[test]
fn ensure_reports_verification_failure_when_reprobe_contradicts() {
    let mut run: EnsureRun = Curl::default().ensure(false);
    run.on_probe(Ok(false));
    run.on_action(Ok(()));
    run.on_probe(Ok(false));
    let outcome = run.outcome();
    assert!(matches!(outcome, EngineOutcome::VerificationFailed));
    assert!(!outcome.is_success());
}

#[test]
fn ensure_aborts_on_probe_error_before_anything_else() {
    let mut run: EnsureRun = Curl::default().ensure(true);
    run.on_probe(Err(String::from("Unable to check if inside a docker container.")));
    assert_eq!(run.request(), EngineRequest::Finished);
    match run.outcome() {
        EngineOutcome::ProbeFailed(m) => {
            assert_eq!(m, "Unable to check if inside a docker container.");
        }
        other => panic!("expected a probe failure, got {:?}", other.is_success()),
    }
}

#[test]
fn ensure_propagates_a_step_failure() {
    let mut run: EnsureRun = Curl::default().ensure(false);
    run.on_probe(Ok(false));
    run.on_action(Err(String::from("Unable to update apt-get.")));
    match run.outcome() {
        EngineOutcome::StepFailed(m) => assert_eq!(m, "Unable to update apt-get."),
        _ => panic!("expected a step failure"),
    }
}

#[test]
fn remove_absent_is_a_successful_noop() {
    let service = K3dService::default().with_k3d_cluster_name("kfp-local");
    let mut run: RemoveRun = service.remove(true);
    assert_eq!(run.request(), EngineRequest::RunProbe);
    run.on_probe(Ok(false));
    assert_eq!(run.request(), EngineRequest::Finished);
    let outcome = run.outcome();
    assert!(matches!(outcome, EngineOutcome::AlreadyAbsent));
    assert!(outcome.is_success());
}

#[test]
fn remove_present_runs_the_removal_action() {
    let service = K3dService::default().with_k3d_cluster_name("kfp-local");
    let mut run: RemoveRun = service.remove(true);
    run.on_probe(Ok(true));
    assert_eq!(run.request(), EngineRequest::AskConfirm);
    run.on_confirm(true);
    assert_eq!(run.request(), EngineRequest::RunAction);
    run.on_action(Ok(()));
    let outcome = run.outcome();
    assert!(matches!(outcome, EngineOutcome::Removed));
    assert!(outcome.is_success());
}

#[test]
fn remove_declined_is_a_successful_skip() {
    let service = K3dService::default().with_k3d_cluster_name("kfp-local");
    let mut run: RemoveRun = service.remove(true);
    run.on_probe(Ok(true));
    run.on_confirm(false);
    let outcome = run.outcome();
    assert!(matches!(outcome, EngineOutcome::Declined));
    assert!(outcome.is_success());
}

#[test]
fn remove_propagates_a_step_failure() {
    let service = K3dService::default().with_k3d_cluster_name("kfp-local");
    let mut run: RemoveRun = service.remove(false);
    run.on_probe(Ok(true));
    run.on_action(Err(String::from("Unable to stop the k3d k8s cluster.")));
    match run.outcome() {
        EngineOutcome::StepFailed(m) => assert_eq!(m, "Unable to stop the k3d k8s cluster."),
        _ => panic!("expected a step failure"),
    }
}
