// Fail-fast plan execution: a failed fatal sub-step halts the whole action.

use kfpl::plan::{PlanRun, Step};
use kfpl::services::curl::Curl;
use kfpl::services::docker::Docker;
use kfpl::services::kfp_service::KfpService;
use kfpl::services::model::Ensurable;

fn step_program(step: &Step) -> &str {
    match step {
        Step::Run { cmd, .. } => cmd.program.as_str(),
        _ => panic!("expected a command step"),
    }
}

#[test]
fn a_failed_first_step_names_itself_and_halts_the_run() {
    let plan = Curl::default().install_plan(false);
    let mut run = PlanRun::new(plan);
    assert_eq!(step_program(run.next_step().unwrap()), "apt-get");
    run.record(false);
    assert!(run.next_step().is_none());
    assert_eq!(run.result().unwrap_err(), "Unable to update apt-get.");
}

#[test]
fn a_failed_middle_step_leaves_later_steps_unexecuted() {
    let plan = Curl::default().install_plan(false);
    let mut run = PlanRun::new(plan);
    run.record(true);
    run.record(false);
    assert!(run.next_step().is_none());
    assert_eq!(
        run.result().unwrap_err(),
        "Unable to install curl via apt-get.  You can install curl manually, and try `kfpl init` again."
    );
}

#[test]
fn a_run_with_every_step_successful_reports_success() {
    let plan = Curl::default().install_plan(false);
    let steps = plan.len();
    let mut run = PlanRun::new(plan);
    for _ in 0..steps {
        assert!(run.next_step().is_some());
        run.record(true);
    }
    assert!(run.next_step().is_none());
    assert!(run.result().is_ok());
}

#[test]
fn the_overlay_apply_is_never_handed_out_when_the_crd_wait_fails() {
    let plan = KfpService::default().with_kfp_version("1.0.4").install_plan(false);
    let mut run = PlanRun::new(plan);
    run.record(true); // the cluster-scoped resources were applied
    run.record(false); // the established-condition wait failed
    assert!(run.next_step().is_none());
    assert_eq!(run.result().unwrap_err(), "Unable to wait for KFP CRD deployment.");
}

#[test]
fn a_best_effort_step_failure_is_tolerated() {
    // The group-membership step of the docker install is best effort: its
    // failure must not halt the remaining steps.
    let plan = Docker::default().install_plan(false);
    let mut run = PlanRun::new(plan);
    run.record(true); // fetch the convenience script
    run.record(true); // run it
    match run.next_step().unwrap() {
        Step::Run { cmd, fatal, .. } => {
            assert_eq!(cmd.program, "usermod");
            assert!(!*fatal);
        }
        _ => panic!("expected the group-membership step"),
    }
    run.record(false); // tolerated
    match run.next_step().unwrap() {
        Step::Run { cmd, .. } => assert_eq!(cmd.program, "rm"),
        _ => panic!("expected the cleanup step"),
    }
    run.record(true);
    assert!(run.next_step().is_none());
    assert!(run.result().is_ok());
}
