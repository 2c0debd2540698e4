use ddc_shob::deploy::{DeployPhase, DeployRun, RunFailure};
use ddc_shob::error::DeployError;

#[test]
fn a_full_run_visits_every_phase_in_order() {
    let mut run = DeployRun::new();
    assert_eq!(run.phase(), DeployPhase::Packaging);
    run.packaged("build_a.tar.gz".to_string());
    assert_eq!(run.phase(), DeployPhase::Connecting);
    assert_eq!(run.archive_name().unwrap(), "build_a.tar.gz");
    run.session_ready();
    assert_eq!(run.phase(), DeployPhase::Uploading);
    run.uploaded();
    assert_eq!(run.phase(), DeployPhase::Running);
    run.steps_succeeded();
    assert_eq!(run.phase(), DeployPhase::CleaningUp);
    run.cleanup_done();
    assert_eq!(run.phase(), DeployPhase::Finished);
    assert!(run.succeeded());
    assert!(run.failure().is_none());
}

#[test]
fn packaging_failure_ends_the_run_with_nothing_to_clean() {
    let mut run = DeployRun::new();
    run.packaging_failed(DeployError::IOError("copy failed".to_string()));
    assert_eq!(run.phase(), DeployPhase::Finished);
    assert!(run.archive_name().is_none());
    assert!(!run.succeeded());
    match run.failure() {
        Some(RunFailure::Error(DeployError::IOError(cause))) => assert_eq!(cause, "copy failed"),
        _ => panic!("a packaging failure must surface as an IOError"),
    }
}

#[test]
fn session_failure_still_cleans_the_local_archive() {
    let mut run = DeployRun::new();
    run.packaged("build_b.tar.gz".to_string());
    run.session_failed(DeployError::AuthenticationFailed("rejected".to_string()));
    assert_eq!(run.phase(), DeployPhase::CleaningUp);
    assert_eq!(run.archive_name().unwrap(), "build_b.tar.gz");
    run.cleanup_done();
    assert_eq!(run.phase(), DeployPhase::Finished);
    assert!(!run.succeeded());
    assert!(matches!(
        run.failure(),
        Some(RunFailure::Error(DeployError::AuthenticationFailed(_)))
    ));
}

#[test]
fn upload_failure_still_cleans_the_local_archive() {
    let mut run = DeployRun::new();
    run.packaged("build_c.tar.gz".to_string());
    run.session_ready();
    run.upload_failed(DeployError::SessionError("channel broke".to_string()));
    assert_eq!(run.phase(), DeployPhase::CleaningUp);
    run.cleanup_done();
    assert!(!run.succeeded());
}

#[test]
fn a_failed_step_names_itself_and_cleanup_still_runs() {
    let mut run = DeployRun::new();
    run.packaged("build_d.tar.gz".to_string());
    run.session_ready();
    run.uploaded();
    run.step_failed("rebuild and start the services".to_string());
    assert_eq!(run.phase(), DeployPhase::CleaningUp);
    run.cleanup_done();
    match run.failure() {
        Some(RunFailure::StepFailed(description)) => {
            assert_eq!(description, "rebuild and start the services")
        },
        _ => panic!("a step failure must name the failed step"),
    }
}
