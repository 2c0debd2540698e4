use ddc_shob::runner::StepRunner;
use ddc_shob::sequencer::{deploy_steps, Sequencer, StepResult};

fn ok() -> StepResult {
    StepResult { output: String::new(), exit_code: 0 }
}

fn failed(code: i32) -> StepResult {
    StepResult { output: "boom".to_string(), exit_code: code }
}

#[test]
fn pipeline_commands_are_exact() {
    let steps = deploy_steps("ubuntu", "build_x.tar.gz");
    let commands: Vec<&str> = steps.iter().map(|s| s.command.as_str()).collect();
    assert_eq!(
        commands,
        vec![
            "rm -rf /home/ubuntu/web",
            "mkdir -p /home/ubuntu/web",
            "tar -xzvf /tmp/build_x.tar.gz -C /tmp",
            "cp -r /tmp/build/* /home/ubuntu/web",
            "cd /home/ubuntu/web; docker-compose rm -s -f",
            "cd /home/ubuntu/web; docker-compose up -d --build",
            "rm -rf /tmp/build_x.tar.gz",
        ]
    );
    assert!(steps.iter().all(|s| s.fatal));
    assert_eq!(steps[5].description, "rebuild and start the services");
}

#[test]
fn all_steps_succeeding_completes_the_run() {
    let mut seq = Sequencer::new(deploy_steps("ubuntu", "build_x.tar.gz"));
    let mut ran = 0;
    while seq.current_step().is_some() {
        seq.record(&ok());
        ran += 1;
    }
    assert_eq!(ran, 7);
    assert!(seq.succeeded());
    assert!(seq.failure_description().is_none());
}

#[test]
fn nonzero_exit_stops_the_sequence_at_that_step() {
    let mut seq = Sequencer::new(deploy_steps("ubuntu", "build_x.tar.gz"));
    // clear succeeds, create fails
    seq.record(&ok());
    seq.record(&failed(2));
    assert!(seq.current_step().is_none());
    assert!(!seq.succeeded());
    assert_eq!(
        seq.failure_description().unwrap(),
        "create the web directory"
    );
}

#[test]
fn failed_rebuild_skips_the_remote_archive_removal() {
    let mut seq = Sequencer::new(deploy_steps("ubuntu", "build_x.tar.gz"));
    for _ in 0..5 {
        let step = seq.current_step().unwrap();
        assert!(!step.command.starts_with("rm -rf /tmp/"));
        seq.record(&ok());
    }
    let rebuild = seq.current_step().unwrap();
    assert_eq!(rebuild.description, "rebuild and start the services");
    seq.record(&failed(1));
    // the removal of the uploaded archive is never offered
    assert!(seq.current_step().is_none());
    assert_eq!(
        seq.failure_description().unwrap(),
        "rebuild and start the services"
    );
    assert!(!seq.succeeded());
}

#[test]
fn nonfatal_step_failure_does_not_stop_a_plan() {
    let mut runner = StepRunner::new(vec![false, true]);
    assert_eq!(runner.current(), Some(0));
    runner.record(false);
    assert_eq!(runner.current(), Some(1));
    runner.record(true);
    assert!(runner.succeeded());
    assert!(runner.failed_step().is_none());
}

#[test]
fn fatal_step_failure_halts_a_plan() {
    let mut runner = StepRunner::new(vec![true, true, true]);
    runner.record(true);
    runner.record(false);
    assert_eq!(runner.current(), None);
    assert_eq!(runner.failed_step(), Some(1));
    assert!(!runner.succeeded());
}
