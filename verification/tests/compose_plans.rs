use ddc_shob::cmd::{Cmd, Step};
use ddc_shob::docker_compose::{build, exec, logs, rebuild, restart, start, status, stop};
use ddc_shob::numstr::{i32_to_string, u64_to_string};

fn args_of(c: &Cmd) -> Vec<&str> {
    c.args.iter().map(|a| a.as_str()).collect()
}

fn step_args(s: &Step) -> Vec<&str> {
    args_of(&s.cmd)
}

#[test]
fn start_with_build_names_service_and_tolerates_build_failure() {
    let plan = start(true, Some("api".to_string()));
    assert_eq!(plan.len(), 2);
    assert_eq!(plan[0].cmd.program, "docker-compose");
    assert_eq!(step_args(&plan[0]), vec!["build", "--force-rm", "api"]);
    assert!(!plan[0].fatal);
    assert_eq!(step_args(&plan[1]), vec!["up", "-d", "--remove-orphans", "api"]);
    assert!(plan[1].fatal);
}

#[test]
fn start_without_build_is_one_command() {
    let plan = start(false, None);
    assert_eq!(plan.len(), 1);
    assert_eq!(step_args(&plan[0]), vec!["up", "-d", "--remove-orphans"]);
    assert!(plan[0].fatal);
}

#[test]
fn start_with_build_and_no_service_builds_in_parallel() {
    let plan = start(true, None);
    assert_eq!(plan.len(), 2);
    assert_eq!(step_args(&plan[0]), vec!["build", "--force-rm", "--parallel"]);
}

#[test]
fn stop_all_and_one_service() {
    let all = stop(None);
    assert_eq!(all.program, "docker-compose");
    assert_eq!(args_of(&all), vec!["rm", "--stop", "--force", "-v"]);
    let one = stop(Some("db".to_string()));
    assert_eq!(args_of(&one), vec!["rm", "--stop", "--force", "-v", "db"]);
}

#[test]
fn restart_all_or_named() {
    assert_eq!(args_of(&restart(true, "api")), vec!["restart"]);
    assert_eq!(args_of(&restart(false, "api")), vec!["restart", "api"]);
}

#[test]
fn rebuild_stops_builds_and_starts_fatally() {
    let plan = rebuild("api");
    assert_eq!(plan.len(), 3);
    assert_eq!(step_args(&plan[0]), vec!["rm", "--stop", "--force", "-v", "api"]);
    assert_eq!(step_args(&plan[1]), vec!["build", "--force-rm", "api"]);
    assert_eq!(step_args(&plan[2]), vec!["up", "-d", "--remove-orphans", "api"]);
    assert!(plan.iter().all(|s| s.fatal));
}

#[test]
fn build_and_status_commands() {
    assert_eq!(args_of(&build("api")), vec!["build", "--force-rm", "api"]);
    assert_eq!(args_of(&status()), vec!["ps", "--all"]);
}

#[test]
fn logs_tail_follow_and_plain() {
    let f = logs("api", 20, true);
    assert_eq!(args_of(&f), vec!["logs", "--timestamps", "--tail=20", "--follow", "api"]);
    let p = logs("web", 7, false);
    assert_eq!(args_of(&p), vec!["logs", "--timestamps", "--tail=7", "web"]);
}

#[test]
fn exec_inserts_workdir_before_service() {
    let c = exec(
        "api",
        vec!["ls".to_string(), "-la".to_string()],
        Some("/app".to_string()),
    );
    assert_eq!(args_of(&c), vec!["exec", "--workdir", "/app", "api", "ls", "-la"]);
    let plain = exec("api", vec!["env".to_string()], None);
    assert_eq!(args_of(&plain), vec!["exec", "api", "env"]);
}

#[test]
fn decimal_rendering_is_exact() {
    assert_eq!(u64_to_string(0), "0");
    assert_eq!(u64_to_string(7), "7");
    assert_eq!(u64_to_string(10), "10");
    assert_eq!(u64_to_string(120043), "120043");
    assert_eq!(i32_to_string(-5), "-5");
    assert_eq!(i32_to_string(i32::MIN), "-2147483648");
    assert_eq!(i32_to_string(i32::MAX), "2147483647");
}
