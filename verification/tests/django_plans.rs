use ddc_shob::cmd::{Cmd, Step};
use ddc_shob::django::{
    add_app, black, exec_manage_command, flake8, lint, migrate, mypy, prospector, purge_db,
    pydocstyle, pytest, show_urls,
};

fn args_of(c: &Cmd) -> Vec<&str> {
    c.args.iter().map(|a| a.as_str()).collect()
}

fn step_args(s: &Step) -> Vec<&str> {
    args_of(&s.cmd)
}

#[test]
fn manage_command_prefix() {
    let c = exec_manage_command("api", vec!["createsuperuser"]);
    assert_eq!(c.program, "docker-compose");
    assert_eq!(
        args_of(&c),
        vec!["exec", "api", "python", "manage.py", "createsuperuser"]
    );
}

#[test]
fn migrate_empty_requires_application() {
    assert!(migrate("api", None, None, true, None).is_none());
}

#[test]
fn migrate_empty_with_application_and_name() {
    let plan = migrate(
        "api",
        Some("shop".to_string()),
        None,
        true,
        Some("seed".to_string()),
    )
    .unwrap();
    assert_eq!(plan.len(), 1);
    assert_eq!(
        step_args(&plan[0]),
        vec![
            "exec",
            "api",
            "python",
            "manage.py",
            "makemigrations",
            "--empty",
            "--name",
            "seed",
            "shop"
        ]
    );
}

#[test]
fn migrate_to_specific_number_only_migrates() {
    let plan = migrate(
        "api",
        Some("shop".to_string()),
        Some("0042".to_string()),
        false,
        None,
    )
    .unwrap();
    assert_eq!(plan.len(), 1);
    assert_eq!(
        step_args(&plan[0]),
        vec!["exec", "api", "python", "manage.py", "migrate", "shop", "0042"]
    );
}

#[test]
fn migrate_application_makes_then_applies() {
    let plan = migrate(
        "api",
        Some("shop".to_string()),
        None,
        false,
        Some("add_field".to_string()),
    )
    .unwrap();
    assert_eq!(plan.len(), 2);
    assert_eq!(
        step_args(&plan[0]),
        vec![
            "exec",
            "api",
            "python",
            "manage.py",
            "makemigrations",
            "shop",
            "--name",
            "add_field"
        ]
    );
    assert_eq!(
        step_args(&plan[1]),
        vec!["exec", "api", "python", "manage.py", "migrate", "shop"]
    );
    assert!(plan.iter().all(|s| s.fatal));
}

#[test]
fn migrate_everything() {
    let plan = migrate("api", None, None, false, None).unwrap();
    assert_eq!(plan.len(), 2);
    assert_eq!(
        step_args(&plan[0]),
        vec!["exec", "api", "python", "manage.py", "makemigrations"]
    );
    assert_eq!(
        step_args(&plan[1]),
        vec!["exec", "api", "python", "manage.py", "migrate"]
    );
}

#[test]
fn purge_db_with_volume() {
    let plan = purge_db("pg".to_string(), Some("data".to_string()));
    assert_eq!(plan.len(), 3);
    assert_eq!(plan[0].cmd.program, "docker-compose");
    assert_eq!(step_args(&plan[0]), vec!["rm", "--stop", "--force"]);
    assert_eq!(plan[1].cmd.program, "docker");
    assert_eq!(step_args(&plan[1]), vec!["volume", "rm", "data"]);
    assert_eq!(plan[2].cmd.program, "docker-compose");
    assert_eq!(step_args(&plan[2]), vec!["up", "-d"]);
}

#[test]
fn purge_db_without_volume_removes_folder() {
    let plan = purge_db("pg".to_string(), None);
    assert_eq!(plan[1].cmd.program, "rm");
    assert_eq!(step_args(&plan[1]), vec!["-rf", "pg"]);
}

#[test]
fn show_urls_and_add_app() {
    assert_eq!(
        args_of(&show_urls("api")),
        vec!["exec", "api", "python", "manage.py", "show_urls"]
    );
    assert_eq!(
        args_of(&add_app("blog", "api")),
        vec!["exec", "api", "python", "manage.py", "startapp", "blog"]
    );
}

#[test]
fn pytest_all_or_path() {
    assert_eq!(args_of(&pytest(None, "api")), vec!["exec", "api", "pytest"]);
    assert_eq!(
        args_of(&pytest(Some("tests/unit".to_string()), "api")),
        vec!["exec", "api", "pytest", "tests/unit"]
    );
}

#[test]
fn linter_commands_are_exact() {
    assert_eq!(args_of(&black("/app", "api")), vec!["exec", "api", "black", "/app"]);
    assert_eq!(
        args_of(&flake8("/app", "api")),
        vec!["exec", "api", "flake8", "/app", "--exclude=migrations"]
    );
    assert_eq!(
        args_of(&prospector("/app", "api")),
        vec!["exec", "api", "prospector", "/app"]
    );
    assert_eq!(
        args_of(&pydocstyle("/app", "api", "numpy")),
        vec![
            "exec",
            "api",
            "pydocstyle",
            "--convention",
            "numpy",
            "/app",
            "--match-dir=^(?!migrations).*"
        ]
    );
    assert_eq!(
        args_of(&mypy("/app", "api", "strict")),
        vec!["exec", "api", "mypy", "/app", "--strict"]
    );
}

#[test]
fn lint_runs_black_flake8_prospector_in_order() {
    let plan = lint("/app", "api");
    assert_eq!(plan.len(), 3);
    assert_eq!(step_args(&plan[0]), vec!["exec", "api", "black", "/app"]);
    assert_eq!(
        step_args(&plan[1]),
        vec!["exec", "api", "flake8", "/app", "--exclude=migrations"]
    );
    assert_eq!(step_args(&plan[2]), vec!["exec", "api", "prospector", "/app"]);
    assert!(plan.iter().all(|s| s.fatal));
}
