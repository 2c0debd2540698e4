//! Plans for the Django management commands that run inside the stack's
//! containers: migrations, database purge, tests, linters.

use vstd::prelude::*;

use crate::cmd::{push_arg, push_arg_string, Cmd, Step};
use crate::docker_compose::compose_program;

verus! {

/// The argument list that runs `python manage.py <rest>` inside
/// `service`'s container.
pub open spec fn manage_args(service: Seq<char>, rest: Seq<Seq<char>>) -> Seq<Seq<char>> {
    seq!["exec"@, service, "python"@, "manage.py"@] + rest
}

/// Every step of `steps` is a fatal `docker-compose` invocation with the
/// corresponding argument list of `arg_lists`.
pub open spec fn compose_plan_is(steps: Seq<Step>, arg_lists: Seq<Seq<Seq<char>>>) -> bool {
    &&& steps.len() == arg_lists.len()
    &&& forall|i: int|
        0 <= i < steps.len() ==> #[trigger] steps[i].is(compose_program(), arg_lists[i], true)
}

/// Builds the `python manage.py` invocation for `service` with the given
/// trailing arguments.
pub fn exec_manage_command(service: &str, args: Vec<&str>) -> (c: Cmd)
    ensures
        c.is(compose_program(), manage_args(service@, args.deep_view())),
{
    let mut full: Vec<String> = Vec::new();
    push_arg(&mut full, "exec");
    push_arg(&mut full, service);
    push_arg(&mut full, "python");
    push_arg(&mut full, "manage.py");
    let ghost head = full.deep_view();
    let args_len = args.len();
    for i in 0..args_len
        invariant
            args_len == args.len(),
            full.deep_view() == head + args.deep_view().take(i as int),
    {
        push_arg(&mut full, args[i]);
        assert(args.deep_view().take(i + 1) =~= args.deep_view().take(i as int).push(
            args.deep_view()[i as int],
        ));
    }
    assert(args.deep_view().take(args_len as int) =~= args.deep_view());
    assert(full.deep_view() =~= manage_args(service@, args.deep_view()));
    Cmd { program: "docker-compose".to_owned(), args: full }
}

/// The `--name <n>` flag of `makemigrations`, when a migration name was
/// supplied.
pub open spec fn name_flag(migration_name: Option<Seq<char>>) -> Seq<Seq<char>> {
    match migration_name {
        Some(n) => seq!["--name"@, n],
        None => Seq::empty(),
    }
}

/// The ordered argument lists of the migration plan, or `None` when an
/// empty migration is requested without an application name (an empty
/// migration must belong to one application).
pub open spec fn migrate_arg_lists(
    service: Seq<char>,
    application: Option<Seq<char>>,
    migration_number: Option<Seq<char>>,
    empty: bool,
    migration_name: Option<Seq<char>>,
) -> Option<Seq<Seq<Seq<char>>>> {
    if empty {
        match application {
            Some(app) => Some(
                seq![
                    manage_args(
                        service,
                        seq!["makemigrations"@, "--empty"@] + name_flag(migration_name)
                            + seq![app],
                    ),
                ],
            ),
            None => None,
        }
    } else {
        match application {
            Some(app) => match migration_number {
                Some(num) => Some(seq![manage_args(service, seq!["migrate"@, app, num])]),
                None => Some(
                    seq![
                        manage_args(service, seq!["makemigrations"@, app] + name_flag(migration_name)),
                        manage_args(service, seq!["migrate"@, app]),
                    ],
                ),
            },
            None => Some(
                seq![
                    manage_args(service, seq!["makemigrations"@]),
                    manage_args(service, seq!["migrate"@]),
                ],
            ),
        }
    }
}

/// Plans the migrations for all applications or a specific one.
///
/// With a migration number the plan only migrates (a rollback); otherwise
/// it makes migrations first and then applies them. With `empty` set the
/// plan creates one empty migration, which requires an application name:
/// without one no plan exists and `None` is returned.
pub fn migrate(
    service: &str,
    application: Option<String>,
    migration_number: Option<String>,
    empty: bool,
    migration_name: Option<String>,
) -> (plan: Option<Vec<Step>>)
    ensures
        match plan {
            Some(steps) => {
                &&& migrate_arg_lists(
                    service@,
                    application.deep_view(),
                    migration_number.deep_view(),
                    empty,
                    migration_name.deep_view(),
                ) matches Some(lists)
                &&& compose_plan_is(steps@, lists)
            },
            None => migrate_arg_lists(
                service@,
                application.deep_view(),
                migration_number.deep_view(),
                empty,
                migration_name.deep_view(),
            ) is None,
        },
{
    if empty {
        let mut rest: Vec<&str> = Vec::new();
        push_ref(&mut rest, "makemigrations");
        push_ref(&mut rest, "--empty");
        if let Some(mname) = &migration_name {
            push_ref(&mut rest, "--name");
            push_ref(&mut rest, mname.as_str());
        }
        match &application {
            Some(app) => {
                push_ref(&mut rest, app.as_str());
                assert(rest.deep_view() =~= seq!["makemigrations"@, "--empty"@] + name_flag(
                    migration_name.deep_view(),
                ) + seq![app@]);
                let step = Step { cmd: exec_manage_command(service, rest), fatal: true };
                let mut steps: Vec<Step> = Vec::new();
                steps.push(step);
                proof {
                    let lists = migrate_arg_lists(
                        service@,
                        application.deep_view(),
                        migration_number.deep_view(),
                        empty,
                        migration_name.deep_view(),
                    ).unwrap();
                    assert(steps@ =~= seq![steps@[0]]);
                    assert(compose_plan_is(steps@, lists));
                }
                Some(steps)
            },
            None => None,
        }
    } else {
        match &application {
            Some(app) => {
                match &migration_number {
                    Some(num) => {
                        let mut rest: Vec<&str> = Vec::new();
                        push_ref(&mut rest, "migrate");
                        push_ref(&mut rest, app.as_str());
                        push_ref(&mut rest, num.as_str());
                        assert(rest.deep_view() =~= seq!["migrate"@, app@, num@]);
                        let step = Step { cmd: exec_manage_command(service, rest), fatal: true };
                        let mut steps: Vec<Step> = Vec::new();
                        steps.push(step);
                        proof {
                            let lists = migrate_arg_lists(
                                service@,
                                application.deep_view(),
                                migration_number.deep_view(),
                                empty,
                                migration_name.deep_view(),
                            ).unwrap();
                            assert(steps@ =~= seq![steps@[0]]);
                            assert(compose_plan_is(steps@, lists));
                        }
                        Some(steps)
                    },
                    None => {
                        let mut make_rest: Vec<&str> = Vec::new();
                        push_ref(&mut make_rest, "makemigrations");
                        push_ref(&mut make_rest, app.as_str());
                        if let Some(mname) = &migration_name {
                            push_ref(&mut make_rest, "--name");
                            push_ref(&mut make_rest, mname.as_str());
                        }
                        assert(make_rest.deep_view() =~= seq!["makemigrations"@, app@] + name_flag(
                            migration_name.deep_view(),
                        ));
                        let mut migrate_rest: Vec<&str> = Vec::new();
                        push_ref(&mut migrate_rest, "migrate");
                        push_ref(&mut migrate_rest, app.as_str());
                        assert(migrate_rest.deep_view() =~= seq!["migrate"@, app@]);
                        let first = Step {
                            cmd: exec_manage_command(service, make_rest),
                            fatal: true,
                        };
                        let second = Step {
                            cmd: exec_manage_command(service, migrate_rest),
                            fatal: true,
                        };
                        let mut steps: Vec<Step> = Vec::new();
                        steps.push(first);
                        steps.push(second);
                        proof {
                            let lists = migrate_arg_lists(
                                service@,
                                application.deep_view(),
                                migration_number.deep_view(),
                                empty,
                                migration_name.deep_view(),
                            ).unwrap();
                            assert(steps@ =~= seq![steps@[0], steps@[1]]);
                            assert(compose_plan_is(steps@, lists));
                        }
                        Some(steps)
                    },
                }
            },
            None => {
                let mut make_rest: Vec<&str> = Vec::new();
                push_ref(&mut make_rest, "makemigrations");
                assert(make_rest.deep_view() =~= seq!["makemigrations"@]);
                let mut migrate_rest: Vec<&str> = Vec::new();
                push_ref(&mut migrate_rest, "migrate");
                assert(migrate_rest.deep_view() =~= seq!["migrate"@]);
                let first = Step { cmd: exec_manage_command(service, make_rest), fatal: true };
                let second = Step { cmd: exec_manage_command(service, migrate_rest), fatal: true };
                let mut steps: Vec<Step> = Vec::new();
                steps.push(first);
                steps.push(second);
                proof {
                    let lists = migrate_arg_lists(
                        service@,
                        application.deep_view(),
                        migration_number.deep_view(),
                        empty,
                        migration_name.deep_view(),
                    ).unwrap();
                    assert(steps@ =~= seq![steps@[0], steps@[1]]);
                    assert(compose_plan_is(steps@, lists));
                }
                Some(steps)
            },
        }
    }
}

/// Appends one borrowed argument to a borrowed argument list.
fn push_ref<'a>(v: &mut Vec<&'a str>, s: &'a str)
    ensures
        final(v).deep_view() == old(v).deep_view().push(s@),
{
    v.push(s);
    assert(v.deep_view() =~= old(v).deep_view().push(s@));
}

/// Purges the database: stop and remove all containers, delete the
/// database volume (or, without a named volume, the local database
/// folder), then bring the stack back up. A destructive plan; every step
/// is fatal.
pub fn purge_db(db_folder: String, volume: Option<String>) -> (plan: Vec<Step>)
    ensures
        plan.len() == 3,
        plan[0].is(compose_program(), seq!["rm"@, "--stop"@, "--force"@], true),
        match volume.deep_view() {
            Some(v) => plan[1].is("docker"@, seq!["volume"@, "rm"@, v], true),
            None => plan[1].is("rm"@, seq!["-rf"@, db_folder@], true),
        },
        plan[2].is(compose_program(), seq!["up"@, "-d"@], true),
{
    let mut stop_args: Vec<String> = Vec::new();
    push_arg(&mut stop_args, "rm");
    push_arg(&mut stop_args, "--stop");
    push_arg(&mut stop_args, "--force");
    assert(stop_args.deep_view() =~= seq!["rm"@, "--stop"@, "--force"@]);
    let first = Step {
        cmd: Cmd { program: "docker-compose".to_owned(), args: stop_args },
        fatal: true,
    };

    let second = match &volume {
        Some(volume_name) => {
            let mut args: Vec<String> = Vec::new();
            push_arg(&mut args, "volume");
            push_arg(&mut args, "rm");
            push_arg(&mut args, volume_name.as_str());
            assert(args.deep_view() =~= seq!["volume"@, "rm"@, volume_name@]);
            Step { cmd: Cmd { program: "docker".to_owned(), args }, fatal: true }
        },
        None => {
            let ghost folder_view = db_folder@;
            let mut args: Vec<String> = Vec::new();
            push_arg(&mut args, "-rf");
            push_arg_string(&mut args, db_folder);
            assert(args.deep_view() =~= seq!["-rf"@, folder_view]);
            Step { cmd: Cmd { program: "rm".to_owned(), args }, fatal: true }
        },
    };

    let mut up_args: Vec<String> = Vec::new();
    push_arg(&mut up_args, "up");
    push_arg(&mut up_args, "-d");
    assert(up_args.deep_view() =~= seq!["up"@, "-d"@]);
    let third = Step {
        cmd: Cmd { program: "docker-compose".to_owned(), args: up_args },
        fatal: true,
    };

    let mut plan: Vec<Step> = Vec::new();
    plan.push(first);
    plan.push(second);
    plan.push(third);
    plan
}

/// Lists every service URL, through the `show_urls` management command.
pub fn show_urls(service: &str) -> (c: Cmd)
    ensures
        c.is(compose_program(), manage_args(service@, seq!["show_urls"@])),
{
    let mut rest: Vec<&str> = Vec::new();
    push_ref(&mut rest, "show_urls");
    assert(rest.deep_view() =~= seq!["show_urls"@]);
    exec_manage_command(service, rest)
}

/// Creates a new Django application inside the container.
pub fn add_app(app_name: &str, service: &str) -> (c: Cmd)
    ensures
        c.is(compose_program(), manage_args(service@, seq!["startapp"@, app_name@])),
{
    let mut rest: Vec<&str> = Vec::new();
    push_ref(&mut rest, "startapp");
    push_ref(&mut rest, app_name);
    assert(rest.deep_view() =~= seq!["startapp"@, app_name@]);
    exec_manage_command(service, rest)
}

/// Runs pytest inside the container, on everything or on a specific path.
pub fn pytest(path: Option<String>, service: &str) -> (c: Cmd)
    ensures
        match path.deep_view() {
            Some(tests) => c.is(compose_program(), seq!["exec"@, service@, "pytest"@, tests]),
            None => c.is(compose_program(), seq!["exec"@, service@, "pytest"@]),
        },
{
    let mut args: Vec<String> = Vec::new();
    push_arg(&mut args, "exec");
    push_arg(&mut args, service);
    push_arg(&mut args, "pytest");
    if let Some(tests) = &path {
        push_arg(&mut args, tests.as_str());
    }
    assert(match path.deep_view() {
        Some(tests) => args.deep_view() =~= seq!["exec"@, service@, "pytest"@, tests],
        None => args.deep_view() =~= seq!["exec"@, service@, "pytest"@],
    });
    Cmd { program: "docker-compose".to_owned(), args }
}

/// Formats a path with black inside the container.
pub fn black(path: &str, service: &str) -> (c: Cmd)
    ensures
        c.is(compose_program(), seq!["exec"@, service@, "black"@, path@]),
{
    let mut args: Vec<String> = Vec::new();
    push_arg(&mut args, "exec");
    push_arg(&mut args, service);
    push_arg(&mut args, "black");
    push_arg(&mut args, path);
    assert(args.deep_view() =~= seq!["exec"@, service@, "black"@, path@]);
    Cmd { program: "docker-compose".to_owned(), args }
}

/// Checks a path with flake8 inside the container, skipping migrations.
pub fn flake8(path: &str, service: &str) -> (c: Cmd)
    ensures
        c.is(
            compose_program(),
            seq!["exec"@, service@, "flake8"@, path@, "--exclude=migrations"@],
        ),
{
    let mut args: Vec<String> = Vec::new();
    push_arg(&mut args, "exec");
    push_arg(&mut args, service);
    push_arg(&mut args, "flake8");
    push_arg(&mut args, path);
    push_arg(&mut args, "--exclude=migrations");
    assert(args.deep_view() =~= seq![
        "exec"@, service@, "flake8"@, path@, "--exclude=migrations"@,
    ]);
    Cmd { program: "docker-compose".to_owned(), args }
}

/// Analyzes a path with prospector inside the container.
pub fn prospector(path: &str, service: &str) -> (c: Cmd)
    ensures
        c.is(compose_program(), seq!["exec"@, service@, "prospector"@, path@]),
{
    let mut args: Vec<String> = Vec::new();
    push_arg(&mut args, "exec");
    push_arg(&mut args, service);
    push_arg(&mut args, "prospector");
    push_arg(&mut args, path);
    assert(args.deep_view() =~= seq!["exec"@, service@, "prospector"@, path@]);
    Cmd { program: "docker-compose".to_owned(), args }
}

/// Checks docstrings with pydocstyle inside the container, under the
/// given convention and skipping migrations folders.
pub fn pydocstyle(path: &str, service: &str, convention: &str) -> (c: Cmd)
    ensures
        c.is(
            compose_program(),
            seq![
                "exec"@,
                service@,
                "pydocstyle"@,
                "--convention"@,
                convention@,
                path@,
                "--match-dir=^(?!migrations).*"@,
            ],
        ),
{
    let mut args: Vec<String> = Vec::new();
    push_arg(&mut args, "exec");
    push_arg(&mut args, service);
    push_arg(&mut args, "pydocstyle");
    push_arg(&mut args, "--convention");
    push_arg(&mut args, convention);
    push_arg(&mut args, path);
    push_arg(&mut args, "--match-dir=^(?!migrations).*");
    assert(args.deep_view() =~= seq![
        "exec"@,
        service@,
        "pydocstyle"@,
        "--convention"@,
        convention@,
        path@,
        "--match-dir=^(?!migrations).*"@,
    ]);
    Cmd { program: "docker-compose".to_owned(), args }
}

/// Type-checks a path with mypy inside the container, at the given
/// strictness level (passed as a `--<level>` flag).
pub fn mypy(path: &str, service: &str, level: &str) -> (c: Cmd)
    ensures
        c.is(
            compose_program(),
            seq!["exec"@, service@, "mypy"@, path@, "--"@ + level@],
        ),
{
    let flag = "--".to_owned().concat(level);
    let mut args: Vec<String> = Vec::new();
    push_arg(&mut args, "exec");
    push_arg(&mut args, service);
    push_arg(&mut args, "mypy");
    push_arg(&mut args, path);
    push_arg_string(&mut args, flag);
    assert(args.deep_view() =~= seq!["exec"@, service@, "mypy"@, path@, "--"@ + level@]);
    Cmd { program: "docker-compose".to_owned(), args }
}

/// Runs the linters that need no special configuration, in order: black,
/// flake8, prospector. A failing linter stops the plan.
pub fn lint(path: &str, service: &str) -> (plan: Vec<Step>)
    ensures
        plan.len() == 3,
        plan[0].is(compose_program(), seq!["exec"@, service@, "black"@, path@], true),
        plan[1].is(
            compose_program(),
            seq!["exec"@, service@, "flake8"@, path@, "--exclude=migrations"@],
            true,
        ),
        plan[2].is(compose_program(), seq!["exec"@, service@, "prospector"@, path@], true),
{
    let mut plan: Vec<Step> = Vec::new();
    plan.push(Step { cmd: black(path, service), fatal: true });
    plan.push(Step { cmd: flake8(path, service), fatal: true });
    plan.push(Step { cmd: prospector(path, service), fatal: true });
    plan
}

} // verus!
