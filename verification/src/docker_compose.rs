//! Plans for driving the local `docker-compose` stack.
//!
//! Each function describes one lifecycle operation as the exact command
//! line (or ordered command plan) to run; the caller executes the plan
//! through its process runner.

use vstd::prelude::*;

use crate::cmd::{push_arg, push_arg_string, Cmd, Step};
use crate::numstr::i32_to_string;

verus! {

/// The program every plan in this module invokes.
pub open spec fn compose_program() -> Seq<char> {
    "docker-compose"@
}

/// Wraps an argument list into a `docker-compose` invocation.
fn compose(args: Vec<String>) -> (c: Cmd)
    ensures
        c.is(compose_program(), args.deep_view()),
{
    Cmd { program: "docker-compose".to_owned(), args }
}

/// The arguments of the image-build command used by [`start`] and
/// [`rebuild`]: all services in parallel when no service is named.
pub open spec fn build_args(service: Option<Seq<char>>) -> Seq<Seq<char>> {
    match service {
        Some(s) => seq!["build"@, "--force-rm"@, s],
        None => seq!["build"@, "--force-rm"@, "--parallel"@],
    }
}

/// The arguments of the start-up command used by [`start`] and [`rebuild`].
pub open spec fn up_args(service: Option<Seq<char>>) -> Seq<Seq<char>> {
    match service {
        Some(s) => seq!["up"@, "-d"@, "--remove-orphans"@, s],
        None => seq!["up"@, "-d"@, "--remove-orphans"@],
    }
}

/// Starts containers: optionally build the images first (a build failure
/// does not stop the plan), then bring the stack up in detached mode.
pub fn start(build: bool, container: Option<String>) -> (plan: Vec<Step>)
    ensures
        build ==> plan.len() == 2 && plan[0].is(
            compose_program(),
            build_args(container.deep_view()),
            false,
        ) && plan[1].is(compose_program(), up_args(container.deep_view()), true),
        !build ==> plan.len() == 1 && plan[0].is(
            compose_program(),
            up_args(container.deep_view()),
            true,
        ),
{
    let mut plan: Vec<Step> = Vec::new();
    if build {
        let mut args: Vec<String> = Vec::new();
        push_arg(&mut args, "build");
        push_arg(&mut args, "--force-rm");
        match &container {
            Some(service) => {
                push_arg(&mut args, service.as_str());
            },
            None => {
                push_arg(&mut args, "--parallel");
            },
        }
        assert(args.deep_view() =~= build_args(container.deep_view()));
        plan.push(Step { cmd: compose(args), fatal: false });
    }
    let mut args: Vec<String> = Vec::new();
    push_arg(&mut args, "up");
    push_arg(&mut args, "-d");
    push_arg(&mut args, "--remove-orphans");
    if let Some(service) = &container {
        push_arg(&mut args, service.as_str());
    }
    assert(args.deep_view() =~= up_args(container.deep_view()));
    plan.push(Step { cmd: compose(args), fatal: true });
    plan
}

/// The arguments of the stop-and-remove command used by [`stop`] and
/// [`rebuild`].
pub open spec fn stop_args(service: Option<Seq<char>>) -> Seq<Seq<char>> {
    match service {
        Some(s) => seq!["rm"@, "--stop"@, "--force"@, "-v"@, s],
        None => seq!["rm"@, "--stop"@, "--force"@, "-v"@],
    }
}

/// Stops and removes all containers, or just the named service.
pub fn stop(service: Option<String>) -> (c: Cmd)
    ensures
        c.is(compose_program(), stop_args(service.deep_view())),
{
    let mut args: Vec<String> = Vec::new();
    push_arg(&mut args, "rm");
    push_arg(&mut args, "--stop");
    push_arg(&mut args, "--force");
    push_arg(&mut args, "-v");
    if let Some(service_name) = &service {
        push_arg(&mut args, service_name.as_str());
    }
    assert(args.deep_view() =~= stop_args(service.deep_view()));
    compose(args)
}

/// Restarts every container, or just the named service.
pub fn restart(all: bool, service: &str) -> (c: Cmd)
    ensures
        all ==> c.is(compose_program(), seq!["restart"@]),
        !all ==> c.is(compose_program(), seq!["restart"@, service@]),
{
    let mut args: Vec<String> = Vec::new();
    push_arg(&mut args, "restart");
    if !all {
        push_arg(&mut args, service);
    }
    assert(all ==> args.deep_view() =~= seq!["restart"@]);
    assert(!all ==> args.deep_view() =~= seq!["restart"@, service@]);
    compose(args)
}

/// Rebuilds one service: stop and remove it, build its image, then bring
/// it back up. Every step is fatal, as each later step depends on the
/// previous one.
pub fn rebuild(service: &str) -> (plan: Vec<Step>)
    ensures
        plan.len() == 3,
        plan[0].is(compose_program(), stop_args(Some(service@)), true),
        plan[1].is(compose_program(), build_args(Some(service@)), true),
        plan[2].is(compose_program(), up_args(Some(service@)), true),
{
    let mut plan: Vec<Step> = Vec::new();
    plan.push(Step { cmd: stop(Some(service.to_owned())), fatal: true });
    plan.push(Step { cmd: build(service), fatal: true });
    let mut args: Vec<String> = Vec::new();
    push_arg(&mut args, "up");
    push_arg(&mut args, "-d");
    push_arg(&mut args, "--remove-orphans");
    push_arg(&mut args, service);
    assert(args.deep_view() =~= up_args(Some(service@)));
    plan.push(Step { cmd: compose(args), fatal: true });
    plan
}

/// Builds the image of one service.
pub fn build(service: &str) -> (c: Cmd)
    ensures
        c.is(compose_program(), seq!["build"@, "--force-rm"@, service@]),
{
    let mut args: Vec<String> = Vec::new();
    push_arg(&mut args, "build");
    push_arg(&mut args, "--force-rm");
    push_arg(&mut args, service);
    assert(args.deep_view() =~= seq!["build"@, "--force-rm"@, service@]);
    compose(args)
}

/// Shows the status of all containers.
pub fn status() -> (c: Cmd)
    ensures
        c.is(compose_program(), seq!["ps"@, "--all"@]),
{
    let mut args: Vec<String> = Vec::new();
    push_arg(&mut args, "ps");
    push_arg(&mut args, "--all");
    assert(args.deep_view() =~= seq!["ps"@, "--all"@]);
    compose(args)
}

/// The `--tail=<n>` argument of [`logs`].
pub open spec fn tail_arg(num_lines: int) -> Seq<char> {
    "--tail="@ + crate::numstr::int_to_decimal(num_lines)
}

/// Shows the timestamped log tail of one service, optionally following it.
pub fn logs(service: &str, num_lines: i32, follow: bool) -> (c: Cmd)
    ensures
        follow ==> c.is(
            compose_program(),
            seq!["logs"@, "--timestamps"@, tail_arg(num_lines as int), "--follow"@, service@],
        ),
        !follow ==> c.is(
            compose_program(),
            seq!["logs"@, "--timestamps"@, tail_arg(num_lines as int), service@],
        ),
{
    let tail = "--tail=".to_owned().concat(i32_to_string(num_lines).as_str());
    let mut args: Vec<String> = Vec::new();
    push_arg(&mut args, "logs");
    push_arg(&mut args, "--timestamps");
    push_arg_string(&mut args, tail);
    if follow {
        push_arg(&mut args, "--follow");
    }
    push_arg(&mut args, service);
    assert(follow ==> args.deep_view() =~= seq![
        "logs"@, "--timestamps"@, tail_arg(num_lines as int), "--follow"@, service@,
    ]);
    assert(!follow ==> args.deep_view() =~= seq![
        "logs"@, "--timestamps"@, tail_arg(num_lines as int), service@,
    ]);
    compose(args)
}

/// The argument list that runs `cmd_args` inside `service`'s container,
/// optionally from a working directory.
pub open spec fn exec_args(
    service: Seq<char>,
    cmd_args: Seq<Seq<char>>,
    workdir: Option<Seq<char>>,
) -> Seq<Seq<char>> {
    match workdir {
        Some(dir) => seq!["exec"@, "--workdir"@, dir, service] + cmd_args,
        None => seq!["exec"@, service] + cmd_args,
    }
}

/// Executes an arbitrary command inside the named service's container.
pub fn exec(service: &str, cmd_args: Vec<String>, workdir: Option<String>) -> (c: Cmd)
    ensures
        c.is(compose_program(), exec_args(service@, cmd_args.deep_view(), workdir.deep_view())),
{
    let mut args: Vec<String> = Vec::new();
    push_arg(&mut args, "exec");
    if let Some(working_dir) = &workdir {
        push_arg(&mut args, "--workdir");
        push_arg(&mut args, working_dir.as_str());
    }
    push_arg(&mut args, service);
    let ghost head = args.deep_view();
    let mut rest = cmd_args;
    let rest_len = rest.len();
    for i in 0..rest_len
        invariant
            rest_len == rest.len(),
            args.deep_view() == head + rest.deep_view().take(i as int),
    {
        let arg = rest[i].clone();
        push_arg_string(&mut args, arg);
        assert(rest.deep_view().take(i + 1) =~= rest.deep_view().take(i as int).push(
            rest.deep_view()[i as int],
        ));
    }
    assert(rest.deep_view().take(rest_len as int) =~= rest.deep_view());
    assert(args.deep_view() =~= exec_args(service@, rest.deep_view(), workdir.deep_view()));
    compose(args)
}

} // verus!
