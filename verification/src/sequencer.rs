//! The remote command sequencer.
//!
//! One deployment runs a fixed, ordered pipeline of shell commands on the
//! remote host: clear the web directory, recreate it, extract the uploaded
//! archive, copy it into place, stop the running containers, rebuild and
//! start the services, and remove the uploaded archive. Every step is
//! fatal: a non-zero exit status halts the run at that step and the
//! failure names the step's description. The caller executes each command
//! over the session and reports the [`StepResult`] back.

use vstd::prelude::*;

use crate::runner::StepRunner;

verus! {

/// One remote command of the pipeline: its shell text, a human-readable
/// description used in failure reports, and whether its failure is fatal
/// to the run.
pub struct RemoteStep {
    pub command: String,
    pub description: String,
    pub fatal: bool,
}

impl RemoteStep {
    /// The step runs exactly `command`, described as `description`, and is
    /// fatal.
    pub open spec fn is(&self, command: Seq<char>, description: Seq<char>) -> bool {
        self.command@ == command && self.description@ == description && self.fatal
    }
}

/// What one remote command execution produced: the combined output text
/// and the command's exit status.
pub struct StepResult {
    pub output: String,
    pub exit_code: i32,
}

impl StepResult {
    /// A step succeeded exactly when its command exited with status zero.
    pub open spec fn ok(&self) -> bool {
        self.exit_code == 0
    }
}

/// The target deployment directory of `user` on the remote host.
pub open spec fn web_dir(user: Seq<char>) -> Seq<char> {
    "/home/"@ + user + "/web"@
}

/// The fixed temporary path the archive is uploaded to.
pub open spec fn remote_archive_path(archive: Seq<char>) -> Seq<char> {
    "/tmp/"@ + archive
}

/// The shell text of each pipeline step, in order.
pub open spec fn pipeline_commands(user: Seq<char>, archive: Seq<char>) -> Seq<Seq<char>> {
    seq![
        "rm -rf "@ + web_dir(user),
        "mkdir -p "@ + web_dir(user),
        "tar -xzvf "@ + remote_archive_path(archive) + " -C /tmp"@,
        "cp -r /tmp/build/* "@ + web_dir(user),
        "cd "@ + web_dir(user) + "; docker-compose rm -s -f"@,
        "cd "@ + web_dir(user) + "; docker-compose up -d --build"@,
        "rm -rf "@ + remote_archive_path(archive),
    ]
}

/// The description of each pipeline step, in order.
pub open spec fn pipeline_descriptions() -> Seq<Seq<char>> {
    seq![
        "clear the web directory"@,
        "create the web directory"@,
        "extract the deployment package"@,
        "copy the package into the web directory"@,
        "stop the running containers"@,
        "rebuild and start the services"@,
        "remove the uploaded archive from the remote host"@,
    ]
}

/// Builds the `/home/<user>/web` path.
fn web_dir_string(user: &str) -> (r: String)
    ensures
        r@ == web_dir(user@),
{
    "/home/".to_owned().concat(user).concat("/web")
}

/// Builds the `/tmp/<archive>` path.
pub fn remote_archive_path_string(archive: &str) -> (r: String)
    ensures
        r@ == remote_archive_path(archive@),
{
    "/tmp/".to_owned().concat(archive)
}

/// Builds one fatal pipeline step.
fn step(command: String, description: &str) -> (s: RemoteStep)
    ensures
        s.is(command@, description@),
{
    RemoteStep { command, description: description.to_owned(), fatal: true }
}

/// The fixed redeploy pipeline for `user`'s web directory and the named
/// uploaded archive. The target directory is cleared before anything is
/// copied into it, so the outcome does not depend on what it held before.
pub fn deploy_steps(user: &str, archive: &str) -> (steps: Vec<RemoteStep>)
    ensures
        steps.len() == pipeline_commands(user@, archive@).len(),
        forall|i: int|
            0 <= i < steps.len() ==> #[trigger] steps[i].is(
                pipeline_commands(user@, archive@)[i],
                pipeline_descriptions()[i],
            ),
{
    let web = web_dir_string(user);
    let tmp = remote_archive_path_string(archive);
    let mut steps: Vec<RemoteStep> = Vec::new();
    steps.push(
        step("rm -rf ".to_owned().concat(web.as_str()), "clear the web directory"),
    );
    steps.push(
        step("mkdir -p ".to_owned().concat(web.as_str()), "create the web directory"),
    );
    steps.push(
        step(
            "tar -xzvf ".to_owned().concat(tmp.as_str()).concat(" -C /tmp"),
            "extract the deployment package",
        ),
    );
    steps.push(
        step(
            "cp -r /tmp/build/* ".to_owned().concat(web.as_str()),
            "copy the package into the web directory",
        ),
    );
    steps.push(
        step(
            "cd ".to_owned().concat(web.as_str()).concat("; docker-compose rm -s -f"),
            "stop the running containers",
        ),
    );
    steps.push(
        step(
            "cd ".to_owned().concat(web.as_str()).concat("; docker-compose up -d --build"),
            "rebuild and start the services",
        ),
    );
    steps.push(
        step("rm -rf ".to_owned().concat(tmp.as_str()), "remove the uploaded archive from the remote host"),
    );
    steps
}

/// Executes an ordered list of remote steps with stop-on-first-failure
/// semantics: the caller runs the offered command over the session and
/// records its result; a non-zero exit status of a fatal step halts the
/// sequence there, and later steps are never offered.
pub struct Sequencer {
    steps: Vec<RemoteStep>,
    runner: StepRunner,
}

impl Sequencer {
    /// The steps of the sequence, in order.
    pub closed spec fn spec_steps(&self) -> Seq<RemoteStep> {
        self.steps@
    }

    /// How many steps have been started.
    pub closed spec fn spec_started(&self) -> int {
        self.runner.spec_started()
    }

    /// The index of the fatally failed step, if one has failed.
    pub closed spec fn spec_failed_at(&self) -> Option<int> {
        self.runner.spec_failed_at()
    }

    /// The index of the step offered next, if the sequence has not halted.
    pub closed spec fn spec_current(&self) -> Option<int> {
        self.runner.spec_current()
    }

    /// Every step ran and none failed.
    pub closed spec fn spec_succeeded(&self) -> bool {
        self.runner.spec_succeeded()
    }

    /// The sequencer is well formed.
    pub closed spec fn inv(&self) -> bool {
        &&& self.runner.inv()
        &&& self.runner.spec_fatal() == self.steps@.map_values(|s: RemoteStep| s.fatal)
    }

    /// A fresh sequencer over the given steps, nothing started yet.
    pub fn new(steps: Vec<RemoteStep>) -> (s: Sequencer)
        ensures
            s.inv(),
            s.spec_steps() == steps@,
            s.spec_started() == 0,
            s.spec_failed_at() is None,
    {
        let mut fatal: Vec<bool> = Vec::new();
        let n = steps.len();
        for i in 0..n
            invariant
                n == steps.len(),
                fatal@ == steps@.map_values(|s: RemoteStep| s.fatal).take(i as int),
        {
            fatal.push(steps[i].fatal);
            assert(steps@.map_values(|s: RemoteStep| s.fatal).take(i + 1) =~= steps@.map_values(
                |s: RemoteStep| s.fatal,
            ).take(i as int).push(steps@[i as int].fatal));
        }
        assert(fatal@ =~= steps@.map_values(|s: RemoteStep| s.fatal));
        Sequencer { steps, runner: StepRunner::new(fatal) }
    }

    /// The step the caller must run next, or `None` when the sequence has
    /// halted (a fatal failure, or all steps done).
    pub fn current_step(&self) -> (r: Option<&RemoteStep>)
        requires
            self.inv(),
        ensures
            match r {
                Some(s) => {
                    &&& self.spec_current() matches Some(i)
                    &&& *s == self.spec_steps()[self.spec_current().unwrap()]
                },
                None => self.spec_current() is None,
            },
    {
        match self.runner.current() {
            Some(i) => Some(&self.steps[i]),
            None => None,
        }
    }

    /// Records the result of the step offered by `current_step`: exit
    /// status zero moves on to the next step, any other exit status halts
    /// the sequence at this step.
    pub fn record(&mut self, result: &StepResult)
        requires
            old(self).inv(),
            old(self).spec_current() is Some,
        ensures
            final(self).inv(),
            final(self).spec_steps() == old(self).spec_steps(),
            final(self).spec_failed_at() is None || final(self).spec_failed_at() == Some(
                old(self).spec_started(),
            ),
            result.ok() || !old(self).spec_steps()[old(self).spec_started()].fatal ==> {
                &&& final(self).spec_started() == old(self).spec_started() + 1
                &&& final(self).spec_failed_at() is None
            },
            !result.ok() && old(self).spec_steps()[old(self).spec_started()].fatal ==> {
                &&& final(self).spec_failed_at() == Some(old(self).spec_started())
                &&& final(self).spec_current() is None
            },
    {
        proof {
            assert(self.runner.spec_fatal()[self.runner.spec_started()] == self.steps@[
                self.runner.spec_started()
            ].fatal);
        }
        self.runner.record(result.exit_code == 0);
    }

    /// Every step ran and none failed.
    pub fn succeeded(&self) -> (r: bool)
        requires
            self.inv(),
        ensures
            r == self.spec_succeeded(),
    {
        self.runner.succeeded()
    }

    /// The description of the fatally failed step, if one has failed: the
    /// failure report names exactly the step that returned a non-zero
    /// exit status.
    pub fn failure_description(&self) -> (r: Option<&String>)
        requires
            self.inv(),
        ensures
            match r {
                Some(d) => {
                    &&& self.spec_failed_at() matches Some(i)
                    &&& d@ == self.spec_steps()[self.spec_failed_at().unwrap()].description@
                },
                None => self.spec_failed_at() is None,
            },
    {
        match self.runner.failed_step() {
            Some(i) => Some(&self.steps[i].description),
            None => None,
        }
    }

    /// Law (what is offered): a well-formed sequencer offers the step at
    /// the started count exactly while nothing has failed and steps
    /// remain — so a fresh sequencer offers its first step, and a halted
    /// one offers none.
    pub proof fn lemma_current_characterized(&self)
        requires
            self.inv(),
        ensures
            self.spec_current() == (if self.spec_failed_at() is None && self.spec_started()
                < self.spec_steps().len() {
                Some(self.spec_started())
            } else {
                Option::<int>::None
            }),
    {
        assert(self.runner.spec_fatal().len() == self.spec_steps().len());
    }

    /// Law (what success means): a well-formed sequencer succeeded
    /// exactly when nothing failed and every step of the plan was
    /// started.
    pub proof fn lemma_succeeded_characterized(&self)
        requires
            self.inv(),
        ensures
            self.spec_succeeded() == (self.spec_failed_at() is None && self.spec_started()
                == self.spec_steps().len()),
    {
        assert(self.runner.spec_fatal().len() == self.spec_steps().len());
    }

    /// Law (sequential short-circuit): when a step has failed, the run has
    /// started exactly the steps up to and including that one — every
    /// later step was never offered and never ran — and no further step
    /// will ever be offered.
    pub proof fn lemma_short_circuit(&self)
        requires
            self.inv(),
            self.spec_failed_at() is Some,
        ensures
            self.spec_started() == self.spec_failed_at().unwrap() + 1,
            self.spec_current() is None,
    {
    }
}

/// A directory's contents, as a map from relative path to file bytes.
pub type DirContents = Map<Seq<char>, Seq<u8>>;

/// The effect of the clear step on the web directory: nothing survives.
pub open spec fn after_clear(dir: DirContents) -> DirContents {
    Map::empty()
}

/// The effect of the extract-and-copy steps on the web directory: the
/// archive's payload lands in it, replacing files of the same name.
pub open spec fn after_copy(dir: DirContents, payload: DirContents) -> DirContents {
    dir.union_prefer_right(payload)
}

/// What the pipeline leaves in the web directory when every step
/// succeeds: it is cleared first, then filled with the archive's payload.
/// The container and cleanup steps do not change files in it.
pub open spec fn web_after_pipeline(before: DirContents, payload: DirContents) -> DirContents {
    after_copy(after_clear(before), payload)
}

/// Law (idempotent redeploy): because the pipeline clears the target
/// directory before copying the archive's payload into it, its outcome
/// does not depend on what the directory held — so deploying the same
/// payload twice leaves exactly what deploying it once leaves, with no
/// stale files accumulating.
pub proof fn lemma_redeploy_idempotent(before: DirContents, payload: DirContents)
    ensures
        web_after_pipeline(web_after_pipeline(before, payload), payload) == web_after_pipeline(
            before,
            payload,
        ),
        forall|other: DirContents| #[trigger] web_after_pipeline(other, payload)
            == web_after_pipeline(before, payload),
{
    assert forall|other: DirContents| #[trigger] web_after_pipeline(other, payload)
        == web_after_pipeline(before, payload) by {
        assert(web_after_pipeline(other, payload) =~= web_after_pipeline(before, payload));
    }
}

} // verus!
