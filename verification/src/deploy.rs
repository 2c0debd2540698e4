//! One deployment run, from packaging to cleanup.
//!
//! `DeployRun` threads the run's lifecycle: package the project tree
//! into a local archive, establish the session, upload the archive,
//! drive the remote command pipeline, and finally remove the local
//! archive. The caller performs each phase's work (with the packager,
//! the session setup, the upload plan and the sequencer) and reports how
//! it went; the machine fixes the order, aborts the rest of the run on
//! the first failure, and makes the cleanup phase — which removes the
//! local archive — run exactly when packaging succeeded, however far the
//! run got, so repeated invocations cannot leak temporary archives.

use vstd::prelude::*;

use crate::error::DeployError;

verus! {

/// The phase a deployment run is in, in execution order.
#[derive(Clone, Copy, PartialEq, Eq, Structural, Debug)]
pub enum DeployPhase {
    /// The project tree is being packaged into the local archive file.
    Packaging,
    /// The authenticated session is being established.
    Connecting,
    /// The archive's bytes are being written to the upload channel.
    Uploading,
    /// The remote command pipeline is running.
    Running,
    /// The local archive file is being removed.
    CleaningUp,
    /// The run is over.
    Finished,
}

/// Why a run did not succeed.
#[derive(Clone, Debug)]
pub enum RunFailure {
    /// A component failed with a structured error.
    Error(DeployError),
    /// A remote step exited with non-zero status; the text is the
    /// description of exactly that step.
    StepFailed(String),
}

/// The position of a phase in the run's order.
pub open spec fn phase_index(p: DeployPhase) -> int {
    match p {
        DeployPhase::Packaging => 0,
        DeployPhase::Connecting => 1,
        DeployPhase::Uploading => 2,
        DeployPhase::Running => 3,
        DeployPhase::CleaningUp => 4,
        DeployPhase::Finished => 5,
    }
}

/// The lifecycle of one deployment run.
pub struct DeployRun {
    phase: DeployPhase,
    archive: Option<String>,
    failure: Option<RunFailure>,
}

impl DeployRun {
    /// The phase the run is in.
    pub closed spec fn spec_phase(&self) -> DeployPhase {
        self.phase
    }

    /// The local archive's file name, once packaging has produced it.
    pub closed spec fn spec_archive(&self) -> Option<Seq<char>> {
        match self.archive {
            Some(name) => Some(name@),
            None => None,
        }
    }

    /// The recorded failure, if the run has one.
    pub closed spec fn spec_failure(&self) -> Option<RunFailure> {
        self.failure
    }

    /// The machine is well formed: an archive name exists exactly from
    /// successful packaging on, and a failure is only recorded once the
    /// run is past the phase it failed in.
    pub open spec fn inv(&self) -> bool {
        &&& match self.spec_phase() {
            DeployPhase::Packaging => self.spec_archive() is None && self.spec_failure() is None,
            DeployPhase::Connecting => self.spec_archive() is Some && self.spec_failure() is None,
            DeployPhase::Uploading => self.spec_archive() is Some && self.spec_failure() is None,
            DeployPhase::Running => self.spec_archive() is Some && self.spec_failure() is None,
            DeployPhase::CleaningUp => self.spec_archive() is Some,
            DeployPhase::Finished => true,
        }
    }

    /// A fresh run, about to package the project tree.
    pub fn new() -> (r: DeployRun)
        ensures
            r.inv(),
            r.spec_phase() == DeployPhase::Packaging,
            r.spec_archive() is None,
            r.spec_failure() is None,
    {
        DeployRun { phase: DeployPhase::Packaging, archive: None, failure: None }
    }

    /// The phase the run is in.
    pub fn phase(&self) -> (p: DeployPhase)
        ensures
            p == self.spec_phase(),
    {
        self.phase
    }

    /// The local archive's file name, once packaging has produced it.
    pub fn archive_name(&self) -> (r: Option<&String>)
        ensures
            match r {
                Some(name) => self.spec_archive() == Some(name@),
                None => self.spec_archive() is None,
            },
    {
        match &self.archive {
            Some(name) => Some(name),
            None => None,
        }
    }

    /// The recorded failure, if the run has one.
    pub fn failure(&self) -> (r: Option<&RunFailure>)
        ensures
            match r {
                Some(f) => self.spec_failure() == Some(*f),
                None => self.spec_failure() is None,
            },
    {
        match &self.failure {
            Some(f) => Some(f),
            None => None,
        }
    }

    /// The run is over and nothing failed.
    pub fn succeeded(&self) -> (r: bool)
        ensures
            r == (self.spec_phase() == DeployPhase::Finished && self.spec_failure() is None),
    {
        match (&self.phase, &self.failure) {
            (DeployPhase::Finished, None) => true,
            _ => false,
        }
    }

    /// Packaging produced the named local archive: the run moves on to
    /// establishing the session.
    pub fn packaged(&mut self, archive: String)
        requires
            old(self).inv(),
            old(self).spec_phase() == DeployPhase::Packaging,
        ensures
            final(self).inv(),
            final(self).spec_phase() == DeployPhase::Connecting,
            final(self).spec_archive() == Some(archive@),
            final(self).spec_failure() is None,
            phase_index(final(self).spec_phase()) > phase_index(old(self).spec_phase()),
    {
        self.phase = DeployPhase::Connecting;
        self.archive = Some(archive);
    }

    /// Packaging failed: there is no archive to clean up, so the run is
    /// over at once.
    pub fn packaging_failed(&mut self, error: DeployError)
        requires
            old(self).inv(),
            old(self).spec_phase() == DeployPhase::Packaging,
        ensures
            final(self).inv(),
            final(self).spec_phase() == DeployPhase::Finished,
            final(self).spec_archive() is None,
            final(self).spec_failure() == Some(RunFailure::Error(error)),
            phase_index(final(self).spec_phase()) > phase_index(old(self).spec_phase()),
    {
        self.phase = DeployPhase::Finished;
        self.failure = Some(RunFailure::Error(error));
    }

    /// The session is established: the run moves on to the upload.
    pub fn session_ready(&mut self)
        requires
            old(self).inv(),
            old(self).spec_phase() == DeployPhase::Connecting,
        ensures
            final(self).inv(),
            final(self).spec_phase() == DeployPhase::Uploading,
            final(self).spec_archive() == old(self).spec_archive(),
            final(self).spec_failure() is None,
            phase_index(final(self).spec_phase()) > phase_index(old(self).spec_phase()),
    {
        self.phase = DeployPhase::Uploading;
    }

    /// Establishing the session failed: the rest of the remote work is
    /// skipped, but the local archive still has to be removed.
    pub fn session_failed(&mut self, error: DeployError)
        requires
            old(self).inv(),
            old(self).spec_phase() == DeployPhase::Connecting,
        ensures
            final(self).inv(),
            final(self).spec_phase() == DeployPhase::CleaningUp,
            final(self).spec_archive() == old(self).spec_archive(),
            final(self).spec_failure() == Some(RunFailure::Error(error)),
            phase_index(final(self).spec_phase()) > phase_index(old(self).spec_phase()),
    {
        self.phase = DeployPhase::CleaningUp;
        self.failure = Some(RunFailure::Error(error));
    }

    /// The whole archive was written to the channel: the run moves on to
    /// the remote command pipeline.
    pub fn uploaded(&mut self)
        requires
            old(self).inv(),
            old(self).spec_phase() == DeployPhase::Uploading,
        ensures
            final(self).inv(),
            final(self).spec_phase() == DeployPhase::Running,
            final(self).spec_archive() == old(self).spec_archive(),
            final(self).spec_failure() is None,
            phase_index(final(self).spec_phase()) > phase_index(old(self).spec_phase()),
    {
        self.phase = DeployPhase::Running;
    }

    /// The upload failed: the remote pipeline is skipped, but the local
    /// archive still has to be removed.
    pub fn upload_failed(&mut self, error: DeployError)
        requires
            old(self).inv(),
            old(self).spec_phase() == DeployPhase::Uploading,
        ensures
            final(self).inv(),
            final(self).spec_phase() == DeployPhase::CleaningUp,
            final(self).spec_archive() == old(self).spec_archive(),
            final(self).spec_failure() == Some(RunFailure::Error(error)),
            phase_index(final(self).spec_phase()) > phase_index(old(self).spec_phase()),
    {
        self.phase = DeployPhase::CleaningUp;
        self.failure = Some(RunFailure::Error(error));
    }

    /// Every remote step ran and none failed: only the local cleanup is
    /// left.
    pub fn steps_succeeded(&mut self)
        requires
            old(self).inv(),
            old(self).spec_phase() == DeployPhase::Running,
        ensures
            final(self).inv(),
            final(self).spec_phase() == DeployPhase::CleaningUp,
            final(self).spec_archive() == old(self).spec_archive(),
            final(self).spec_failure() is None,
            phase_index(final(self).spec_phase()) > phase_index(old(self).spec_phase()),
    {
        self.phase = DeployPhase::CleaningUp;
    }

    /// The remote command machinery itself failed mid-pipeline: the
    /// remaining steps are skipped, but the local archive still has to
    /// be removed.
    pub fn remote_failed(&mut self, error: DeployError)
        requires
            old(self).inv(),
            old(self).spec_phase() == DeployPhase::Running,
        ensures
            final(self).inv(),
            final(self).spec_phase() == DeployPhase::CleaningUp,
            final(self).spec_archive() == old(self).spec_archive(),
            final(self).spec_failure() == Some(RunFailure::Error(error)),
            phase_index(final(self).spec_phase()) > phase_index(old(self).spec_phase()),
    {
        self.phase = DeployPhase::CleaningUp;
        self.failure = Some(RunFailure::Error(error));
    }

    /// A remote step exited with non-zero status: the later steps are
    /// skipped and the failure names the step, but the local archive
    /// still has to be removed.
    pub fn step_failed(&mut self, description: String)
        requires
            old(self).inv(),
            old(self).spec_phase() == DeployPhase::Running,
        ensures
            final(self).inv(),
            final(self).spec_phase() == DeployPhase::CleaningUp,
            final(self).spec_archive() == old(self).spec_archive(),
            final(self).spec_failure() == Some(RunFailure::StepFailed(description)),
            phase_index(final(self).spec_phase()) > phase_index(old(self).spec_phase()),
    {
        self.phase = DeployPhase::CleaningUp;
        self.failure = Some(RunFailure::StepFailed(description));
    }

    /// The local archive was removed: the run is over, with whatever
    /// outcome the remote work had.
    pub fn cleanup_done(&mut self)
        requires
            old(self).inv(),
            old(self).spec_phase() == DeployPhase::CleaningUp,
        ensures
            final(self).inv(),
            final(self).spec_phase() == DeployPhase::Finished,
            final(self).spec_archive() == old(self).spec_archive(),
            final(self).spec_failure() == old(self).spec_failure(),
            phase_index(final(self).spec_phase()) > phase_index(old(self).spec_phase()),
    {
        self.phase = DeployPhase::Finished;
    }

    /// Law (cleanup exactly when packaging succeeded): in the cleanup
    /// phase there is always an archive to remove; and since every
    /// transition strictly increases the phase index, no phase — the
    /// cleanup phase included — can ever be entered twice, so the local
    /// archive is removed at most once, and the only path that skips
    /// cleanup is the one where packaging itself failed and left nothing
    /// behind.
    pub proof fn lemma_cleanup_has_archive(&self)
        requires
            self.inv(),
            self.spec_phase() == DeployPhase::CleaningUp,
        ensures
            self.spec_archive() is Some,
    {
    }
}

} // verus!
