//! The per-job pipeline state machine.
//!
//! One job clones a repository into its own workspace, runs preparation
//! steps, times a benchmark command and removes the workspace again. The
//! stages run strictly in that order; any stage may fail instead, and after
//! a failure the job still tears its workspace down (when one was created)
//! before it finishes. The machine here takes the outcome of each stage as
//! a plain event and decides what happens next; the surrounding binary
//! performs the filesystem and process work for the pending action and
//! feeds the outcome back in.

use vstd::prelude::*;

use crate::command::CommandDetail;

verus! {

/// The pipeline stage in which a failure occurred.
#[derive(Clone, Copy, Debug, PartialEq, Eq, Structural)]
pub enum Stage {
    Workspace,
    Fetch,
    Prepare,
    Execute,
    Cleanup,
}

/// The state of one job's pipeline. Stages advance strictly in order
/// `Created -> WorkspaceReady -> Fetched -> Prepared -> Executed ->
/// TornDown -> Done`; any stage may instead move to `Failed`, from which
/// only teardown and finishing remain.
#[derive(Clone, Copy, Debug, PartialEq, Eq, Structural)]
pub enum JobState {
    Created,
    WorkspaceReady,
    Fetched,
    Prepared,
    Executed,
    TornDown,
    Failed { stage: Stage },
    Done,
}

/// The outcome of one stage, reported by the code that performed it.
#[derive(Debug)]
pub enum StageEvent {
    WorkspaceCreated,
    WorkspaceFailed { cause: String },
    Fetched,
    FetchFailed { cause: String },
    Prepared,
    PrepareFailed { step: usize, cause: String },
    Executed { elapsed_ms: u64 },
    ExecuteFailed { cause: String },
    CleanedUp,
    CleanupFailed { cause: String },
}

/// The work a job asks its driver to perform next.
#[derive(Clone, Copy, Debug, PartialEq, Eq, Structural)]
pub enum JobAction {
    CreateWorkspace,
    Fetch,
    RunPrepare,
    RunBenchmark,
    RemoveWorkspace,
    Finish,
}

/// The first failure a job ran into: the stage, the index of the failed
/// preparation step when the stage was preparation, and the cause.
#[derive(Debug)]
pub struct JobFailure {
    pub stage: Stage,
    pub step: Option<usize>,
    pub cause: String,
}

/// How a finished job ended: a timed success, or a failure in some stage.
#[derive(Debug)]
pub enum Outcome {
    Success { elapsed_ms: u64 },
    Failure { stage: Stage, step: Option<usize>, cause: String },
}

/// The one record a job leaves behind, produced exactly once per job on
/// every exit path: the workspace identifier, the command's label, the
/// repository URL and the outcome, with a failed teardown flagged besides.
#[derive(Debug)]
pub struct JobResult {
    pub workspace_id: String,
    pub label: String,
    pub repository: String,
    pub outcome: Outcome,
    pub cleanup_failed: bool,
}

/// The control part of a job, abstracted from its strings: the pipeline
/// state, whether the workspace currently exists on disk, whether teardown
/// has been attempted, and whether teardown failed.
pub struct Machine {
    pub state: JobState,
    pub workspace_exists: bool,
    pub teardown_done: bool,
    pub cleanup_failed: bool,
}

/// The machine of a job that has not started yet.
pub open spec fn initial_machine() -> Machine {
    Machine { state: JobState::Created, workspace_exists: false, teardown_done: false, cleanup_failed: false }
}

/// Whether `ev` is a legal next event in machine `m`: each stage outcome is
/// accepted exactly in the state that awaits that stage, and teardown
/// outcomes are also accepted after a failure while the workspace still
/// stands and teardown has not been attempted.
pub open spec fn event_enabled(m: Machine, ev: StageEvent) -> bool {
    match ev {
        StageEvent::WorkspaceCreated => m.state is Created,
        StageEvent::WorkspaceFailed { .. } => m.state is Created,
        StageEvent::Fetched => m.state is WorkspaceReady,
        StageEvent::FetchFailed { .. } => m.state is WorkspaceReady,
        StageEvent::Prepared => m.state is Fetched,
        StageEvent::PrepareFailed { .. } => m.state is Fetched,
        StageEvent::Executed { .. } => m.state is Prepared,
        StageEvent::ExecuteFailed { .. } => m.state is Prepared,
        StageEvent::CleanedUp => cleanup_enabled(m),
        StageEvent::CleanupFailed { .. } => cleanup_enabled(m),
    }
}

/// Teardown runs after a successful execution, and after any failure while
/// the workspace exists and teardown has not been attempted yet.
pub open spec fn cleanup_enabled(m: Machine) -> bool {
    ||| m.state is Executed
    ||| (m.state is Failed && m.workspace_exists && !m.teardown_done)
}

/// A job may finish once it is torn down, or once it has failed and owes no
/// further teardown attempt.
pub open spec fn finish_enabled(m: Machine) -> bool {
    ||| m.state is TornDown
    ||| (m.state is Failed && (m.teardown_done || !m.workspace_exists))
}

/// The transition relation of the job machine, total over all events: an
/// event that is not enabled leaves the machine unchanged.
pub open spec fn machine_step(m: Machine, ev: StageEvent) -> Machine {
    if !event_enabled(m, ev) {
        m
    } else {
        match ev {
            StageEvent::WorkspaceCreated => Machine {
                state: JobState::WorkspaceReady,
                workspace_exists: true,
                ..m
            },
            StageEvent::WorkspaceFailed { .. } => Machine {
                state: JobState::Failed { stage: Stage::Workspace },
                ..m
            },
            StageEvent::Fetched => Machine { state: JobState::Fetched, ..m },
            StageEvent::FetchFailed { .. } => Machine {
                state: JobState::Failed { stage: Stage::Fetch },
                ..m
            },
            StageEvent::Prepared => Machine { state: JobState::Prepared, ..m },
            StageEvent::PrepareFailed { .. } => Machine {
                state: JobState::Failed { stage: Stage::Prepare },
                ..m
            },
            StageEvent::Executed { .. } => Machine { state: JobState::Executed, ..m },
            StageEvent::ExecuteFailed { .. } => Machine {
                state: JobState::Failed { stage: Stage::Execute },
                ..m
            },
            StageEvent::CleanedUp => Machine {
                state: if m.state is Executed {
                    JobState::TornDown
                } else {
                    m.state
                },
                workspace_exists: false,
                teardown_done: true,
                ..m
            },
            StageEvent::CleanupFailed { .. } => Machine {
                state: if m.state is Executed {
                    JobState::Failed { stage: Stage::Cleanup }
                } else {
                    m.state
                },
                teardown_done: true,
                cleanup_failed: true,
                ..m
            },
        }
    }
}

/// Finishing a job only marks it done; nothing else changes.
pub open spec fn machine_finish(m: Machine) -> Machine {
    Machine { state: JobState::Done, ..m }
}

/// The action a job in machine `m` awaits from its driver, `None` once it
/// is done.
pub open spec fn spec_pending(m: Machine) -> Option<JobAction> {
    match m.state {
        JobState::Created => Some(JobAction::CreateWorkspace),
        JobState::WorkspaceReady => Some(JobAction::Fetch),
        JobState::Fetched => Some(JobAction::RunPrepare),
        JobState::Prepared => Some(JobAction::RunBenchmark),
        JobState::Executed => Some(JobAction::RemoveWorkspace),
        JobState::TornDown => Some(JobAction::Finish),
        JobState::Failed { .. } => if m.workspace_exists && !m.teardown_done {
            Some(JobAction::RemoveWorkspace)
        } else {
            Some(JobAction::Finish)
        },
        JobState::Done => None,
    }
}

/// What always holds of a reachable machine. In particular: the workspace
/// exists exactly during the states between its creation and its removal,
/// teardown is attempted at most once, and a done job can only still own a
/// workspace when a cleanup failure was recorded.
pub open spec fn machine_inv(m: Machine) -> bool {
    &&& (m.state is Created ==> !m.workspace_exists && !m.teardown_done && !m.cleanup_failed)
    &&& ((m.state is WorkspaceReady || m.state is Fetched || m.state is Prepared
        || m.state is Executed) ==> m.workspace_exists && !m.teardown_done && !m.cleanup_failed)
    &&& (m.state is TornDown ==> !m.workspace_exists && m.teardown_done && !m.cleanup_failed)
    &&& (m.state matches JobState::Failed { stage } ==> {
        &&& (stage is Workspace ==> !m.workspace_exists && !m.teardown_done && !m.cleanup_failed)
        &&& (stage is Cleanup ==> m.teardown_done)
        &&& (!(stage is Workspace) && m.teardown_done ==> (m.cleanup_failed <==> m.workspace_exists))
        &&& (!(stage is Workspace) && !m.teardown_done ==> m.workspace_exists && !m.cleanup_failed)
    })
    &&& (m.state is Done ==> (m.workspace_exists ==> m.cleanup_failed))
}

/// Every step of the machine preserves the reachability invariant.
pub proof fn lemma_step_preserves_inv(m: Machine, ev: StageEvent)
    requires
        machine_inv(m),
    ensures
        machine_inv(machine_step(m, ev)),
{
}

/// The machine after a whole sequence of stage events.
pub open spec fn run_events(m: Machine, es: Seq<StageEvent>) -> Machine
    decreases es.len(),
{
    if es.len() == 0 {
        m
    } else {
        run_events(machine_step(m, es[0]), es.drop_first())
    }
}

/// The reachability invariant holds after any sequence of stage events
/// starting from a machine that satisfies it.
pub proof fn lemma_run_preserves_inv(m: Machine, es: Seq<StageEvent>)
    requires
        machine_inv(m),
    ensures
        machine_inv(run_events(m, es)),
    decreases es.len(),
{
    if es.len() > 0 {
        lemma_step_preserves_inv(m, es[0]);
        lemma_run_preserves_inv(machine_step(m, es[0]), es.drop_first());
    }
}

/// No workspace is ever leaked silently: however a fresh job's stages turn
/// out, once the job may finish, either its workspace directory is gone or
/// a cleanup failure is recorded on the result.
pub proof fn lemma_no_workspace_leak(es: Seq<StageEvent>)
    requires
        finish_enabled(run_events(initial_machine(), es)),
    ensures
        ({
            let m = machine_finish(run_events(initial_machine(), es));
            m.workspace_exists ==> m.cleanup_failed
        }),
{
    lemma_run_preserves_inv(initial_machine(), es);
}

/// Failure isolation for the fetch stage: once fetch has failed, no later
/// stage event can reach the `Prepared`, `Executed` or `TornDown` states;
/// the job only ever awaits workspace teardown or finishing.
pub proof fn lemma_fetch_failure_isolation(m: Machine, es: Seq<StageEvent>)
    requires
        m.state == (JobState::Failed { stage: Stage::Fetch }),
    ensures
        run_events(m, es).state == (JobState::Failed { stage: Stage::Fetch }),
        spec_pending(run_events(m, es)) == Some(JobAction::RemoveWorkspace)
            || spec_pending(run_events(m, es)) == Some(JobAction::Finish),
    decreases es.len(),
{
    if es.len() > 0 {
        lemma_fetch_failure_isolation(machine_step(m, es[0]), es.drop_first());
    }
}

/// One job of the harness: the paired command and repository it runs, the
/// workspace it owns, and the progress of its pipeline. The driver asks
/// `pending_action` what to do, performs it, and reports the outcome
/// through the stage methods below.
pub struct ExecutionReference {
    pub execution: CommandDetail,
    pub folder: String,
    pub path: String,
    pub credential: Option<String>,
    pub state: JobState,
    pub workspace_exists: bool,
    pub teardown_done: bool,
    pub cleanup_failed: bool,
    pub elapsed_ms: Option<u64>,
    pub failure: Option<JobFailure>,
    pub cleanup_cause: Option<String>,
}

impl ExecutionReference {
    /// The control part of this job.
    pub open spec fn machine(&self) -> Machine {
        Machine {
            state: self.state,
            workspace_exists: self.workspace_exists,
            teardown_done: self.teardown_done,
            cleanup_failed: self.cleanup_failed,
        }
    }

    /// Consistency of the job's record fields with its machine: a failed
    /// job carries the failure of its failed stage, a job past execution
    /// carries its elapsed time, and a recorded cleanup failure carries its
    /// cause.
    pub open spec fn wf(&self) -> bool {
        &&& machine_inv(self.machine())
        &&& (self.state matches JobState::Failed { stage } ==> (self.failure matches Some(f)
            && f.stage == stage))
        &&& (!(self.state is Failed) && !(self.state is Done) ==> self.failure is None)
        &&& ((self.state is Executed || self.state is TornDown) ==> self.elapsed_ms is Some)
        &&& (self.cleanup_failed ==> self.cleanup_cause is Some)
    }

    /// A fresh job for `command`, owning the workspace folder named
    /// `folder` under the working directory `cwd`, with no credential.
    pub fn new(cwd: &str, folder: &str, command: CommandDetail) -> (r: ExecutionReference)
        ensures
            r.execution == command,
            r.folder@ == folder@,
            r.path@ == cwd@ + seq!['/'] + folder@,
            r.credential is None,
            r.machine() == initial_machine(),
            r.wf(),
    {
        ExecutionReference {
            execution: command,
            folder: folder.to_owned(),
            path: crate::workspace_path(cwd, folder),
            credential: None,
            state: JobState::Created,
            workspace_exists: false,
            teardown_done: false,
            cleanup_failed: false,
            elapsed_ms: None,
            failure: None,
            cleanup_cause: None,
        }
    }

    /// The same job with a credential reference attached for authenticated
    /// fetches.
    pub fn with_credential(self, credential: Option<String>) -> (r: ExecutionReference)
        ensures
            r == (ExecutionReference { credential, ..self }),
    {
        ExecutionReference { credential, ..self }
    }

    /// The action this job awaits from its driver, `None` once it is done.
    pub fn pending_action(&self) -> (r: Option<JobAction>)
        ensures
            r == spec_pending(self.machine()),
    {
        match self.state {
            JobState::Created => Some(JobAction::CreateWorkspace),
            JobState::WorkspaceReady => Some(JobAction::Fetch),
            JobState::Fetched => Some(JobAction::RunPrepare),
            JobState::Prepared => Some(JobAction::RunBenchmark),
            JobState::Executed => Some(JobAction::RemoveWorkspace),
            JobState::TornDown => Some(JobAction::Finish),
            JobState::Failed { .. } => if self.workspace_exists && !self.teardown_done {
                Some(JobAction::RemoveWorkspace)
            } else {
                Some(JobAction::Finish)
            },
            JobState::Done => None,
        }
    }

    /// Record the outcome of workspace creation. On success the job is
    /// ready to fetch; on failure it fails in the workspace stage before
    /// anything was created, so no teardown is owed.
    pub fn host(&mut self, ev: StageEvent)
        requires
            old(self).wf(),
            old(self).state is Created,
            ev is WorkspaceCreated || ev is WorkspaceFailed,
        ensures
            final(self).machine() == machine_step(old(self).machine(), ev),
            final(self).wf(),
            final(self).execution == old(self).execution,
            final(self).folder == old(self).folder,
            final(self).path == old(self).path,
            final(self).credential == old(self).credential,
            final(self).elapsed_ms == old(self).elapsed_ms,
            final(self).cleanup_cause == old(self).cleanup_cause,
            (ev matches StageEvent::WorkspaceFailed { cause } ==> final(self).failure
                == Some(JobFailure { stage: Stage::Workspace, step: None, cause })),
            (ev is WorkspaceCreated ==> final(self).failure == old(self).failure),
    {
        match ev {
            StageEvent::WorkspaceCreated => {
                self.state = JobState::WorkspaceReady;
                self.workspace_exists = true;
            },
            StageEvent::WorkspaceFailed { cause } => {
                self.state = JobState::Failed { stage: Stage::Workspace };
                self.failure = Some(JobFailure { stage: Stage::Workspace, step: None, cause });
            },
            _ => unreached(),
        }
    }

    /// Record the outcome of the fetch stage (the clone of the repository
    /// into the workspace).
    pub fn clone(&mut self, ev: StageEvent)
        requires
            old(self).wf(),
            old(self).state is WorkspaceReady,
            ev is Fetched || ev is FetchFailed,
        ensures
            final(self).machine() == machine_step(old(self).machine(), ev),
            final(self).wf(),
            final(self).execution == old(self).execution,
            final(self).folder == old(self).folder,
            final(self).path == old(self).path,
            final(self).credential == old(self).credential,
            final(self).elapsed_ms == old(self).elapsed_ms,
            final(self).cleanup_cause == old(self).cleanup_cause,
            (ev matches StageEvent::FetchFailed { cause } ==> final(self).failure
                == Some(JobFailure { stage: Stage::Fetch, step: None, cause })),
            (ev is Fetched ==> final(self).failure == old(self).failure),
    {
        match ev {
            StageEvent::Fetched => {
                self.state = JobState::Fetched;
            },
            StageEvent::FetchFailed { cause } => {
                self.state = JobState::Failed { stage: Stage::Fetch };
                self.failure = Some(JobFailure { stage: Stage::Fetch, step: None, cause });
            },
            _ => unreached(),
        }
    }

    /// Record the outcome of the preparation stage: either every step ran
    /// to a zero exit, or the first failing step's index and cause.
    pub fn prepare(&mut self, ev: StageEvent)
        requires
            old(self).wf(),
            old(self).state is Fetched,
            ev is Prepared || ev is PrepareFailed,
        ensures
            final(self).machine() == machine_step(old(self).machine(), ev),
            final(self).wf(),
            final(self).execution == old(self).execution,
            final(self).folder == old(self).folder,
            final(self).path == old(self).path,
            final(self).credential == old(self).credential,
            final(self).elapsed_ms == old(self).elapsed_ms,
            final(self).cleanup_cause == old(self).cleanup_cause,
            (ev matches StageEvent::PrepareFailed { step, cause } ==> final(self).failure
                == Some(JobFailure { stage: Stage::Prepare, step: Some(step), cause })),
            (ev is Prepared ==> final(self).failure == old(self).failure),
    {
        match ev {
            StageEvent::Prepared => {
                self.state = JobState::Prepared;
            },
            StageEvent::PrepareFailed { step, cause } => {
                self.state = JobState::Failed { stage: Stage::Prepare };
                self.failure = Some(JobFailure { stage: Stage::Prepare, step: Some(step), cause });
            },
            _ => unreached(),
        }
    }

    /// Record the outcome of the benchmark execution: the measured
    /// wall-clock time on success, or the spawn failure's cause.
    pub fn execute(&mut self, ev: StageEvent)
        requires
            old(self).wf(),
            old(self).state is Prepared,
            ev is Executed || ev is ExecuteFailed,
        ensures
            final(self).machine() == machine_step(old(self).machine(), ev),
            final(self).wf(),
            final(self).execution == old(self).execution,
            final(self).folder == old(self).folder,
            final(self).path == old(self).path,
            final(self).credential == old(self).credential,
            final(self).cleanup_cause == old(self).cleanup_cause,
            (ev matches StageEvent::Executed { elapsed_ms } ==> final(self).elapsed_ms
                == Some(elapsed_ms) && final(self).failure == old(self).failure),
            (ev matches StageEvent::ExecuteFailed { cause } ==> final(self).failure
                == Some(JobFailure { stage: Stage::Execute, step: None, cause })
                && final(self).elapsed_ms == old(self).elapsed_ms),
    {
        match ev {
            StageEvent::Executed { elapsed_ms } => {
                self.state = JobState::Executed;
                self.elapsed_ms = Some(elapsed_ms);
            },
            StageEvent::ExecuteFailed { cause } => {
                self.state = JobState::Failed { stage: Stage::Execute };
                self.failure = Some(JobFailure { stage: Stage::Execute, step: None, cause });
            },
            _ => unreached(),
        }
    }

    /// Record the outcome of workspace teardown. After a successful run a
    /// teardown failure becomes the job's failure; after an earlier failure
    /// it is recorded as a secondary diagnostic and the original cause
    /// stands.
    pub fn cleanup(&mut self, ev: StageEvent)
        requires
            old(self).wf(),
            cleanup_enabled(old(self).machine()),
            ev is CleanedUp || ev is CleanupFailed,
        ensures
            final(self).machine() == machine_step(old(self).machine(), ev),
            final(self).wf(),
            final(self).execution == old(self).execution,
            final(self).folder == old(self).folder,
            final(self).path == old(self).path,
            final(self).credential == old(self).credential,
            final(self).elapsed_ms == old(self).elapsed_ms,
            (ev is CleanedUp ==> final(self).failure == old(self).failure
                && final(self).cleanup_cause == old(self).cleanup_cause),
            (ev matches StageEvent::CleanupFailed { cause } ==> {
                &&& final(self).cleanup_cause == Some(cause)
                &&& (old(self).state is Executed ==> final(self).failure
                    == Some(JobFailure { stage: Stage::Cleanup, step: None, cause }))
                &&& (old(self).state is Failed ==> final(self).failure == old(self).failure)
            }),
    {
        match ev {
            StageEvent::CleanedUp => {
                if matches!(self.state, JobState::Executed) {
                    self.state = JobState::TornDown;
                }
                self.workspace_exists = false;
                self.teardown_done = true;
            },
            StageEvent::CleanupFailed { cause } => {
                if matches!(self.state, JobState::Executed) {
                    self.state = JobState::Failed { stage: Stage::Cleanup };
                    self.failure = Some(
                        JobFailure { stage: Stage::Cleanup, step: None, cause: cause.clone() },
                    );
                }
                self.cleanup_cause = Some(cause);
                self.teardown_done = true;
                self.cleanup_failed = true;
            },
            _ => unreached(),
        }
    }

    /// Close the job and produce its one result: a timed success when the
    /// pipeline ran through, otherwise the failure of the first failed
    /// stage, with a recorded teardown failure flagged either way.
    pub fn finish(&mut self) -> (r: JobResult)
        requires
            old(self).wf(),
            finish_enabled(old(self).machine()),
        ensures
            final(self).machine() == machine_finish(old(self).machine()),
            final(self).wf(),
            r.workspace_id@ == old(self).folder@,
            r.label@ == old(self).execution.label@,
            r.repository@ == old(self).execution.repository@,
            r.cleanup_failed == old(self).cleanup_failed,
            (old(self).state is TornDown ==> (r.outcome matches Outcome::Success { elapsed_ms }
                && Some(elapsed_ms) == old(self).elapsed_ms)),
            (old(self).state matches JobState::Failed { stage } ==> (old(self).failure
                matches Some(f) && (r.outcome matches Outcome::Failure { stage: fs, step, cause }
                && fs == stage && step == f.step && cause@ == f.cause@))),
    {
        let outcome = match &self.failure {
            Option::None => {
                let elapsed = match self.elapsed_ms {
                    Option::Some(t) => t,
                    Option::None => unreached(),
                };
                Outcome::Success { elapsed_ms: elapsed }
            },
            Option::Some(f) => Outcome::Failure {
                stage: f.stage,
                step: f.step,
                cause: f.cause.clone(),
            },
        };
        self.state = JobState::Done;
        JobResult {
            workspace_id: self.folder.clone(),
            label: self.execution.label.clone(),
            repository: self.execution.repository.clone(),
            outcome,
            cleanup_failed: self.cleanup_failed,
        }
    }
}

} // verus!
