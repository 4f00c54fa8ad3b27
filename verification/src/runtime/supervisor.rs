//! The supervisor: the decisions of the loop that watches the container's
//! first process, forwards termination to its process group, and ends with
//! its exit status.
use vstd::prelude::*;
use crate::error::SysError;
use crate::runtime::signals::{is_known_signal, SignalEvent};

verus! {

/// What a call of `waitpid` reported.
#[derive(Debug, Clone, Copy, PartialEq, Eq, Structural)]
pub enum WaitOutcome {
    /// Process `pid` exited with `status`.
    Exited { pid: i32, status: i32 },
    /// Process `pid` was killed by signal number `signal`.
    Signaled { pid: i32, signal: i32 },
    /// No child has changed state yet (only with `WNOHANG`).
    StillAlive,
    /// A child stopped, continued, or reported a ptrace event.
    OtherState,
    /// The call failed.
    Failed(SysError),
}

impl WaitOutcome {
    /// A signal reported by `waitpid` is one nix knows.
    pub open spec fn wf(self) -> bool {
        self matches WaitOutcome::Signaled { signal, .. } ==> is_known_signal(signal)
    }
}

/// The process whose end an outcome reports, if it reports one.
pub open spec fn ended_pid(outcome: WaitOutcome) -> Option<i32> {
    match outcome {
        WaitOutcome::Exited { pid, .. } => Some(pid),
        WaitOutcome::Signaled { pid, .. } => Some(pid),
        _ => None,
    }
}

/// The exit status of a process killed by signal `signal`, by the shell's
/// convention: 128 plus the signal's number.
pub open spec fn signal_exit_status(signal: i32) -> int {
    128 + signal
}

/// The status to exit with for a process killed by `signal`.
pub fn exit_status_for_signal(signal: i32) -> (code: i32)
    requires
        is_known_signal(signal),
    ensures
        code == signal_exit_status(signal),
{
    128 + signal
}

/// The next step of a supervision loop.
#[derive(Debug, Clone, Copy, PartialEq, Eq, Structural)]
pub enum LoopStep {
    /// Stop and exit with this status.
    Finish(i32),
    /// Stop with this error.
    Fail(SysError),
    /// Go round again; `pause` asks for a short sleep first.
    Again { pause: bool },
}

/// The process group to send `SIGTERM` to on a supervisor event: the
/// child's group (`-child_pid`) on `Terminate`; none on `Reap`, which only
/// wakes the supervisor, or on no event.
pub open spec fn spec_forward_target(child_pid: i32, event: Option<SignalEvent>) -> Option<i32> {
    if event == Some(SignalEvent::Terminate) {
        Some((-child_pid) as i32)
    } else {
        None
    }
}

/// Where the supervisor forwards a termination request.
pub fn forward_target(child_pid: i32, event: Option<SignalEvent>) -> (r: Option<i32>)
    requires
        child_pid > i32::MIN,
    ensures
        r == spec_forward_target(child_pid, event),
{
    match event {
        Some(SignalEvent::Terminate) => Some(-child_pid),
        _ => None,
    }
}

/// What the supervisor does with what `waitpid(child, WNOHANG)` reported;
/// `saw_signal` tells whether a signal event was taken in this round.
pub open spec fn spec_supervisor_step(outcome: WaitOutcome, saw_signal: bool) -> LoopStep {
    match outcome {
        WaitOutcome::Exited { status, .. } => LoopStep::Finish(status),
        WaitOutcome::Signaled { signal, .. } => LoopStep::Finish(
            signal_exit_status(signal) as i32,
        ),
        WaitOutcome::StillAlive => LoopStep::Again { pause: !saw_signal },
        WaitOutcome::OtherState => LoopStep::Again { pause: !saw_signal },
        WaitOutcome::Failed(SysError::Interrupted) => LoopStep::Again { pause: false },
        WaitOutcome::Failed(SysError::NoChild) => LoopStep::Finish(0),
        WaitOutcome::Failed(e) => LoopStep::Fail(e),
    }
}

/// Decides the supervisor's next step after `waitpid`.
pub fn supervisor_step(outcome: WaitOutcome, saw_signal: bool) -> (step: LoopStep)
    requires
        outcome.wf(),
    ensures
        step == spec_supervisor_step(outcome, saw_signal),
{
    match outcome {
        WaitOutcome::Exited { status, .. } => LoopStep::Finish(status),
        WaitOutcome::Signaled { signal, .. } => LoopStep::Finish(exit_status_for_signal(signal)),
        WaitOutcome::StillAlive => LoopStep::Again { pause: !saw_signal },
        WaitOutcome::OtherState => LoopStep::Again { pause: !saw_signal },
        WaitOutcome::Failed(SysError::Interrupted) => LoopStep::Again { pause: false },
        WaitOutcome::Failed(SysError::NoChild) => LoopStep::Finish(0),
        WaitOutcome::Failed(e) => LoopStep::Fail(e),
    }
}

/// How many times the parent tries to move the child into its own process
/// group.
pub const SETPGID_RETRY_LIMIT: usize = 10;

/// The next step after an attempt to set the child's process group.
#[derive(Debug, Clone, Copy, PartialEq, Eq, Structural)]
pub enum RetryStep {
    /// The process group is set.
    Done,
    /// The child is not there yet: wait a moment and try again.
    RetryAfterDelay,
    /// Give up with this error.
    Fail(SysError),
}

/// After attempt number `attempt` (from 0): success ends the retries; `ESRCH`
/// (the child not yet there) is retried while attempts remain; any other
/// error, or `ESRCH` on the last attempt, is returned.
pub open spec fn spec_setpgid_step(attempt: usize, result: Result<(), SysError>) -> RetryStep {
    match result {
        Ok(()) => RetryStep::Done,
        Err(SysError::NoSuchProcess) => if attempt + 1 < SETPGID_RETRY_LIMIT {
            RetryStep::RetryAfterDelay
        } else {
            RetryStep::Fail(SysError::NoSuchProcess)
        },
        Err(e) => RetryStep::Fail(e),
    }
}

/// Decides what follows an attempt to set the child's process group.
pub fn setpgid_step(attempt: usize, result: Result<(), SysError>) -> (step: RetryStep)
    requires
        attempt < SETPGID_RETRY_LIMIT,
    ensures
        step == spec_setpgid_step(attempt, result),
{
    match result {
        Ok(()) => RetryStep::Done,
        Err(SysError::NoSuchProcess) => {
            if attempt + 1 < SETPGID_RETRY_LIMIT {
                RetryStep::RetryAfterDelay
            } else {
                RetryStep::Fail(SysError::NoSuchProcess)
            }
        },
        Err(e) => RetryStep::Fail(e),
    }
}

/// The parent gives up: on the last attempt nothing is retried, so the
/// child's process group is tried at most `SETPGID_RETRY_LIMIT` times.
pub proof fn lemma_setpgid_attempts_bounded(attempt: usize, result: Result<(), SysError>)
    requires
        attempt < SETPGID_RETRY_LIMIT,
        spec_setpgid_step(attempt, result) == RetryStep::RetryAfterDelay,
    ensures
        attempt + 1 < SETPGID_RETRY_LIMIT,
        result == Err::<(), SysError>(SysError::NoSuchProcess),
{
}

/// A child that is not there yet (`ESRCH`) is waited for and tried again
/// exactly while attempts remain; success ends the retries at once, and any
/// other error is given up on at once, with that error.
pub proof fn lemma_setpgid_retries_missing_child(attempt: usize, result: Result<(), SysError>)
    requires
        attempt < SETPGID_RETRY_LIMIT,
    ensures
        result is Ok ==> spec_setpgid_step(attempt, result) == RetryStep::Done,
        result == Err::<(), SysError>(SysError::NoSuchProcess) ==> (spec_setpgid_step(
            attempt,
            result,
        ) == RetryStep::RetryAfterDelay <==> attempt + 1 < SETPGID_RETRY_LIMIT),
        result == Err::<(), SysError>(SysError::NoSuchProcess) && attempt + 1
            == SETPGID_RETRY_LIMIT ==> spec_setpgid_step(attempt, result) == RetryStep::Fail(
            SysError::NoSuchProcess,
        ),
        result matches Err(e) ==> (e == SysError::NoSuchProcess || spec_setpgid_step(
            attempt,
            result,
        ) == RetryStep::Fail(e)),
{
}

/// While the child runs the supervisor keeps watching it, pausing only in a
/// round that took no signal event; an interrupted wait is retried at once;
/// when no child is left (`ECHILD`) it exits with 0; any other error of the
/// wait stops it with that error.
pub proof fn lemma_supervisor_keeps_watching(outcome: WaitOutcome, saw_signal: bool)
    ensures
        (outcome == WaitOutcome::StillAlive || outcome == WaitOutcome::OtherState)
            ==> spec_supervisor_step(outcome, saw_signal) == (LoopStep::Again { pause: !saw_signal }),
        outcome == WaitOutcome::Failed(SysError::Interrupted) ==> spec_supervisor_step(
            outcome,
            saw_signal,
        ) == (LoopStep::Again { pause: false }),
        outcome == WaitOutcome::Failed(SysError::NoChild) ==> spec_supervisor_step(
            outcome,
            saw_signal,
        ) == LoopStep::Finish(0),
        outcome matches WaitOutcome::Failed(e) ==> (e == SysError::NoChild || e
            == SysError::Interrupted || spec_supervisor_step(outcome, saw_signal) == LoopStep::Fail(e)),
        spec_supervisor_step(outcome, saw_signal) is Finish ==> (ended_pid(outcome) is Some
            || outcome == WaitOutcome::Failed(SysError::NoChild)),
{
}

/// `Reap` never leads to a signal being sent: only `Terminate` is forwarded,
/// and only to the child's own process group.
pub proof fn lemma_only_terminate_is_forwarded(child_pid: i32, event: Option<SignalEvent>)
    requires
        child_pid > 0,
    ensures
        spec_forward_target(child_pid, event) is Some <==> event == Some(SignalEvent::Terminate),
        spec_forward_target(child_pid, event) matches Some(g) ==> g == -child_pid && g < 0,
{
}

/// The supervisor's exit status is the child's: its own exit status when it
/// exits, 128 plus the signal's number when a signal kills it.
pub proof fn lemma_exit_status_propagates(outcome: WaitOutcome, saw_signal: bool)
    requires
        outcome.wf(),
    ensures
        outcome matches WaitOutcome::Exited { status, .. } ==> spec_supervisor_step(
            outcome,
            saw_signal,
        ) == LoopStep::Finish(status),
        outcome matches WaitOutcome::Signaled { signal, .. } ==> spec_supervisor_step(
            outcome,
            saw_signal,
        ) == LoopStep::Finish((128 + signal) as i32) && 129 <= 128 + signal <= 159,
{
}


/// The steps of starting a container, in the order the supervisor takes
/// them.
#[derive(Debug, Clone, Copy, PartialEq, Eq, Structural)]
pub enum SpawnStep {
    /// Install the supervisor's signal handlers (inherited by the clone, so
    /// that no signal arrives while only the default action is in place).
    InstallHandlers,
    /// Create the pipe that holds the child back.
    CreatePipe,
    /// Clone the child into its namespaces; it blocks on the pipe.
    CloneChild,
    /// Move the child into a process group of its own.
    SetProcessGroup,
    /// Write the byte that releases the child.
    ReleaseChild,
    /// Watch the child until it ends.
    Supervise,
}

/// The position of a step in starting a container.
pub open spec fn spawn_step_index(step: SpawnStep) -> nat {
    match step {
        SpawnStep::InstallHandlers => 0,
        SpawnStep::CreatePipe => 1,
        SpawnStep::CloneChild => 2,
        SpawnStep::SetProcessGroup => 3,
        SpawnStep::ReleaseChild => 4,
        SpawnStep::Supervise => 5,
    }
}

/// The step that follows `step`, if any.
pub open spec fn spec_next_spawn_step(step: SpawnStep) -> Option<SpawnStep> {
    match step {
        SpawnStep::InstallHandlers => Some(SpawnStep::CreatePipe),
        SpawnStep::CreatePipe => Some(SpawnStep::CloneChild),
        SpawnStep::CloneChild => Some(SpawnStep::SetProcessGroup),
        SpawnStep::SetProcessGroup => Some(SpawnStep::ReleaseChild),
        SpawnStep::ReleaseChild => Some(SpawnStep::Supervise),
        SpawnStep::Supervise => None,
    }
}

/// The step after `step`, once `step` has succeeded.
pub fn next_spawn_step(step: SpawnStep) -> (r: Option<SpawnStep>)
    ensures
        r == spec_next_spawn_step(step),
{
    match step {
        SpawnStep::InstallHandlers => Some(SpawnStep::CreatePipe),
        SpawnStep::CreatePipe => Some(SpawnStep::CloneChild),
        SpawnStep::CloneChild => Some(SpawnStep::SetProcessGroup),
        SpawnStep::SetProcessGroup => Some(SpawnStep::ReleaseChild),
        SpawnStep::ReleaseChild => Some(SpawnStep::Supervise),
        SpawnStep::Supervise => None,
    }
}

/// The sequence of steps from `step` on.
pub open spec fn spawn_steps_from(step: SpawnStep) -> Seq<SpawnStep>
    decreases 5 - spawn_step_index(step),
{
    match spec_next_spawn_step(step) {
        Some(next) => if spawn_step_index(next) > spawn_step_index(step) && spawn_step_index(
            next,
        ) <= 5 {
            seq![step].add(spawn_steps_from(next))
        } else {
            seq![step]
        },
        None => seq![step],
    }
}

/// Starting a container goes through every step once, in this order: the
/// signal handlers are in place before the pipe and the clone, and the
/// child's process group is set before the byte that releases it, so the
/// supervisor can always signal the whole group.
pub proof fn lemma_spawn_order()
    ensures
        spawn_steps_from(SpawnStep::InstallHandlers) == seq![
            SpawnStep::InstallHandlers,
            SpawnStep::CreatePipe,
            SpawnStep::CloneChild,
            SpawnStep::SetProcessGroup,
            SpawnStep::ReleaseChild,
            SpawnStep::Supervise,
        ],
        spawn_step_index(SpawnStep::InstallHandlers) < spawn_step_index(SpawnStep::CreatePipe)
            < spawn_step_index(SpawnStep::CloneChild),
        spawn_step_index(SpawnStep::SetProcessGroup) < spawn_step_index(SpawnStep::ReleaseChild)
            < spawn_step_index(SpawnStep::Supervise),
{
    reveal_with_fuel(spawn_steps_from, 7);
    assert(spawn_steps_from(SpawnStep::Supervise) == seq![SpawnStep::Supervise]);
    assert(spawn_steps_from(SpawnStep::ReleaseChild) =~= seq![
        SpawnStep::ReleaseChild,
        SpawnStep::Supervise,
    ]);
    assert(spawn_steps_from(SpawnStep::SetProcessGroup) =~= seq![
        SpawnStep::SetProcessGroup,
        SpawnStep::ReleaseChild,
        SpawnStep::Supervise,
    ]);
    assert(spawn_steps_from(SpawnStep::CloneChild) =~= seq![
        SpawnStep::CloneChild,
        SpawnStep::SetProcessGroup,
        SpawnStep::ReleaseChild,
        SpawnStep::Supervise,
    ]);
    assert(spawn_steps_from(SpawnStep::CreatePipe) =~= seq![
        SpawnStep::CreatePipe,
        SpawnStep::CloneChild,
        SpawnStep::SetProcessGroup,
        SpawnStep::ReleaseChild,
        SpawnStep::Supervise,
    ]);
    assert(spawn_steps_from(SpawnStep::InstallHandlers) =~= seq![
        SpawnStep::InstallHandlers,
        SpawnStep::CreatePipe,
        SpawnStep::CloneChild,
        SpawnStep::SetProcessGroup,
        SpawnStep::ReleaseChild,
        SpawnStep::Supervise,
    ]);
}

} // verus!
