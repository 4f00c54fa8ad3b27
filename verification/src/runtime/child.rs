//! The container side: the order in which the child sets itself up, and
//! the decisions of the init process (PID 1) that runs the command and
//! reaps the namespace's orphans.
use vstd::prelude::*;
use crate::error::SysError;
use crate::isolation::{HostOp, OpView, plan_view};
use crate::isolation::fs::{setup_proc, setup_rootfs, spec_setup_proc, spec_setup_rootfs};
use crate::isolation::mounts::{setup_mounts, spec_setup_mounts};
use crate::isolation::namespaces::{mount_namespace_only, setup_namespaces, spec_setup_namespaces};
use crate::runtime::signals::{is_known_signal, known_signal};
use crate::runtime::supervisor::{ended_pid, exit_status_for_signal, signal_exit_status, LoopStep, WaitOutcome};

verus! {

/// The stages of the child's bootstrap, in the order they run.
#[derive(Debug, Clone, Copy, PartialEq, Eq, Structural)]
pub enum BootStage {
    /// Block until the parent has placed the child in its process group.
    WaitForParent,
    /// Set up the namespaces: a mount namespace of the container's own,
    /// then the host name.
    Namespaces,
    /// Make mount propagation private.
    Mounts,
    /// Pivot into the container's root filesystem.
    Rootfs,
    /// Mount `/proc`.
    Proc,
    /// Join the container's cgroup.
    Cgroups,
    /// Start the command: as init when the child is PID 1, else by `exec`.
    Launch,
}

/// The position of a stage in the bootstrap.
pub open spec fn stage_index(stage: BootStage) -> nat {
    match stage {
        BootStage::WaitForParent => 0,
        BootStage::Namespaces => 1,
        BootStage::Mounts => 2,
        BootStage::Rootfs => 3,
        BootStage::Proc => 4,
        BootStage::Cgroups => 5,
        BootStage::Launch => 6,
    }
}

/// The stage that follows `stage`, if any.
pub open spec fn spec_next_stage(stage: BootStage) -> Option<BootStage> {
    match stage {
        BootStage::WaitForParent => Some(BootStage::Namespaces),
        BootStage::Namespaces => Some(BootStage::Mounts),
        BootStage::Mounts => Some(BootStage::Rootfs),
        BootStage::Rootfs => Some(BootStage::Proc),
        BootStage::Proc => Some(BootStage::Cgroups),
        BootStage::Cgroups => Some(BootStage::Launch),
        BootStage::Launch => None,
    }
}

/// The stage after `stage`, once `stage` has succeeded.
pub fn next_stage(stage: BootStage) -> (r: Option<BootStage>)
    ensures
        r == spec_next_stage(stage),
{
    match stage {
        BootStage::WaitForParent => Some(BootStage::Namespaces),
        BootStage::Namespaces => Some(BootStage::Mounts),
        BootStage::Mounts => Some(BootStage::Rootfs),
        BootStage::Rootfs => Some(BootStage::Proc),
        BootStage::Proc => Some(BootStage::Cgroups),
        BootStage::Cgroups => Some(BootStage::Launch),
        BootStage::Launch => None,
    }
}

/// How the child starts the command.
#[derive(Debug, Clone, Copy, PartialEq, Eq, Structural)]
pub enum LaunchMode {
    /// The child is PID 1 of its namespace: fork the command and reap.
    RunAsInit,
    /// Replace the child with the command.
    ExecDirect,
}

/// The launch mode of a child whose process id is `pid`.
pub open spec fn spec_launch_mode(pid: i32) -> LaunchMode {
    if pid == 1 {
        LaunchMode::RunAsInit
    } else {
        LaunchMode::ExecDirect
    }
}

/// Chooses how to start the command.
pub fn launch_mode(pid: i32) -> (m: LaunchMode)
    ensures
        m == spec_launch_mode(pid),
{
    if pid == 1 {
        LaunchMode::RunAsInit
    } else {
        LaunchMode::ExecDirect
    }
}

/// The name under which a stage reports its failure.
pub open spec fn spec_stage_name(stage: BootStage, mode: LaunchMode) -> Seq<char> {
    match stage {
        BootStage::WaitForParent => "wait_for_parent"@,
        BootStage::Namespaces => "setup_namespaces"@,
        BootStage::Mounts => "setup_mounts"@,
        BootStage::Rootfs => "setup_rootfs"@,
        BootStage::Proc => "setup_proc"@,
        BootStage::Cgroups => "setup_cgroups"@,
        BootStage::Launch => match mode {
            LaunchMode::RunAsInit => "run_as_init"@,
            LaunchMode::ExecDirect => "exec_target"@,
        },
    }
}

/// The message of a failed stage: its name, `" failed: "`, and what went
/// wrong.
pub open spec fn spec_stage_failure(stage: BootStage, mode: LaunchMode, detail: Seq<char>) -> Seq<
    char,
> {
    spec_stage_name(stage, mode) + " failed: "@ + detail
}

/// Describes the failure of a stage; `mode` matters for `Launch` only.
pub fn stage_failure(stage: BootStage, mode: LaunchMode, detail: &str) -> (msg: String)
    ensures
        msg@ == spec_stage_failure(stage, mode, detail@),
{
    let mut msg = match stage {
        BootStage::WaitForParent => String::from_str("wait_for_parent"),
        BootStage::Namespaces => String::from_str("setup_namespaces"),
        BootStage::Mounts => String::from_str("setup_mounts"),
        BootStage::Rootfs => String::from_str("setup_rootfs"),
        BootStage::Proc => String::from_str("setup_proc"),
        BootStage::Cgroups => String::from_str("setup_cgroups"),
        BootStage::Launch => match mode {
            LaunchMode::RunAsInit => String::from_str("run_as_init"),
            LaunchMode::ExecDirect => String::from_str("exec_target"),
        },
    };
    msg.append(" failed: ");
    msg.append(detail);
    msg
}

/// The outcome of the blocking read on the synchronisation pipe that
/// released `bytes_read` bytes: end of file means the parent is gone
/// (`EPIPE`).
pub fn parent_release(bytes_read: usize) -> (r: Result<(), SysError>)
    ensures
        r == (if bytes_read == 0 {
            Err::<(), SysError>(SysError::BrokenPipe)
        } else {
            Ok(())
        }),
{
    if bytes_read == 0 {
        Err(SysError::BrokenPipe)
    } else {
        Ok(())
    }
}

/// Chooses the program to execute: the command's first word; an empty
/// command is an invalid argument.
pub fn exec_program(command: &Vec<String>) -> (r: Result<String, SysError>)
    ensures
        command@.len() == 0 ==> r == Err::<String, SysError>(SysError::InvalidArgument),
        command@.len() > 0 ==> r is Ok && r->Ok_0@ == command@[0]@,
{
    if command.len() == 0 {
        Err(SysError::InvalidArgument)
    } else {
        Ok(command[0].clone())
    }
}

/// What the init process makes of the signal number its handler left
/// (0 for none): nothing, the signal, or `EINVAL` for a number that is no
/// signal.
pub open spec fn spec_pending_signal(pending: i32) -> Result<Option<i32>, SysError> {
    if pending == 0 {
        Ok(None)
    } else if is_known_signal(pending) {
        Ok(Some(pending))
    } else {
        Err(SysError::InvalidArgument)
    }
}

/// Decodes the signal number the init process's handler left.
pub fn pending_signal(pending: i32) -> (r: Result<Option<i32>, SysError>)
    ensures
        r == spec_pending_signal(pending),
{
    if pending == 0 {
        return Ok(None);
    }
    match known_signal(pending) {
        Some(sig) => Ok(Some(sig)),
        None => Err(SysError::InvalidArgument),
    }
}

/// What init does with what a blocking `waitpid(-1)` reported: the exit of
/// the main child ends the loop with its status (128 plus the signal's
/// number if a signal killed it); orphans that exit are just reaped; an
/// interrupted wait is retried; no children left ends with 0.
pub open spec fn spec_init_step(main_child: i32, outcome: WaitOutcome) -> LoopStep {
    match outcome {
        WaitOutcome::Exited { pid, status } => if pid == main_child {
            LoopStep::Finish(status)
        } else {
            LoopStep::Again { pause: false }
        },
        WaitOutcome::Signaled { pid, signal } => if pid == main_child {
            LoopStep::Finish(signal_exit_status(signal) as i32)
        } else {
            LoopStep::Again { pause: false }
        },
        WaitOutcome::StillAlive => LoopStep::Again { pause: false },
        WaitOutcome::OtherState => LoopStep::Again { pause: false },
        WaitOutcome::Failed(SysError::Interrupted) => LoopStep::Again { pause: false },
        WaitOutcome::Failed(SysError::NoChild) => LoopStep::Finish(0),
        WaitOutcome::Failed(e) => LoopStep::Fail(e),
    }
}

/// Decides init's next step after `waitpid(-1)`.
pub fn init_step(main_child: i32, outcome: WaitOutcome) -> (step: LoopStep)
    requires
        outcome.wf(),
    ensures
        step == spec_init_step(main_child, outcome),
{
    match outcome {
        WaitOutcome::Exited { pid, status } => {
            if pid == main_child {
                LoopStep::Finish(status)
            } else {
                LoopStep::Again { pause: false }
            }
        },
        WaitOutcome::Signaled { pid, signal } => {
            if pid == main_child {
                LoopStep::Finish(exit_status_for_signal(signal))
            } else {
                LoopStep::Again { pause: false }
            }
        },
        WaitOutcome::StillAlive => LoopStep::Again { pause: false },
        WaitOutcome::OtherState => LoopStep::Again { pause: false },
        WaitOutcome::Failed(SysError::Interrupted) => LoopStep::Again { pause: false },
        WaitOutcome::Failed(SysError::NoChild) => LoopStep::Finish(0),
        WaitOutcome::Failed(e) => LoopStep::Fail(e),
    }
}

/// The outcome of sending `SIGTERM` to every process of the namespace:
/// finding none (`ESRCH`) is no failure.
pub fn terminate_outcome(result: Result<(), SysError>) -> (r: Result<(), SysError>)
    ensures
        r == (match result {
            Err(SysError::NoSuchProcess) => Ok(()),
            other => other,
        }),
{
    match result {
        Err(SysError::NoSuchProcess) => Ok(()),
        other => other,
    }
}

/// The next step of reaping every remaining child.
#[derive(Debug, Clone, Copy, PartialEq, Eq, Structural)]
pub enum ReapStep {
    /// Wait for the next child.
    Continue,
    /// No children are left.
    Done,
    /// Stop with this error.
    Fail(SysError),
}

/// What reaping does with what a blocking `waitpid(-1)` reported: any
/// reaped child or an interruption goes on; `ECHILD` ends; other errors stop.
pub open spec fn spec_reap_step(outcome: WaitOutcome) -> ReapStep {
    match outcome {
        WaitOutcome::Failed(SysError::Interrupted) => ReapStep::Continue,
        WaitOutcome::Failed(SysError::NoChild) => ReapStep::Done,
        WaitOutcome::Failed(e) => ReapStep::Fail(e),
        _ => ReapStep::Continue,
    }
}

/// Decides the next step of reaping.
pub fn reap_step(outcome: WaitOutcome) -> (step: ReapStep)
    ensures
        step == spec_reap_step(outcome),
{
    match outcome {
        WaitOutcome::Failed(SysError::Interrupted) => ReapStep::Continue,
        WaitOutcome::Failed(SysError::NoChild) => ReapStep::Done,
        WaitOutcome::Failed(e) => ReapStep::Fail(e),
        _ => ReapStep::Continue,
    }
}

/// Reaping goes on until no child is left: every report of a child's end
/// or state (exited, killed by a signal, still alive, other) and every
/// interrupted wait continues; only `ECHILD` ends it; any other error stops
/// with that error.
pub proof fn lemma_reap_until_no_child(outcome: WaitOutcome)
    ensures
        !(outcome is Failed) ==> spec_reap_step(outcome) == ReapStep::Continue,
        outcome == WaitOutcome::Failed(SysError::Interrupted) ==> spec_reap_step(outcome)
            == ReapStep::Continue,
        spec_reap_step(outcome) == ReapStep::Done <==> outcome == WaitOutcome::Failed(
            SysError::NoChild,
        ),
        outcome matches WaitOutcome::Failed(e) ==> (e == SysError::NoChild || e
            == SysError::Interrupted || spec_reap_step(outcome) == ReapStep::Fail(e)),
{
}

/// Init shuts down on every signal nix knows: a pending number from 1 to 31
/// decodes to that signal; only 0 means none; any other number is `EINVAL`.
pub proof fn lemma_pending_signal_decoding(n: i32)
    ensures
        1 <= n <= 31 ==> spec_pending_signal(n) == Ok::<Option<i32>, SysError>(Some(n)),
        spec_pending_signal(n) == Ok::<Option<i32>, SysError>(None) <==> n == 0,
        (n < 0 || n > 31) ==> spec_pending_signal(n) == Err::<Option<i32>, SysError>(
            SysError::InvalidArgument,
        ),
{
}

/// Each signal init forwards (SIGINT, SIGTERM, SIGQUIT, SIGHUP) decodes to
/// itself, so init shuts the namespace down and exits with 128 plus its
/// number.
pub proof fn lemma_forwarded_signals_shut_down(i: int)
    requires
        0 <= i < crate::runtime::signals::spec_forwarded_signals().len(),
    ensures
        ({
            let n = crate::runtime::signals::spec_forwarded_signals()[i];
            &&& spec_pending_signal(n) == Ok::<Option<i32>, SysError>(Some(n))
            &&& 129 <= signal_exit_status(n) <= 143
        }),
{
}

/// The sequence of stages from `stage` on.
pub open spec fn stages_from(stage: BootStage) -> Seq<BootStage>
    decreases 6 - stage_index(stage),
{
    match spec_next_stage(stage) {
        Some(next) => if stage_index(next) > stage_index(stage) && stage_index(next) <= 6 {
            seq![stage].add(stages_from(next))
        } else {
            seq![stage]
        },
        None => seq![stage],
    }
}

/// All isolation happens before the command starts: from the first stage,
/// the bootstrap runs the waiting, namespace, mount, root-filesystem,
/// `/proc` and cgroup stages, each once and in this order, and then the
/// launch, which is the last.
pub proof fn lemma_bootstrap_order()
    ensures
        stages_from(BootStage::WaitForParent) == seq![
            BootStage::WaitForParent,
            BootStage::Namespaces,
            BootStage::Mounts,
            BootStage::Rootfs,
            BootStage::Proc,
            BootStage::Cgroups,
            BootStage::Launch,
        ],
{
    reveal_with_fuel(stages_from, 8);
    assert(stages_from(BootStage::Launch) == seq![BootStage::Launch]);
    assert(stages_from(BootStage::Cgroups) =~= seq![BootStage::Cgroups, BootStage::Launch]);
    assert(stages_from(BootStage::Proc) =~= seq![
        BootStage::Proc,
        BootStage::Cgroups,
        BootStage::Launch,
    ]);
    assert(stages_from(BootStage::Rootfs) =~= seq![
        BootStage::Rootfs,
        BootStage::Proc,
        BootStage::Cgroups,
        BootStage::Launch,
    ]);
    assert(stages_from(BootStage::Mounts) =~= seq![
        BootStage::Mounts,
        BootStage::Rootfs,
        BootStage::Proc,
        BootStage::Cgroups,
        BootStage::Launch,
    ]);
    assert(stages_from(BootStage::Namespaces) =~= seq![
        BootStage::Namespaces,
        BootStage::Mounts,
        BootStage::Rootfs,
        BootStage::Proc,
        BootStage::Cgroups,
        BootStage::Launch,
    ]);
    assert(stages_from(BootStage::WaitForParent) =~= seq![
        BootStage::WaitForParent,
        BootStage::Namespaces,
        BootStage::Mounts,
        BootStage::Rootfs,
        BootStage::Proc,
        BootStage::Cgroups,
        BootStage::Launch,
    ]);
}

/// Init ends only on its main child, a lack of children, or an error: the
/// exit of any other process (an orphan it adopted) is reaped and the loop
/// goes on.
pub proof fn lemma_init_ignores_orphans(main_child: i32, outcome: WaitOutcome)
    requires
        outcome.wf(),
        ended_pid(outcome) is Some,
        ended_pid(outcome) != Some(main_child),
    ensures
        spec_init_step(main_child, outcome) == (LoopStep::Again { pause: false }),
{
}

/// Only the first process of a new PID namespace (process id 1) runs the
/// command as init; at any other id the child becomes the command.
pub proof fn lemma_only_pid_one_is_init(pid: i32)
    ensures
        spec_launch_mode(pid) == LaunchMode::RunAsInit <==> pid == 1,
        spec_launch_mode(pid) == LaunchMode::ExecDirect <==> pid != 1,
{
}

/// Init exits with the main child's status: its exit status when it
/// exits, 128 plus the signal's number when a signal kills it; with no
/// children left it exits with 0; an interrupted wait is retried at once,
/// and any other error of the wait stops it with that error.
pub proof fn lemma_init_finishes_with_main_status(main_child: i32, outcome: WaitOutcome)
    requires
        outcome.wf(),
    ensures
        outcome matches WaitOutcome::Exited { pid, status } ==> (pid == main_child
            ==> spec_init_step(main_child, outcome) == LoopStep::Finish(status)),
        outcome matches WaitOutcome::Signaled { pid, signal } ==> (pid == main_child
            ==> spec_init_step(main_child, outcome) == LoopStep::Finish((128 + signal) as i32)
            && 129 <= 128 + signal <= 159),
        outcome == WaitOutcome::Failed(SysError::NoChild) ==> spec_init_step(main_child, outcome)
            == LoopStep::Finish(0),
        (outcome == WaitOutcome::Failed(SysError::Interrupted) || outcome == WaitOutcome::StillAlive
            || outcome == WaitOutcome::OtherState) ==> spec_init_step(main_child, outcome) == (
        LoopStep::Again { pause: false }),
        outcome matches WaitOutcome::Failed(e) ==> (e == SysError::NoChild || e
            == SysError::Interrupted || spec_init_step(main_child, outcome) == LoopStep::Fail(e)),
        spec_init_step(main_child, outcome) is Finish ==> (ended_pid(outcome) == Some(main_child)
            || outcome == WaitOutcome::Failed(SysError::NoChild)),
{
}

/// Init and the supervisor report a process's end alike: the main child's
/// exit gives the same status in both loops.
pub proof fn lemma_init_and_supervisor_agree(main_child: i32, outcome: WaitOutcome, saw_signal: bool)
    requires
        outcome.wf(),
        ended_pid(outcome) == Some(main_child),
    ensures
        spec_init_step(main_child, outcome) == crate::runtime::supervisor::spec_supervisor_step(
            outcome,
            saw_signal,
        ),
{
}


/// The plan a stage carries out, for a container whose root filesystem is
/// `rootfs`: none for waiting on the parent, for the cgroups (whose plan
/// needs the host's cgroup root and process id) and for the launch.
pub open spec fn spec_stage_plan(stage: BootStage, rootfs: Seq<char>) -> Option<Seq<OpView>> {
    match stage {
        BootStage::Namespaces => Some(spec_setup_namespaces()),
        BootStage::Mounts => Some(spec_setup_mounts()),
        BootStage::Rootfs => Some(spec_setup_rootfs(rootfs)),
        BootStage::Proc => Some(spec_setup_proc()),
        _ => None,
    }
}

/// The plan of a stage, if it has one of its own.
pub fn stage_plan(stage: BootStage, rootfs: &str) -> (r: Option<Vec<HostOp>>)
    ensures
        match r {
            Some(ops) => spec_stage_plan(stage, rootfs@) == Some(plan_view(ops@)),
            None => spec_stage_plan(stage, rootfs@) is None,
        },
{
    match stage {
        BootStage::Namespaces => Some(setup_namespaces()),
        BootStage::Mounts => Some(setup_mounts()),
        BootStage::Rootfs => Some(setup_rootfs(rootfs)),
        BootStage::Proc => Some(setup_proc()),
        _ => None,
    }
}

/// The host operations of the given stages, one stage after the other.
pub open spec fn plans_of(stages: Seq<BootStage>, rootfs: Seq<char>) -> Seq<OpView>
    decreases stages.len(),
{
    if stages.len() == 0 {
        seq![]
    } else {
        let first = match spec_stage_plan(stages[0], rootfs) {
            Some(p) => p,
            None => seq![],
        };
        first + plans_of(stages.drop_first(), rootfs)
    }
}

/// Whether a host operation mounts, unmounts or pivots.
pub open spec fn changes_mounts(op: OpView) -> bool {
    ||| op is Mount
    ||| op is PivotRoot
    ||| op is Unmount
}

/// The container's mounts are its own: the host operations of the bootstrap,
/// stage by stage in bootstrap order, begin by moving the child into a new
/// mount namespace, so that every mount, unmount and pivot that follows —
/// the private remount of `/`, the bind mount and `pivot_root` of the root
/// filesystem, and `/proc` — acts on the container's mount table and not
/// the host's.
pub proof fn lemma_mounts_in_own_namespace(rootfs: Seq<char>)
    ensures
        plans_of(stages_from(BootStage::WaitForParent), rootfs) == spec_setup_namespaces()
            + spec_setup_mounts() + spec_setup_rootfs(rootfs) + spec_setup_proc(),
        plans_of(stages_from(BootStage::WaitForParent), rootfs)[0] == OpView::Unshare(
            mount_namespace_only(),
        ),
        mount_namespace_only().new_mount,
        forall|i: int|
            0 <= i < plans_of(stages_from(BootStage::WaitForParent), rootfs).len()
                && changes_mounts(#[trigger] plans_of(stages_from(BootStage::WaitForParent), rootfs)[i])
                ==> i > 0,
{
    lemma_bootstrap_order();
    let stages = stages_from(BootStage::WaitForParent);
    let ns = spec_setup_namespaces();
    let m = spec_setup_mounts();
    let r = spec_setup_rootfs(rootfs);
    let p = spec_setup_proc();
    assert(plans_of(stages.subrange(6, 7), rootfs) =~= seq![]) by {
        assert(stages.subrange(6, 7)[0] == BootStage::Launch);
        assert(stages.subrange(6, 7).drop_first() =~= Seq::<BootStage>::empty());
        assert(plans_of(Seq::<BootStage>::empty(), rootfs) == Seq::<OpView>::empty());
    }
    assert(plans_of(stages.subrange(5, 7), rootfs) =~= seq![]) by {
        assert(stages.subrange(5, 7)[0] == BootStage::Cgroups);
        assert(stages.subrange(5, 7).drop_first() =~= stages.subrange(6, 7));
    }
    assert(plans_of(stages.subrange(4, 7), rootfs) =~= p) by {
        assert(stages.subrange(4, 7)[0] == BootStage::Proc);
        assert(stages.subrange(4, 7).drop_first() =~= stages.subrange(5, 7));
    }
    assert(plans_of(stages.subrange(3, 7), rootfs) =~= r + p) by {
        assert(stages.subrange(3, 7)[0] == BootStage::Rootfs);
        assert(stages.subrange(3, 7).drop_first() =~= stages.subrange(4, 7));
    }
    assert(plans_of(stages.subrange(2, 7), rootfs) =~= m + (r + p)) by {
        assert(stages.subrange(2, 7)[0] == BootStage::Mounts);
        assert(stages.subrange(2, 7).drop_first() =~= stages.subrange(3, 7));
    }
    assert(plans_of(stages.subrange(1, 7), rootfs) =~= ns + (m + (r + p))) by {
        assert(stages.subrange(1, 7)[0] == BootStage::Namespaces);
        assert(stages.subrange(1, 7).drop_first() =~= stages.subrange(2, 7));
    }
    assert(plans_of(stages, rootfs) =~= ns + (m + (r + p))) by {
        assert(stages[0] == BootStage::WaitForParent);
        assert(stages.drop_first() =~= stages.subrange(1, 7));
    }
    assert(ns + (m + (r + p)) =~= ns + m + r + p);
}

} // verus!
