use sigil::error::SysError;
use sigil::runtime::child::{
    exec_program, init_step, launch_mode, next_stage, parent_release, pending_signal, reap_step,
    stage_failure, terminate_outcome, BootStage, LaunchMode, ReapStep,
};
use sigil::runtime::signals::SignalEvent;
use sigil::runtime::supervisor::{
    exit_status_for_signal, forward_target, next_spawn_step, setpgid_step, SpawnStep, supervisor_step, LoopStep, RetryStep,
    WaitOutcome, SETPGID_RETRY_LIMIT,
};

#[test]
fn terminate_is_forwarded_to_the_process_group() {
    assert_eq!(forward_target(4242, Some(SignalEvent::Terminate)), Some(-4242));
    assert_eq!(forward_target(4242, Some(SignalEvent::Reap)), None);
    assert_eq!(forward_target(4242, None), None);
}

#[test]
fn supervisor_propagates_exit_status() {
    assert_eq!(supervisor_step(WaitOutcome::Exited { pid: 10, status: 7 }, false), LoopStep::Finish(7));
    assert_eq!(supervisor_step(WaitOutcome::Exited { pid: 10, status: 0 }, true), LoopStep::Finish(0));
    assert_eq!(supervisor_step(WaitOutcome::Signaled { pid: 10, signal: 15 }, false), LoopStep::Finish(143));
    assert_eq!(supervisor_step(WaitOutcome::Signaled { pid: 10, signal: 9 }, false), LoopStep::Finish(137));
    assert_eq!(exit_status_for_signal(2), 130);
}

#[test]
fn supervisor_keeps_polling() {
    assert_eq!(supervisor_step(WaitOutcome::StillAlive, false), LoopStep::Again { pause: true });
    assert_eq!(supervisor_step(WaitOutcome::StillAlive, true), LoopStep::Again { pause: false });
    assert_eq!(supervisor_step(WaitOutcome::OtherState, false), LoopStep::Again { pause: true });
    assert_eq!(
        supervisor_step(WaitOutcome::Failed(SysError::Interrupted), false),
        LoopStep::Again { pause: false }
    );
    assert_eq!(supervisor_step(WaitOutcome::Failed(SysError::NoChild), false), LoopStep::Finish(0));
    assert_eq!(
        supervisor_step(WaitOutcome::Failed(SysError::InvalidArgument), false),
        LoopStep::Fail(SysError::InvalidArgument)
    );
}

#[test]
fn setpgid_retries_only_missing_child_and_gives_up() {
    assert_eq!(setpgid_step(0, Ok(())), RetryStep::Done);
    assert_eq!(setpgid_step(0, Err(SysError::NoSuchProcess)), RetryStep::RetryAfterDelay);
    assert_eq!(setpgid_step(8, Err(SysError::NoSuchProcess)), RetryStep::RetryAfterDelay);
    assert_eq!(
        setpgid_step(SETPGID_RETRY_LIMIT - 1, Err(SysError::NoSuchProcess)),
        RetryStep::Fail(SysError::NoSuchProcess)
    );
    assert_eq!(
        setpgid_step(0, Err(SysError::Other(1))),
        RetryStep::Fail(SysError::Other(1))
    );
    let mut attempts = 0;
    for attempt in 0..SETPGID_RETRY_LIMIT {
        attempts += 1;
        match setpgid_step(attempt, Err(SysError::NoSuchProcess)) {
            RetryStep::RetryAfterDelay => continue,
            _ => break,
        }
    }
    assert_eq!(attempts, 10);
}

#[test]
fn bootstrap_stage_order() {
    let mut seen = vec![BootStage::WaitForParent];
    let mut s = BootStage::WaitForParent;
    while let Some(n) = next_stage(s) {
        seen.push(n);
        s = n;
    }
    assert_eq!(
        seen,
        vec![
            BootStage::WaitForParent,
            BootStage::Namespaces,
            BootStage::Mounts,
            BootStage::Rootfs,
            BootStage::Proc,
            BootStage::Cgroups,
            BootStage::Launch,
        ]
    );
}

#[test]
fn stage_failure_messages() {
    assert_eq!(
        stage_failure(BootStage::Rootfs, LaunchMode::ExecDirect, "EPERM: Operation not permitted"),
        "setup_rootfs failed: EPERM: Operation not permitted"
    );
    assert_eq!(stage_failure(BootStage::WaitForParent, LaunchMode::RunAsInit, "x"), "wait_for_parent failed: x");
    assert_eq!(stage_failure(BootStage::Launch, LaunchMode::RunAsInit, "y"), "run_as_init failed: y");
    assert_eq!(stage_failure(BootStage::Launch, LaunchMode::ExecDirect, "z"), "exec_target failed: z");
    assert_eq!(stage_failure(BootStage::Namespaces, LaunchMode::ExecDirect, "e"), "setup_namespaces failed: e");
}

#[test]
fn pid_one_runs_as_init() {
    assert_eq!(launch_mode(1), LaunchMode::RunAsInit);
    assert_eq!(launch_mode(2), LaunchMode::ExecDirect);
}

#[test]
fn parent_release_needs_a_byte() {
    assert_eq!(parent_release(1), Ok(()));
    assert_eq!(parent_release(0), Err(SysError::BrokenPipe));
}

#[test]
fn exec_program_is_first_word() {
    assert_eq!(exec_program(&vec!["/bin/sh".to_string(), "-c".to_string()]), Ok("/bin/sh".to_string()));
    assert_eq!(exec_program(&vec![]), Err(SysError::InvalidArgument));
}

#[test]
fn pending_signal_decoding() {
    assert_eq!(pending_signal(0), Ok(None));
    assert_eq!(pending_signal(15), Ok(Some(15)));
    assert_eq!(pending_signal(31), Ok(Some(31)));
    assert_eq!(pending_signal(32), Err(SysError::InvalidArgument));
    assert_eq!(pending_signal(-3), Err(SysError::InvalidArgument));
    assert_eq!(exit_status_for_signal(15), 143);
}

#[test]
fn init_waits_for_its_main_child() {
    assert_eq!(init_step(5, WaitOutcome::Exited { pid: 5, status: 3 }), LoopStep::Finish(3));
    assert_eq!(init_step(5, WaitOutcome::Exited { pid: 8, status: 3 }), LoopStep::Again { pause: false });
    assert_eq!(init_step(5, WaitOutcome::Signaled { pid: 5, signal: 9 }), LoopStep::Finish(137));
    assert_eq!(init_step(5, WaitOutcome::Signaled { pid: 6, signal: 9 }), LoopStep::Again { pause: false });
    assert_eq!(init_step(5, WaitOutcome::Failed(SysError::Interrupted)), LoopStep::Again { pause: false });
    assert_eq!(init_step(5, WaitOutcome::Failed(SysError::NoChild)), LoopStep::Finish(0));
    assert_eq!(init_step(5, WaitOutcome::Failed(SysError::Io)), LoopStep::Fail(SysError::Io));
}

#[test]
fn reaping_until_no_child() {
    assert_eq!(reap_step(WaitOutcome::Exited { pid: 9, status: 0 }), ReapStep::Continue);
    assert_eq!(reap_step(WaitOutcome::Failed(SysError::Interrupted)), ReapStep::Continue);
    assert_eq!(reap_step(WaitOutcome::Failed(SysError::NoChild)), ReapStep::Done);
    assert_eq!(reap_step(WaitOutcome::Failed(SysError::Other(5))), ReapStep::Fail(SysError::Other(5)));
}

#[test]
fn terminating_an_empty_namespace_is_fine() {
    assert_eq!(terminate_outcome(Ok(())), Ok(()));
    assert_eq!(terminate_outcome(Err(SysError::NoSuchProcess)), Ok(()));
    assert_eq!(terminate_outcome(Err(SysError::Other(1))), Err(SysError::Other(1)));
}

#[test]
fn spawn_step_order() {
    let mut seen = vec![SpawnStep::InstallHandlers];
    let mut s = SpawnStep::InstallHandlers;
    while let Some(n) = next_spawn_step(s) {
        seen.push(n);
        s = n;
    }
    assert_eq!(
        seen,
        vec![
            SpawnStep::InstallHandlers,
            SpawnStep::CreatePipe,
            SpawnStep::CloneChild,
            SpawnStep::SetProcessGroup,
            SpawnStep::ReleaseChild,
            SpawnStep::Supervise,
        ]
    );
}
