use sigil::config::parse_args;
use sigil::error::SysError;
use sigil::isolation::cgroups::{
    cgroup_root, controller_request, fd_path, host_pid, lists_controller, parse_host_pid, pid_line, require_controller,
    setup_cgroups,
};
use sigil::isolation::fs::{setup_proc, setup_rootfs};
use sigil::isolation::mounts::setup_mounts;
use sigil::isolation::namespaces::{clone_flags, setup_namespaces, setup_uts_namespace, NamespaceFlags};
use sigil::isolation::{HostOp, MountFlags};
use sigil::runtime::child::{next_stage, stage_plan, BootStage};

fn s(x: &str) -> String {
    x.to_string()
}

fn flags(bind: bool, recursive: bool, private: bool, noexec: bool, nosuid: bool, nodev: bool) -> MountFlags {
    MountFlags { bind, recursive, private, noexec, nosuid, nodev }
}

#[test]
fn container_namespaces() {
    let f = clone_flags();
    assert!(f.new_pid && f.new_uts && !f.new_mount);
    assert_eq!(setup_uts_namespace(), vec![HostOp::SetHostname(s("sigil-container"))]);
    assert_eq!(
        setup_namespaces(),
        vec![
            HostOp::Unshare(NamespaceFlags { new_pid: false, new_uts: false, new_mount: true }),
            HostOp::SetHostname(s("sigil-container")),
        ]
    );
}

#[test]
fn mount_propagation_plan() {
    assert_eq!(
        setup_mounts(),
        vec![HostOp::Mount {
            source: None,
            target: s("/"),
            fstype: None,
            flags: flags(false, true, true, false, false, false)
        }]
    );
}

#[test]
fn proc_plan() {
    assert_eq!(
        setup_proc(),
        vec![
            HostOp::CreateDirAll(s("/proc")),
            HostOp::Mount {
                source: Some(s("proc")),
                target: s("/proc"),
                fstype: Some(s("proc")),
                flags: flags(false, false, false, true, true, true)
            },
        ]
    );
}

#[test]
fn rootfs_plan() {
    assert_eq!(
        setup_rootfs("/srv/root"),
        vec![
            HostOp::CaptureHostContext,
            HostOp::CreateDirAll(s("/srv/root")),
            HostOp::Mount {
                source: Some(s("/srv/root")),
                target: s("/srv/root"),
                fstype: None,
                flags: flags(true, true, false, false, false, false)
            },
            HostOp::CreateDirAll(s("/srv/root/.old_root")),
            HostOp::PivotRoot { new_root: s("/srv/root"), put_old: s("/srv/root/.old_root") },
            HostOp::ChangeDir(s("/")),
            HostOp::Unmount { target: s("/.old_root"), detach: true },
            HostOp::RemoveDir { path: s("/.old_root"), missing_ok: false },
        ]
    );
}

const STATUS: &str = "Name:\tsh\nUmask:\t0022\nState:\tS (sleeping)\nTgid:\t1\nNgid:\t0\nPid:\t1\nPPid:\t0\nNSpid:\t31337\t1\nNSpgid:\t31337\t1\n";

#[test]
fn host_pid_from_status() {
    assert_eq!(parse_host_pid(STATUS), Ok(31337));
    assert_eq!(parse_host_pid("NSpid:\t99\n"), Ok(99));
    assert_eq!(parse_host_pid("Pid:\t4\nNSpid:\t77\r\n"), Ok(77));
}

#[test]
fn host_pid_status_errors() {
    assert_eq!(parse_host_pid("Name:\tsh\nPid:\t1\n"), Err(SysError::InvalidArgument));
    assert_eq!(parse_host_pid("NSpid:\n"), Err(SysError::InvalidArgument));
    assert_eq!(parse_host_pid("NSpid:\tabc\n"), Err(SysError::InvalidArgument));
    assert_eq!(parse_host_pid("  NSpid:\t5\n"), Err(SysError::InvalidArgument));
    assert_eq!(parse_host_pid(""), Err(SysError::InvalidArgument));
}

#[test]
fn first_nspid_line_counts() {
    assert_eq!(parse_host_pid("NSpid:\t12\nNSpid:\t34\n"), Ok(12));
}

#[test]
fn recorded_host_pid() {
    assert_eq!(host_pid(0), Err(SysError::InvalidArgument));
    assert_eq!(host_pid(-4), Err(SysError::InvalidArgument));
    assert_eq!(host_pid(812), Ok(812));
}

#[test]
fn cgroup_paths_and_lines() {
    assert_eq!(cgroup_root(), "/sys/fs/cgroup");
    assert_eq!(fd_path(3), "/proc/self/fd/3");
    assert_eq!(pid_line(31337), "31337\n");
}

#[test]
fn controller_lists() {
    assert!(lists_controller("cpuset cpu io memory hugetlb pids\n", "memory"));
    assert!(!lists_controller("cpuset cpu io\n", "memory"));
    assert_eq!(require_controller("cpu memory\n", "memory"), Ok(()));
    assert_eq!(require_controller("cpu\n", "memory"), Err(SysError::NoDevice));
    assert_eq!(controller_request("cpu memory\n", "memory", "+memory"), None);
    assert_eq!(controller_request("cpu\n", "memory", "+memory"), Some("+memory".to_string()));
    assert_eq!(controller_request("", "memory", "+memory"), Some("+memory".to_string()));
}

#[test]
fn cgroup_setup_plan() {
    let config = parse_args(&vec![s("--container-id"), s("web"), s("--memory"), s("64M"), s("sh")], 1).ok().unwrap();
    let (handle, ops) = setup_cgroups(&config, "/proc/self/fd/3", 31337);
    assert_eq!(handle.parent_dir(), "/proc/self/fd/3/sigil");
    assert_eq!(handle.container_dir(), "/proc/self/fd/3/sigil/web");
    let enable = |dir: &str| HostOp::EnableController {
        available_file: format!("{}/cgroup.controllers", dir),
        enabled_file: format!("{}/cgroup.subtree_control", dir),
        controller: s("memory"),
        request: s("+memory"),
    };
    assert_eq!(
        ops,
        vec![
            HostOp::CreateDirAll(s("/proc/self/fd/3/sigil")),
            enable("/proc/self/fd/3"),
            enable("/proc/self/fd/3/sigil"),
            HostOp::CreateDirAll(s("/proc/self/fd/3/sigil/web")),
            HostOp::WriteFile { path: s("/proc/self/fd/3/sigil/web/memory.max"), contents: s("64M") },
            HostOp::WriteFile { path: s("/proc/self/fd/3/sigil/web/cgroup.procs"), contents: s("31337\n") },
        ]
    );
    assert_eq!(
        handle.cleanup(31337),
        vec![
            HostOp::WriteFile { path: s("/proc/self/fd/3/sigil/cgroup.procs"), contents: s("31337\n") },
            HostOp::RemoveDir { path: s("/proc/self/fd/3/sigil/web"), missing_ok: true },
        ]
    );
}

#[test]
fn cgroup_plans_without_host_pid_fail() {
    let config = parse_args(&vec![s("sh")], 1).ok().unwrap();
    let (handle, ops) = setup_cgroups(&config, "/r", 0);
    assert_eq!(ops.last(), Some(&HostOp::Fail(SysError::InvalidArgument)));
    assert_eq!(ops.len(), 6);
    assert_eq!(handle.cleanup(0), vec![HostOp::Fail(SysError::InvalidArgument)]);
}

#[test]
fn stage_plans_put_the_mount_namespace_first() {
    use_stage_plans();
}

fn use_stage_plans() {
    let mut all = Vec::new();
    let mut stage = Some(BootStage::WaitForParent);
    while let Some(current) = stage {
        if let Some(ops) = stage_plan(current, "/srv/root") {
            all.extend(ops);
        }
        stage = next_stage(current);
    }
    assert_eq!(all[0], HostOp::Unshare(NamespaceFlags { new_pid: false, new_uts: false, new_mount: true }));
    assert_eq!(all.len(), 2 + 1 + 8 + 2);
    assert!(stage_plan(BootStage::Cgroups, "/r").is_none());
    assert!(stage_plan(BootStage::Launch, "/r").is_none());
    assert!(stage_plan(BootStage::WaitForParent, "/r").is_none());
    assert_eq!(stage_plan(BootStage::Proc, "/r"), Some(setup_proc()));
    assert_eq!(stage_plan(BootStage::Rootfs, "/r"), Some(setup_rootfs("/r")));
    assert_eq!(stage_plan(BootStage::Mounts, "/r"), Some(setup_mounts()));
}
