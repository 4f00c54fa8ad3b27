//! The container's root filesystem and its `/proc`.
use vstd::prelude::*;
use super::{HostOp, MountFlags, OpView, no_mount_flags, plan_view};
use crate::text::{join_path, path_join};

verus! {

/// The flags of the container's `/proc`: no programs, no set-user-id, no
/// device files.
pub open spec fn proc_mount_flags() -> MountFlags {
    MountFlags { noexec: true, nosuid: true, nodev: true, ..no_mount_flags() }
}

/// The `/proc` setup: create `/proc` and mount a proc filesystem there.
pub open spec fn spec_setup_proc() -> Seq<OpView> {
    seq![
        OpView::CreateDirAll("/proc"@),
        OpView::Mount {
            source: Some("proc"@),
            target: "/proc"@,
            fstype: Some("proc"@),
            flags: proc_mount_flags(),
        },
    ]
}

/// The plan of the `/proc` stage.
pub fn setup_proc() -> (ops: Vec<HostOp>)
    ensures
        plan_view(ops@) == spec_setup_proc(),
{
    let mut ops = Vec::new();
    ops.push(HostOp::CreateDirAll(String::from_str("/proc")));
    ops.push(
        HostOp::Mount {
            source: Some(String::from_str("proc")),
            target: String::from_str("/proc"),
            fstype: Some(String::from_str("proc")),
            flags: MountFlags {
                bind: false,
                recursive: false,
                private: false,
                noexec: true,
                nosuid: true,
                nodev: true,
            },
        },
    );
    assert(plan_view(ops@) =~= seq![
        OpView::CreateDirAll("/proc"@),
        OpView::Mount {
            source: Some("proc"@),
            target: "/proc"@,
            fstype: Some("proc"@),
            flags: proc_mount_flags(),
        },
    ]);
    ops
}

/// The flags of the bind mount that makes the root filesystem a mount point.
pub open spec fn rootfs_bind_flags() -> MountFlags {
    MountFlags { bind: true, recursive: true, ..no_mount_flags() }
}

/// Where the old root is put by `pivot_root`: `.old_root` inside the new root.
pub open spec fn old_root_dir(rootfs: Seq<char>) -> Seq<char> {
    join_path(rootfs, ".old_root"@)
}

/// The root-filesystem setup, in order: record the host context, create the
/// root directory, bind-mount it onto itself, create `.old_root` in it,
/// pivot into it, go to `/`, detach the old root (now `/.old_root`) and
/// remove its directory.
pub open spec fn spec_setup_rootfs(rootfs: Seq<char>) -> Seq<OpView> {
    seq![
        OpView::CaptureHostContext,
        OpView::CreateDirAll(rootfs),
        OpView::Mount {
            source: Some(rootfs),
            target: rootfs,
            fstype: None,
            flags: rootfs_bind_flags(),
        },
        OpView::CreateDirAll(old_root_dir(rootfs)),
        OpView::PivotRoot { new_root: rootfs, put_old: old_root_dir(rootfs) },
        OpView::ChangeDir("/"@),
        OpView::Unmount { target: "/.old_root"@, detach: true },
        OpView::RemoveDir { path: "/.old_root"@, missing_ok: false },
    ]
}

/// The plan that moves the container into its root filesystem `rootfs`.
pub fn setup_rootfs(rootfs: &str) -> (ops: Vec<HostOp>)
    ensures
        plan_view(ops@) == spec_setup_rootfs(rootfs@),
{
    let old_root = path_join(rootfs, ".old_root");
    let mut ops = Vec::new();
    ops.push(HostOp::CaptureHostContext);
    ops.push(HostOp::CreateDirAll(String::from_str(rootfs)));
    ops.push(
        HostOp::Mount {
            source: Some(String::from_str(rootfs)),
            target: String::from_str(rootfs),
            fstype: None,
            flags: MountFlags {
                bind: true,
                recursive: true,
                private: false,
                noexec: false,
                nosuid: false,
                nodev: false,
            },
        },
    );
    ops.push(HostOp::CreateDirAll(old_root.clone()));
    ops.push(HostOp::PivotRoot { new_root: String::from_str(rootfs), put_old: old_root });
    ops.push(HostOp::ChangeDir(String::from_str("/")));
    ops.push(HostOp::Unmount { target: String::from_str("/.old_root"), detach: true });
    ops.push(HostOp::RemoveDir { path: String::from_str("/.old_root"), missing_ok: false });
    assert(plan_view(ops@) =~= spec_setup_rootfs(rootfs@));
    ops
}

} // verus!
