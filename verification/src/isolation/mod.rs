//! Isolation of the container: which namespaces it gets, and the plans of
//! host operations (mounts, `pivot_root`, directory and cgroup work) that
//! set it up. The host program carries the operations of a plan out in
//! order and stops at the first failure.
pub mod namespaces;
pub mod mounts;
pub mod fs;
pub mod cgroups;

use vstd::prelude::*;
use crate::error::SysError;
use namespaces::NamespaceFlags;

verus! {

/// The flags of a `mount` call.
#[derive(Debug, Clone, Copy, PartialEq, Eq, Structural)]
pub struct MountFlags {
    /// `MS_BIND`
    pub bind: bool,
    /// `MS_REC`
    pub recursive: bool,
    /// `MS_PRIVATE`
    pub private: bool,
    /// `MS_NOEXEC`
    pub noexec: bool,
    /// `MS_NOSUID`
    pub nosuid: bool,
    /// `MS_NODEV`
    pub nodev: bool,
}

/// No mount flag set.
pub open spec fn no_mount_flags() -> MountFlags {
    MountFlags {
        bind: false,
        recursive: false,
        private: false,
        noexec: false,
        nosuid: false,
        nodev: false,
    }
}

/// One operation on the host that an isolation plan asks for.
#[derive(Debug, PartialEq, Eq)]
pub enum HostOp {
    /// Record the host's cgroup root and process id before leaving the
    /// host's filesystem view.
    CaptureHostContext,
    /// `unshare(flags)`: move the process into new namespaces of these kinds.
    Unshare(NamespaceFlags),
    /// Create a directory and its missing parents.
    CreateDirAll(String),
    /// `mount(source, target, fstype, flags, no data)`.
    Mount { source: Option<String>, target: String, fstype: Option<String>, flags: MountFlags },
    /// `pivot_root(new_root, put_old)`.
    PivotRoot { new_root: String, put_old: String },
    /// Change the working directory.
    ChangeDir(String),
    /// `umount2(target)`, lazily when `detach` (`MNT_DETACH`).
    Unmount { target: String, detach: bool },
    /// Remove an empty directory; a missing one is no failure when `missing_ok`.
    RemoveDir { path: String, missing_ok: bool },
    /// Set the host name.
    SetHostname(String),
    /// Make a cgroup controller available to the children of a cgroup:
    /// fail with `ENODEV` if `available_file` does not list `controller`;
    /// otherwise write `request` to `enabled_file` unless it already lists it.
    EnableController { available_file: String, enabled_file: String, controller: String, request: String },
    /// Write `contents` to the file at `path`.
    WriteFile { path: String, contents: String },
    /// Stop the plan with this error.
    Fail(SysError),
}

/// A host operation as plain values.
pub enum OpView {
    CaptureHostContext,
    Unshare(NamespaceFlags),
    CreateDirAll(Seq<char>),
    Mount { source: Option<Seq<char>>, target: Seq<char>, fstype: Option<Seq<char>>, flags: MountFlags },
    PivotRoot { new_root: Seq<char>, put_old: Seq<char> },
    ChangeDir(Seq<char>),
    Unmount { target: Seq<char>, detach: bool },
    RemoveDir { path: Seq<char>, missing_ok: bool },
    SetHostname(Seq<char>),
    EnableController { available_file: Seq<char>, enabled_file: Seq<char>, controller: Seq<char>, request: Seq<char> },
    WriteFile { path: Seq<char>, contents: Seq<char> },
    Fail(SysError),
}

/// An optional string as plain values.
pub open spec fn opt_view(s: Option<String>) -> Option<Seq<char>> {
    match s {
        Some(s) => Some(s@),
        None => None,
    }
}

impl View for HostOp {
    type V = OpView;

    open spec fn view(&self) -> OpView {
        match self {
            HostOp::CaptureHostContext => OpView::CaptureHostContext,
            HostOp::Unshare(flags) => OpView::Unshare(*flags),
            HostOp::CreateDirAll(p) => OpView::CreateDirAll(p@),
            HostOp::Mount { source, target, fstype, flags } => OpView::Mount {
                source: opt_view(*source),
                target: target@,
                fstype: opt_view(*fstype),
                flags: *flags,
            },
            HostOp::PivotRoot { new_root, put_old } => OpView::PivotRoot {
                new_root: new_root@,
                put_old: put_old@,
            },
            HostOp::ChangeDir(p) => OpView::ChangeDir(p@),
            HostOp::Unmount { target, detach } => OpView::Unmount { target: target@, detach: *detach },
            HostOp::RemoveDir { path, missing_ok } => OpView::RemoveDir {
                path: path@,
                missing_ok: *missing_ok,
            },
            HostOp::SetHostname(h) => OpView::SetHostname(h@),
            HostOp::EnableController { available_file, enabled_file, controller, request } =>
                OpView::EnableController {
                available_file: available_file@,
                enabled_file: enabled_file@,
                controller: controller@,
                request: request@,
            },
            HostOp::WriteFile { path, contents } => OpView::WriteFile {
                path: path@,
                contents: contents@,
            },
            HostOp::Fail(e) => OpView::Fail(*e),
        }
    }
}

/// A plan as plain values.
pub open spec fn plan_view(ops: Seq<HostOp>) -> Seq<OpView> {
    ops.map_values(|o: HostOp| o@)
}

} // verus!
