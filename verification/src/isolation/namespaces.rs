//! The container's namespaces and host name.
use vstd::prelude::*;
use super::{HostOp, OpView, plan_view};

verus! {

/// A set of namespace kinds, as given to `clone` or `unshare`.
#[derive(Debug, Clone, Copy, PartialEq, Eq, Structural)]
pub struct NamespaceFlags {
    /// `CLONE_NEWPID`: a new process-id namespace.
    pub new_pid: bool,
    /// `CLONE_NEWUTS`: a new host-name namespace.
    pub new_uts: bool,
    /// `CLONE_NEWNS`: a new mount namespace.
    pub new_mount: bool,
}

/// The namespaces the runtime clones the container into: a new PID and a
/// new UTS namespace. (The container makes its own mount namespace itself,
/// as the first step of `setup_namespaces`.)
pub fn clone_flags() -> (f: NamespaceFlags)
    ensures
        f == (NamespaceFlags { new_pid: true, new_uts: true, new_mount: false }),
{
    NamespaceFlags { new_pid: true, new_uts: true, new_mount: false }
}

/// Only a new mount namespace.
pub open spec fn mount_namespace_only() -> NamespaceFlags {
    NamespaceFlags { new_pid: false, new_uts: false, new_mount: true }
}

/// The namespace setup of the container, in order: leave the host's mount
/// namespace for a mount namespace of its own, so that no mount the
/// container makes changes the host's mount table or propagation; then
/// name the container's host.
pub open spec fn spec_setup_namespaces() -> Seq<OpView> {
    seq![OpView::Unshare(mount_namespace_only()), OpView::SetHostname(container_hostname())]
}

/// The plan of the namespace stage.
pub fn setup_namespaces() -> (ops: Vec<HostOp>)
    ensures
        plan_view(ops@) == spec_setup_namespaces(),
{
    let mut ops = Vec::new();
    ops.push(HostOp::Unshare(NamespaceFlags { new_pid: false, new_uts: false, new_mount: true }));
    ops.push(HostOp::SetHostname(String::from_str("sigil-container")));
    assert(plan_view(ops@) =~= spec_setup_namespaces());
    ops
}

/// The host name of a container.
pub open spec fn container_hostname() -> Seq<char> {
    "sigil-container"@
}

/// The UTS namespace's setup: name the container's host.
pub fn setup_uts_namespace() -> (ops: Vec<HostOp>)
    ensures
        plan_view(ops@) == seq![OpView::SetHostname(container_hostname())],
{
    let mut ops = Vec::new();
    ops.push(HostOp::SetHostname(String::from_str("sigil-container")));
    assert(plan_view(ops@) =~= seq![OpView::SetHostname(container_hostname())]);
    ops
}

} // verus!
