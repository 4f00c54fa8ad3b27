//! Mount propagation of the container.
use vstd::prelude::*;
use super::{HostOp, MountFlags, OpView, no_mount_flags, plan_view};

verus! {

/// The mount flags that make `/` and everything below it private, so that
/// no mount the container makes reaches the host.
pub open spec fn private_propagation_flags() -> MountFlags {
    MountFlags { recursive: true, private: true, ..no_mount_flags() }
}

/// The mount setup: make mount propagation below `/` private.
pub open spec fn spec_setup_mounts() -> Seq<OpView> {
    seq![
        OpView::Mount {
            source: None,
            target: "/"@,
            fstype: None,
            flags: private_propagation_flags(),
        },
    ]
}

/// The plan of the mount stage.
pub fn setup_mounts() -> (ops: Vec<HostOp>)
    ensures
        plan_view(ops@) == spec_setup_mounts(),
{
    let mut ops = Vec::new();
    ops.push(
        HostOp::Mount {
            source: None,
            target: String::from_str("/"),
            fstype: None,
            flags: MountFlags {
                bind: false,
                recursive: true,
                private: true,
                noexec: false,
                nosuid: false,
                nodev: false,
            },
        },
    );
    assert(plan_view(ops@) =~= seq![
        OpView::Mount {
            source: None,
            target: "/"@,
            fstype: None,
            flags: private_propagation_flags(),
        },
    ]);
    ops
}

} // verus!
