//! The container's cgroup (version 2): where it lives, what is written to
//! it, and the host facts it needs — the host's process id, read from
//! `/proc/self/status`, and the host's cgroup root, kept open by descriptor.
use vstd::prelude::*;
use crate::config::{spec_parse_args, ContainerConfig};
use crate::error::SysError;
use super::{HostOp, OpView, plan_view};
use crate::text::{
    find_with_prefix, first_with_prefix, format_i32, has_prefix, has_word, join_path, lines, parse_i32,
    path_join, push_char, signed_decimal, spec_parse_i32, split_lines, split_whitespace,
    to_chars, words,
};

verus! {

/// Where cgroup version 2 is mounted on the host.
pub open spec fn cgroup_mount_point() -> Seq<char> {
    "/sys/fs/cgroup"@
}

/// The path of the host's cgroup mount point.
pub fn cgroup_root() -> (p: String)
    ensures
        p@ == cgroup_mount_point(),
{
    String::from_str("/sys/fs/cgroup")
}

/// The path through which the runtime's own open descriptor `fd` reaches
/// the file it refers to, even after `pivot_root`.
pub open spec fn spec_fd_path(fd: i32) -> Seq<char> {
    "/proc/self/fd/"@ + signed_decimal(fd as int)
}

/// The path of descriptor `fd` under `/proc/self/fd`.
pub fn fd_path(fd: i32) -> (p: String)
    ensures
        p@ == spec_fd_path(fd),
{
    let mut p = String::from_str("/proc/self/fd/");
    let digits = format_i32(fd);
    p.append(digits.as_str());
    p
}

/// The host's process id in a `/proc/<pid>/status` text: the line that
/// begins with `NSpid:` lists the process id in each nested PID namespace,
/// outermost first; its second word is the id in the host's namespace.
pub open spec fn spec_host_pid_in(status: Seq<char>) -> Option<i32> {
    match first_with_prefix(lines(status), "NSpid:"@) {
        Some(line) => if words(line).len() > 1 {
            spec_parse_i32(words(line)[1])
        } else {
            None
        },
        None => None,
    }
}

/// Reads the host's process id from a process status text; `EINVAL` when
/// there is no `NSpid:` line, it has no id, or the id is no `i32`.
pub fn parse_host_pid(status: &str) -> (r: Result<i32, SysError>)
    ensures
        r == (match spec_host_pid_in(status@) {
            Some(pid) => Ok(pid),
            None => Err(SysError::InvalidArgument),
        }),
{
    let text = to_chars(status);
    let ls = split_lines(&text);
    let key = to_chars("NSpid:");
    match find_with_prefix(&ls, &key) {
        None => Err(SysError::InvalidArgument),
        Some(i) => {
            let ws = split_whitespace(&ls[i]);
            proof {
                assert(ls.deep_view()[i as int] =~= ls@[i as int]@);
                assert(ws.deep_view().len() == ws@.len());
            }
            if ws.len() < 2 {
                return Err(SysError::InvalidArgument);
            }
            proof {
                assert(ws.deep_view()[1] =~= ws@[1]@);
            }
            match parse_i32(&ws[1]) {
                Some(pid) => Ok(pid),
                None => Err(SysError::InvalidArgument),
            }
        },
    }
}

/// The host process id kept by the runtime (0 before it is recorded), or
/// `EINVAL` when none was recorded.
pub fn host_pid(stored: i32) -> (r: Result<i32, SysError>)
    ensures
        r == (if stored <= 0 {
            Err::<i32, SysError>(SysError::InvalidArgument)
        } else {
            Ok(stored)
        }),
{
    if stored <= 0 {
        Err(SysError::InvalidArgument)
    } else {
        Ok(stored)
    }
}

/// The line written to `cgroup.procs` to move process `pid` there.
pub open spec fn spec_pid_line(pid: i32) -> Seq<char> {
    signed_decimal(pid as int).push('\n')
}

/// Formats the line that moves process `pid` into a cgroup.
pub fn pid_line(pid: i32) -> (s: String)
    ensures
        s@ == spec_pid_line(pid),
{
    let mut s = format_i32(pid);
    push_char(&mut s, '\n');
    s
}

/// Whether a controller list (as in `cgroup.controllers` or
/// `cgroup.subtree_control`) names `controller`.
pub fn lists_controller(list: &str, controller: &str) -> (r: bool)
    ensures
        r == words(list@).contains(controller@),
{
    let text = to_chars(list);
    let name = to_chars(controller);
    has_word(&text, &name)
}

/// The first check of enabling a controller: the cgroup must offer it
/// (`ENODEV` otherwise).
pub fn require_controller(available: &str, controller: &str) -> (r: Result<(), SysError>)
    ensures
        r == (if words(available@).contains(controller@) {
            Ok::<(), SysError>(())
        } else {
            Err(SysError::NoDevice)
        }),
{
    if lists_controller(available, controller) {
        Ok(())
    } else {
        Err(SysError::NoDevice)
    }
}

/// The second step of enabling a controller: what to write to the
/// `cgroup.subtree_control` file whose text is `enabled` — nothing when it
/// already lists `controller`, otherwise `request`.
pub fn controller_request(enabled: &str, controller: &str, request: &str) -> (r: Option<String>)
    ensures
        words(enabled@).contains(controller@) ==> r is None,
        !words(enabled@).contains(controller@) ==> r is Some && r->Some_0@ == request@,
{
    if lists_controller(enabled, controller) {
        None
    } else {
        Some(String::from_str(request))
    }
}

/// A cgroup made for a container.
pub struct CgroupHandle {
    parent_dir: String,
    container_dir: String,
}

/// A container's cgroup as plain values.
pub struct CgroupView {
    /// The runtime's cgroup, in which container cgroups are made.
    pub parent_dir: Seq<char>,
    /// The container's own cgroup.
    pub container_dir: Seq<char>,
}

impl View for CgroupHandle {
    type V = CgroupView;

    closed spec fn view(&self) -> CgroupView {
        CgroupView { parent_dir: self.parent_dir@, container_dir: self.container_dir@ }
    }
}

/// The operation that makes a controller available below the cgroup `dir`.
pub open spec fn enable_controller_op(dir: Seq<char>, controller: Seq<char>) -> OpView {
    OpView::EnableController {
        available_file: join_path(dir, "cgroup.controllers"@),
        enabled_file: join_path(dir, "cgroup.subtree_control"@),
        controller,
        request: seq!['+'] + controller,
    }
}

/// The runtime's cgroup below the host's cgroup root `root`.
pub open spec fn runtime_cgroup(root: Seq<char>) -> Seq<char> {
    join_path(root, "sigil"@)
}

/// The step that moves the host process into the cgroup `dir`, or the
/// error when no host process id was recorded.
pub open spec fn attach_op(dir: Seq<char>, stored_pid: i32) -> OpView {
    if stored_pid <= 0 {
        OpView::Fail(SysError::InvalidArgument)
    } else {
        OpView::WriteFile { path: join_path(dir, "cgroup.procs"@), contents: spec_pid_line(stored_pid) }
    }
}

/// The cgroup setup, in order: create the runtime's cgroup, enable the
/// memory controller below the root and below it, create the container's
/// cgroup, write its memory limit, and move the host process into it.
pub open spec fn spec_setup_cgroups(config: crate::config::ConfigView, root: Seq<char>, stored_pid: i32) -> Seq<OpView> {
    let sigil = runtime_cgroup(root);
    let container = join_path(sigil, config.cgroup_name);
    seq![
        OpView::CreateDirAll(sigil),
        enable_controller_op(root, "memory"@),
        enable_controller_op(sigil, "memory"@),
        OpView::CreateDirAll(container),
        OpView::WriteFile { path: join_path(container, "memory.max"@), contents: config.memory_max },
        attach_op(container, stored_pid),
    ]
}

fn enable_memory(dir: &str) -> (op: HostOp)
    ensures
        op@ == enable_controller_op(dir@, "memory"@),
{
    let mut request = String::new();
    push_char(&mut request, '+');
    request.append("memory");
    HostOp::EnableController {
        available_file: path_join(dir, "cgroup.controllers"),
        enabled_file: path_join(dir, "cgroup.subtree_control"),
        controller: String::from_str("memory"),
        request,
    }
}

fn attach(dir: &str, stored_pid: i32) -> (op: HostOp)
    ensures
        op@ == attach_op(dir@, stored_pid),
{
    match host_pid(stored_pid) {
        Err(e) => HostOp::Fail(e),
        Ok(pid) => HostOp::WriteFile { path: path_join(dir, "cgroup.procs"), contents: pid_line(pid) },
    }
}

/// The cgroup of a container configured by `config`, below the host's
/// cgroup root `root`, with the plan that creates it and moves the host
/// process (`stored_pid`, 0 if not recorded) into it.
pub fn setup_cgroups(config: &ContainerConfig, root: &str, stored_pid: i32) -> (r: (CgroupHandle, Vec<HostOp>))
    ensures
        r.0@.parent_dir == runtime_cgroup(root@),
        r.0@.container_dir == join_path(runtime_cgroup(root@), config.cgroup_name@),
        plan_view(r.1@) == spec_setup_cgroups(config@, root@, stored_pid),
{
    let sigil = path_join(root, "sigil");
    let container = path_join(sigil.as_str(), config.cgroup_name.as_str());
    let mut ops = Vec::new();
    ops.push(HostOp::CreateDirAll(sigil.clone()));
    ops.push(enable_memory(root));
    ops.push(enable_memory(sigil.as_str()));
    ops.push(HostOp::CreateDirAll(container.clone()));
    ops.push(
        HostOp::WriteFile {
            path: path_join(container.as_str(), "memory.max"),
            contents: config.memory_max.clone(),
        },
    );
    ops.push(attach(container.as_str(), stored_pid));
    assert(plan_view(ops@) =~= spec_setup_cgroups(config@, root@, stored_pid));
    (CgroupHandle { parent_dir: sigil, container_dir: container }, ops)
}

/// The cleanup of a container's cgroup, in order: move the host process
/// back into the runtime's cgroup, then remove the container's cgroup
/// (already gone is fine). Without a recorded host process id it fails
/// before doing anything.
pub open spec fn spec_cleanup(handle: CgroupView, stored_pid: i32) -> Seq<OpView> {
    if stored_pid <= 0 {
        seq![OpView::Fail(SysError::InvalidArgument)]
    } else {
        seq![
            attach_op(handle.parent_dir, stored_pid),
            OpView::RemoveDir { path: handle.container_dir, missing_ok: true },
        ]
    }
}

impl CgroupHandle {
    /// The runtime's cgroup.
    pub fn parent_dir(&self) -> (p: &String)
        ensures
            p@ == self@.parent_dir,
    {
        &self.parent_dir
    }

    /// The container's cgroup.
    pub fn container_dir(&self) -> (p: &String)
        ensures
            p@ == self@.container_dir,
    {
        &self.container_dir
    }

    /// The plan that undoes the container's cgroup.
    pub fn cleanup(&self, stored_pid: i32) -> (ops: Vec<HostOp>)
        ensures
            plan_view(ops@) == spec_cleanup(self@, stored_pid),
    {
        let mut ops = Vec::new();
        if stored_pid <= 0 {
            ops.push(HostOp::Fail(SysError::InvalidArgument));
            assert(plan_view(ops@) =~= spec_cleanup(self@, stored_pid));
            return ops;
        }
        ops.push(attach(self.parent_dir.as_str(), stored_pid));
        ops.push(HostOp::RemoveDir { path: self.container_dir.clone(), missing_ok: true });
        assert(plan_view(ops@) =~= spec_cleanup(self@, stored_pid));
        ops
    }
}


/// What the runtime writes to `cgroup.procs` reads back as the process id
/// it wrote: the line, without its newline, parses to the same id.
pub proof fn lemma_pid_line_roundtrip(pid: i32)
    ensures
        spec_pid_line(pid).drop_last() == signed_decimal(pid as int),
        spec_parse_i32(spec_pid_line(pid).drop_last()) == Some(pid),
{
    assert(spec_pid_line(pid).drop_last() =~= signed_decimal(pid as int));
    crate::text::lemma_parse_format_roundtrip(pid);
}

/// The host process id is the second word of the first `NSpid:` line,
/// read as an `i32` whatever its size: the result is exactly what that
/// word parses to.
pub proof fn lemma_host_pid_is_second_word(status: Seq<char>, line: Seq<char>)
    requires
        first_with_prefix(lines(status), "NSpid:"@) == Some(line),
        words(line).len() > 1,
    ensures
        spec_host_pid_in(status) == spec_parse_i32(words(line)[1]),
{
}

/// Every `i32` written as the second word of the first `NSpid:` line is read
/// back as the host process id, with no bound on its value.
pub proof fn lemma_host_pid_any_value(status: Seq<char>, line: Seq<char>, n: i32)
    requires
        first_with_prefix(lines(status), "NSpid:"@) == Some(line),
        words(line).len() > 1,
        words(line)[1] == signed_decimal(n as int),
    ensures
        spec_host_pid_in(status) == Some(n),
{
    crate::text::lemma_parse_format_roundtrip(n);
}

/// Without an `NSpid:` line, or with one that has no second word, there is
/// no host process id.
pub proof fn lemma_host_pid_missing(status: Seq<char>)
    requires
        match first_with_prefix(lines(status), "NSpid:"@) {
            Some(line) => words(line).len() <= 1,
            None => true,
        },
    ensures
        spec_host_pid_in(status) is None,
{
}

/// What the cgroup setup does, in terms of its inputs: six steps; the fifth
/// writes the configured memory limit, unchanged, to `memory.max` of the
/// container's cgroup `<root>/sigil/<name>`; the sixth writes the recorded
/// host process id and a newline to its `cgroup.procs`, or fails with
/// `EINVAL` when no id was recorded.
pub proof fn lemma_setup_writes_configuration(
    config: crate::config::ConfigView,
    root: Seq<char>,
    stored_pid: i32,
)
    ensures
        spec_setup_cgroups(config, root, stored_pid).len() == 6,
        spec_setup_cgroups(config, root, stored_pid)[0] == OpView::CreateDirAll(
            join_path(root, "sigil"@),
        ),
        spec_setup_cgroups(config, root, stored_pid)[1] == (OpView::EnableController {
            available_file: join_path(root, "cgroup.controllers"@),
            enabled_file: join_path(root, "cgroup.subtree_control"@),
            controller: "memory"@,
            request: "+memory"@,
        }),
        spec_setup_cgroups(config, root, stored_pid)[2] == (OpView::EnableController {
            available_file: join_path(join_path(root, "sigil"@), "cgroup.controllers"@),
            enabled_file: join_path(join_path(root, "sigil"@), "cgroup.subtree_control"@),
            controller: "memory"@,
            request: "+memory"@,
        }),
        spec_setup_cgroups(config, root, stored_pid)[3] == OpView::CreateDirAll(
            join_path(join_path(root, "sigil"@), config.cgroup_name),
        ),
        spec_setup_cgroups(config, root, stored_pid)[4] == (OpView::WriteFile {
            path: join_path(join_path(join_path(root, "sigil"@), config.cgroup_name), "memory.max"@),
            contents: config.memory_max,
        }),
        stored_pid > 0 ==> spec_setup_cgroups(config, root, stored_pid)[5] == (OpView::WriteFile {
            path: join_path(join_path(join_path(root, "sigil"@), config.cgroup_name), "cgroup.procs"@),
            contents: signed_decimal(stored_pid as int).push('\n'),
        }),
        stored_pid <= 0 ==> spec_setup_cgroups(config, root, stored_pid)[5] == OpView::Fail(
            SysError::InvalidArgument,
        ),
{
    reveal_strlit("+memory");
    reveal_strlit("memory");
    assert(seq!['+'] + "memory"@ =~= "+memory"@);
}

/// The default memory limit reaches the cgroup: for a command given with no
/// options, the limit the setup writes to `memory.max` is `100M`.
pub proof fn lemma_default_memory_limit_applied(
    args: Seq<Seq<char>>,
    pid: u32,
    root: Seq<char>,
    stored_pid: i32,
)
    requires
        args.len() > 0,
        !has_prefix(args[0], "--"@),
    ensures
        spec_parse_args(args, pid) matches Ok(c) && spec_setup_cgroups(c, root, stored_pid)[4]
            matches OpView::WriteFile { contents, .. } && contents == "100M"@,
{
    crate::config::lemma_plain_command_verbatim(args, pid);
    let c = spec_parse_args(args, pid)->Ok_0;
    lemma_setup_writes_configuration(c, root, stored_pid);
}

/// Cleanup undoes setup: it moves the host process back into the runtime's
/// cgroup, which setup created first, and only then removes the container's
/// cgroup, the one setup created and moved the process into.
pub proof fn lemma_cleanup_undoes_setup(
    config: crate::config::ConfigView,
    root: Seq<char>,
    stored_pid: i32,
    handle: CgroupView,
)
    requires
        stored_pid > 0,
        handle.parent_dir == runtime_cgroup(root),
        handle.container_dir == join_path(runtime_cgroup(root), config.cgroup_name),
    ensures
        spec_setup_cgroups(config, root, stored_pid)[0] == OpView::CreateDirAll(handle.parent_dir),
        spec_setup_cgroups(config, root, stored_pid)[3] == OpView::CreateDirAll(
            handle.container_dir,
        ),
        spec_setup_cgroups(config, root, stored_pid)[5] == attach_op(
            handle.container_dir,
            stored_pid,
        ),
        spec_cleanup(handle, stored_pid) == seq![
            attach_op(handle.parent_dir, stored_pid),
            OpView::RemoveDir { path: handle.container_dir, missing_ok: true },
        ],
{
}

} // verus!
