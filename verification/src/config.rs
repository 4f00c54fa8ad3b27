//! Command-line configuration of a container.
use vstd::prelude::*;
use crate::text::{
    chars_eq, decimal, format_u32, has_prefix, is_absolute_path, join_path, path_is_absolute,
    path_join, starts_with, to_chars,
};

verus! {

/// What the runtime needs to start a container.
pub struct ContainerConfig {
    /// The container's root filesystem directory.
    pub rootfs: String,
    /// The command to run inside the container, program first.
    pub command: Vec<String>,
    /// The name of the container's cgroup.
    pub cgroup_name: String,
    /// The container's memory limit, as written to `memory.max`.
    pub memory_max: String,
}

/// A container configuration as plain values.
pub struct ConfigView {
    pub rootfs: Seq<char>,
    pub command: Seq<Seq<char>>,
    pub cgroup_name: Seq<char>,
    pub memory_max: Seq<char>,
}

impl View for ContainerConfig {
    type V = ConfigView;

    open spec fn view(&self) -> ConfigView {
        ConfigView {
            rootfs: self.rootfs@,
            command: self.command.deep_view(),
            cgroup_name: self.cgroup_name@,
            memory_max: self.memory_max@,
        }
    }
}

/// The settings read so far from the options.
pub struct OptionsView {
    pub rootfs: Seq<char>,
    pub memory_max: Seq<char>,
    pub cgroup_name: Seq<char>,
}

/// The message returned when no command is given.
pub open spec fn usage_message() -> Seq<char> {
    "usage: sigil [--rootfs PATH] [--memory LIMIT] [--container-id ID] -- <command> [args...]"@
}

/// The configuration made of the options read and the command, which must
/// not be empty.
pub open spec fn finish_config(opts: OptionsView, command: Seq<Seq<char>>) -> Result<
    ConfigView,
    Seq<char>,
> {
    if command.len() == 0 {
        Err(usage_message())
    } else {
        Ok(
            ConfigView {
                rootfs: opts.rootfs,
                command,
                cgroup_name: opts.cgroup_name,
                memory_max: opts.memory_max,
            },
        )
    }
}

/// Reads the arguments from position `i` on. `--rootfs`, `--memory` and
/// `--container-id` each take the next argument as their value; `--` ends
/// the options and the rest is the command; any other argument that starts
/// with `--` is refused; the first other argument starts the command.
pub open spec fn parse_from(args: Seq<Seq<char>>, i: int, opts: OptionsView) -> Result<
    ConfigView,
    Seq<char>,
>
    decreases args.len() - i,
{
    if i < 0 || i >= args.len() {
        finish_config(opts, seq![])
    } else {
        let a = args[i];
        if a == "--rootfs"@ {
            if i + 1 < args.len() {
                parse_from(args, i + 2, OptionsView { rootfs: args[i + 1], ..opts })
            } else {
                Err("missing value for --rootfs"@)
            }
        } else if a == "--memory"@ {
            if i + 1 < args.len() {
                parse_from(args, i + 2, OptionsView { memory_max: args[i + 1], ..opts })
            } else {
                Err("missing value for --memory"@)
            }
        } else if a == "--container-id"@ {
            if i + 1 < args.len() {
                parse_from(args, i + 2, OptionsView { cgroup_name: args[i + 1], ..opts })
            } else {
                Err("missing value for --container-id"@)
            }
        } else if a == "--"@ {
            finish_config(opts, args.subrange(i + 1, args.len() as int))
        } else if has_prefix(a, "--"@) {
            Err("unknown option: "@ + a)
        } else {
            finish_config(opts, args.subrange(i, args.len() as int))
        }
    }
}

/// The defaults: root filesystem `./rootfs`, memory limit `100M`, and a
/// cgroup named after the runtime's process id.
pub open spec fn default_options(pid: u32) -> OptionsView {
    OptionsView {
        rootfs: "./rootfs"@,
        memory_max: "100M"@,
        cgroup_name: "container-"@ + decimal(pid as nat),
    }
}

/// The configuration that the arguments (the program name left out) give.
pub open spec fn spec_parse_args(args: Seq<Seq<char>>, pid: u32) -> Result<ConfigView, Seq<char>> {
    parse_from(args, 0, default_options(pid))
}

/// A parse result as plain values.
pub open spec fn config_result_view(r: Result<ContainerConfig, String>) -> Result<
    ConfigView,
    Seq<char>,
> {
    match r {
        Ok(c) => Ok(c@),
        Err(e) => Err(e@),
    }
}

fn copy_rest(args: &Vec<String>, from: usize) -> (rest: Vec<String>)
    requires
        from <= args@.len(),
    ensures
        rest.deep_view() == args.deep_view().subrange(from as int, args@.len() as int),
{
    let mut rest: Vec<String> = Vec::new();
    let mut j = from;
    while j < args.len()
        invariant
            from <= j <= args@.len(),
            rest.deep_view() == args.deep_view().subrange(from as int, j as int),
        decreases args@.len() - j,
    {
        let a = args[j].clone();
        let ghost before = rest.deep_view();
        rest.push(a);
        assert(rest.deep_view() =~= before.push(args@[j as int]@));
        assert(args.deep_view().subrange(from as int, j + 1) =~= args.deep_view().subrange(
            from as int,
            j as int,
        ).push(args@[j as int]@));
        j = j + 1;
    }
    rest
}

/// Reads the runtime's arguments (the program name left out); `pid` is the
/// runtime's process id, which names the default cgroup. The root filesystem
/// is left as given; `resolve_rootfs` makes it absolute.
pub fn parse_args(args: &Vec<String>, pid: u32) -> (r: Result<ContainerConfig, String>)
    ensures
        config_result_view(r) == spec_parse_args(args.deep_view(), pid),
{
    let ghost all = args.deep_view();
    let mut rootfs = String::from_str("./rootfs");
    let mut memory_max = String::from_str("100M");
    let mut cgroup_name = String::from_str("container-");
    let digits = format_u32(pid);
    cgroup_name.append(digits.as_str());
    let opt_rootfs = to_chars("--rootfs");
    let opt_memory = to_chars("--memory");
    let opt_id = to_chars("--container-id");
    let end_of_options = to_chars("--");
    let len = args.len();
    let mut i: usize = 0;
    while i < len
        invariant
            len == args@.len(),
            all == args.deep_view(),
            all.len() == len,
            i <= len + 1,
            opt_rootfs@ == "--rootfs"@,
            opt_memory@ == "--memory"@,
            opt_id@ == "--container-id"@,
            end_of_options@ == "--"@,
            spec_parse_args(all, pid) == parse_from(
                all,
                i as int,
                OptionsView {
                    rootfs: rootfs@,
                    memory_max: memory_max@,
                    cgroup_name: cgroup_name@,
                },
            ),
        decreases len + 1 - i,
    {
        let arg = to_chars(args[i].as_str());
        assert(all[i as int] == arg@);
        if chars_eq(&arg, &opt_rootfs) {
            if i + 1 < len {
                rootfs = args[i + 1].clone();
                i = i + 2;
            } else {
                return Err(String::from_str("missing value for --rootfs"));
            }
        } else if chars_eq(&arg, &opt_memory) {
            if i + 1 < len {
                memory_max = args[i + 1].clone();
                i = i + 2;
            } else {
                return Err(String::from_str("missing value for --memory"));
            }
        } else if chars_eq(&arg, &opt_id) {
            if i + 1 < len {
                cgroup_name = args[i + 1].clone();
                i = i + 2;
            } else {
                return Err(String::from_str("missing value for --container-id"));
            }
        } else if chars_eq(&arg, &end_of_options) {
            let command = copy_rest(args, i + 1);
            if command.len() == 0 {
                return Err(String::from_str(
                    "usage: sigil [--rootfs PATH] [--memory LIMIT] [--container-id ID] -- <command> [args...]",
                ));
            }
            return Ok(
                ContainerConfig { rootfs, command, cgroup_name, memory_max },
            );
        } else if starts_with(&arg, &end_of_options) {
            let mut msg = String::from_str("unknown option: ");
            msg.append(args[i].as_str());
            return Err(msg);
        } else {
            let command = copy_rest(args, i);
            return Ok(
                ContainerConfig { rootfs, command, cgroup_name, memory_max },
            );
        }
    }
    Err(String::from_str("usage: sigil [--rootfs PATH] [--memory LIMIT] [--container-id ID] -- <command> [args...]"))
}


/// Whether the configured root filesystem is a relative path, which
/// `resolve_rootfs` resolves against the current directory.
pub fn rootfs_is_relative(config: &ContainerConfig) -> (r: bool)
    ensures
        r == !is_absolute_path(config.rootfs@),
{
    !path_is_absolute(config.rootfs.as_str())
}

/// The configuration with its root filesystem made absolute: a relative one
/// is adjoined to the current directory `cwd`, which is only consulted then;
/// if the current directory could not be found, `cwd` holds why.
pub fn resolve_rootfs(config: ContainerConfig, cwd: Result<String, String>) -> (r: Result<
    ContainerConfig,
    String,
>)
    ensures
        is_absolute_path(config.rootfs@) ==> config_result_view(r) == Ok::<ConfigView, Seq<char>>(config@),
        !is_absolute_path(config.rootfs@) ==> match cwd {
            Ok(dir) => config_result_view(r) == Ok::<ConfigView, Seq<char>>(
                ConfigView { rootfs: join_path(dir@, config.rootfs@), ..config@ },
            ),
            Err(e) => config_result_view(r) == Err::<ConfigView, Seq<char>>(
                "failed to resolve current directory: "@ + e@,
            ),
        },
{
    if path_is_absolute(config.rootfs.as_str()) {
        return Ok(config);
    }
    match cwd {
        Ok(dir) => {
            let rootfs = path_join(dir.as_str(), config.rootfs.as_str());
            Ok(
                ContainerConfig {
                    rootfs,
                    command: config.command,
                    cgroup_name: config.cgroup_name,
                    memory_max: config.memory_max,
                },
            )
        },
        Err(e) => {
            let mut msg = String::from_str("failed to resolve current directory: ");
            msg.append(e.as_str());
            Err(msg)
        },
    }
}


proof fn lemma_parse_from_command_nonempty(args: Seq<Seq<char>>, i: int, opts: OptionsView)
    ensures
        parse_from(args, i, opts) matches Ok(c) ==> c.command.len() > 0,
    decreases args.len() - i,
{
    if 0 <= i && i + 1 < args.len() {
        lemma_parse_from_command_nonempty(args, i + 2, OptionsView { rootfs: args[i + 1], ..opts });
        lemma_parse_from_command_nonempty(args, i + 2, OptionsView { memory_max: args[i + 1], ..opts });
        lemma_parse_from_command_nonempty(args, i + 2, OptionsView { cgroup_name: args[i + 1], ..opts });
    }
}

proof fn lemma_option_words_have_prefix()
    ensures
        has_prefix("--rootfs"@, "--"@),
        has_prefix("--memory"@, "--"@),
        has_prefix("--container-id"@, "--"@),
        has_prefix("--"@, "--"@),
{
    reveal_strlit("--");
    reveal_strlit("--rootfs");
    reveal_strlit("--memory");
    reveal_strlit("--container-id");
    assert("--rootfs"@.subrange(0, 2) =~= "--"@);
    assert("--memory"@.subrange(0, 2) =~= "--"@);
    assert("--container-id"@.subrange(0, 2) =~= "--"@);
    assert("--"@.subrange(0, 2) =~= "--"@);
}

/// The first word that does not begin with `--` starts the command, at any
/// position and whatever options came before it: the command is that word
/// and every argument after it, and the settings are those read so far.
pub proof fn lemma_plain_word_starts_command(args: Seq<Seq<char>>, i: int, opts: OptionsView)
    requires
        0 <= i < args.len(),
        !has_prefix(args[i], "--"@),
    ensures
        parse_from(args, i, opts) == Ok::<ConfigView, Seq<char>>(
            ConfigView {
                rootfs: opts.rootfs,
                command: args.subrange(i, args.len() as int),
                cgroup_name: opts.cgroup_name,
                memory_max: opts.memory_max,
            },
        ),
{
    lemma_option_words_have_prefix();
}

/// An option with a value sets its setting and reading goes on after the
/// value: `--rootfs`, `--memory` and `--container-id` set the root
/// filesystem, the memory limit and the cgroup name, and change nothing else.
pub proof fn lemma_option_sets_value(args: Seq<Seq<char>>, i: int, opts: OptionsView)
    requires
        0 <= i,
        i + 1 < args.len(),
    ensures
        args[i] == "--rootfs"@ ==> parse_from(args, i, opts) == parse_from(
            args,
            i + 2,
            OptionsView { rootfs: args[i + 1], memory_max: opts.memory_max, cgroup_name: opts.cgroup_name },
        ),
        args[i] == "--memory"@ ==> parse_from(args, i, opts) == parse_from(
            args,
            i + 2,
            OptionsView { rootfs: opts.rootfs, memory_max: args[i + 1], cgroup_name: opts.cgroup_name },
        ),
        args[i] == "--container-id"@ ==> parse_from(args, i, opts) == parse_from(
            args,
            i + 2,
            OptionsView { rootfs: opts.rootfs, memory_max: opts.memory_max, cgroup_name: args[i + 1] },
        ),
{
    reveal_strlit("--rootfs");
    reveal_strlit("--memory");
    reveal_strlit("--container-id");
    assert("--rootfs"@ != "--memory"@) by {
        assert("--rootfs"@.len() != "--memory"@.len() || "--rootfs"@[2] != "--memory"@[2]);
    }
    assert("--rootfs"@ != "--container-id"@) by {
        assert("--rootfs"@.len() != "--container-id"@.len());
    }
    assert("--memory"@ != "--container-id"@) by {
        assert("--memory"@.len() != "--container-id"@.len());
    }
}

/// An option in last place, with no value after it, is refused, naming the
/// option; so is any other word that begins with `--` (but `--` itself).
pub proof fn lemma_option_errors(args: Seq<Seq<char>>, i: int, opts: OptionsView)
    requires
        0 <= i < args.len(),
    ensures
        i + 1 == args.len() && args[i] == "--rootfs"@ ==> parse_from(args, i, opts) == Err::<
            ConfigView,
            Seq<char>,
        >("missing value for --rootfs"@),
        i + 1 == args.len() && args[i] == "--memory"@ ==> parse_from(args, i, opts) == Err::<
            ConfigView,
            Seq<char>,
        >("missing value for --memory"@),
        i + 1 == args.len() && args[i] == "--container-id"@ ==> parse_from(args, i, opts) == Err::<
            ConfigView,
            Seq<char>,
        >("missing value for --container-id"@),
        has_prefix(args[i], "--"@) && args[i] != "--rootfs"@ && args[i] != "--memory"@
            && args[i] != "--container-id"@ && args[i] != "--"@ ==> parse_from(args, i, opts)
            == Err::<ConfigView, Seq<char>>("unknown option: "@ + args[i]),
{
    reveal_strlit("--rootfs");
    reveal_strlit("--memory");
    reveal_strlit("--container-id");
    assert("--rootfs"@ != "--memory"@) by {
        assert("--rootfs"@.len() != "--memory"@.len() || "--rootfs"@[2] != "--memory"@[2]);
    }
    assert("--rootfs"@ != "--container-id"@) by {
        assert("--rootfs"@.len() != "--container-id"@.len());
    }
    assert("--memory"@ != "--container-id"@) by {
        assert("--memory"@.len() != "--container-id"@.len());
    }
}

proof fn lemma_parse_from_command_is_suffix(args: Seq<Seq<char>>, i: int, opts: OptionsView)
    requires
        0 <= i,
    ensures
        parse_from(args, i, opts) matches Ok(c) ==> c.command.len() <= args.len() && c.command
            == args.subrange(args.len() - c.command.len(), args.len() as int),
    decreases args.len() - i,
{
    if i + 1 < args.len() {
        lemma_parse_from_command_is_suffix(args, i + 2, OptionsView { rootfs: args[i + 1], ..opts });
        lemma_parse_from_command_is_suffix(args, i + 2, OptionsView { memory_max: args[i + 1], ..opts });
        lemma_parse_from_command_is_suffix(args, i + 2, OptionsView { cgroup_name: args[i + 1], ..opts });
    }
}

/// The command is a tail of the arguments, taken whole: a successful parse
/// gives a command equal to the last `command.len()` arguments, so no
/// argument of the command is dropped, reordered or altered.
pub proof fn lemma_command_is_tail(args: Seq<Seq<char>>, pid: u32)
    ensures
        spec_parse_args(args, pid) matches Ok(c) ==> c.command.len() <= args.len() && c.command
            == args.subrange(args.len() - c.command.len(), args.len() as int),
{
    lemma_parse_from_command_is_suffix(args, 0, default_options(pid));
}

/// After an option and its value, the first plain word starts the command,
/// which keeps every word after it: `--rootfs v cmd args...` runs
/// `cmd args...` in `v`, with the other settings at their defaults.
pub proof fn lemma_rootfs_then_command(v: Seq<char>, rest: Seq<Seq<char>>, pid: u32)
    requires
        rest.len() > 0,
        !has_prefix(rest[0], "--"@),
    ensures
        spec_parse_args(seq!["--rootfs"@, v] + rest, pid) == Ok::<ConfigView, Seq<char>>(
            ConfigView {
                rootfs: v,
                command: rest,
                cgroup_name: "container-"@ + decimal(pid as nat),
                memory_max: "100M"@,
            },
        ),
{
    let args = seq!["--rootfs"@, v] + rest;
    assert(args[0] == "--rootfs"@);
    assert(args[1] == v);
    lemma_option_sets_value(args, 0, default_options(pid));
    assert(args[2] == rest[0]);
    lemma_plain_word_starts_command(
        args,
        2,
        OptionsView { rootfs: v, memory_max: "100M"@, cgroup_name: "container-"@ + decimal(pid as nat) },
    );
    assert(args.subrange(2, args.len() as int) =~= rest);
}

/// A configuration always has a command: whatever the arguments, a
/// successful parse gives a non-empty one.
pub proof fn lemma_parsed_command_nonempty(args: Seq<Seq<char>>, pid: u32)
    ensures
        spec_parse_args(args, pid) matches Ok(c) ==> c.command.len() > 0,
{
    lemma_parse_from_command_nonempty(args, 0, default_options(pid));
}

/// The command is taken verbatim: when the first argument is no option
/// (it does not begin with `--`), all the arguments form the command and
/// every setting keeps its default.
pub proof fn lemma_plain_command_verbatim(args: Seq<Seq<char>>, pid: u32)
    requires
        args.len() > 0,
        !has_prefix(args[0], "--"@),
    ensures
        spec_parse_args(args, pid) == Ok::<ConfigView, Seq<char>>(
            ConfigView {
                rootfs: "./rootfs"@,
                command: args,
                cgroup_name: "container-"@ + decimal(pid as nat),
                memory_max: "100M"@,
            },
        ),
{
    reveal_strlit("--");
    reveal_strlit("--rootfs");
    reveal_strlit("--memory");
    reveal_strlit("--container-id");
    let a = args[0];
    if a == "--rootfs"@ {
        assert(a.subrange(0, 2) == "--"@);
    }
    if a == "--memory"@ {
        assert(a.subrange(0, 2) == "--"@);
    }
    if a == "--container-id"@ {
        assert(a.subrange(0, 2) == "--"@);
    }
    if a == "--"@ {
        assert(a.subrange(0, 2) == "--"@);
    }
    assert(args.subrange(0, args.len() as int) == args);
}

/// Everything after `--` is the command, verbatim, even words that look
/// like options.
pub proof fn lemma_command_after_separator(rest: Seq<Seq<char>>, pid: u32)
    requires
        rest.len() > 0,
    ensures
        spec_parse_args(seq!["--"@].add(rest), pid) matches Ok(c) && c.command == rest,
{
    reveal_strlit("--");
    reveal_strlit("--rootfs");
    reveal_strlit("--memory");
    reveal_strlit("--container-id");
    let args = seq!["--"@].add(rest);
    assert(args[0] == "--"@);
    assert("--"@ != "--rootfs"@) by {
        assert("--"@.len() != "--rootfs"@.len());
    }
    assert("--"@ != "--memory"@) by {
        assert("--"@.len() != "--memory"@.len());
    }
    assert("--"@ != "--container-id"@) by {
        assert("--"@.len() != "--container-id"@.len());
    }
    assert(args.subrange(1, args.len() as int) == rest);
}

/// A resolved root filesystem is absolute whenever the current directory
/// it was resolved against is.
pub proof fn lemma_resolved_rootfs_absolute(dir: Seq<char>, rootfs: Seq<char>)
    requires
        is_absolute_path(dir),
    ensures
        is_absolute_path(join_path(dir, rootfs)),
{
    if !is_absolute_path(rootfs) {
        if dir.last() == '/' {
            assert((dir + rootfs)[0] == dir[0]);
        } else {
            assert((dir + seq!['/'] + rootfs)[0] == dir[0]);
        }
    }
}

} // verus!
