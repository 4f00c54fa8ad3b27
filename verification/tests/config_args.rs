use sigil::config::{parse_args, resolve_rootfs, rootfs_is_relative, ContainerConfig};

fn args(v: &[&str]) -> Vec<String> {
    v.iter().map(|s| s.to_string()).collect()
}

fn ok(r: Result<ContainerConfig, String>) -> ContainerConfig {
    match r {
        Ok(c) => c,
        Err(e) => panic!("unexpected error {}", e),
    }
}

#[test]
fn plain_command_gets_defaults() {
    let c = ok(parse_args(&args(&["/bin/sh", "-c", "exit 7"]), 4321));
    assert_eq!(c.rootfs, "./rootfs");
    assert_eq!(c.memory_max, "100M");
    assert_eq!(c.cgroup_name, "container-4321");
    assert_eq!(c.command, args(&["/bin/sh", "-c", "exit 7"]));
}

#[test]
fn all_options_then_separator() {
    let c = ok(parse_args(
        &args(&["--rootfs", "/srv/root", "--memory", "256M", "--container-id", "web", "--", "ls", "--all"]),
        1,
    ));
    assert_eq!(c.rootfs, "/srv/root");
    assert_eq!(c.memory_max, "256M");
    assert_eq!(c.cgroup_name, "web");
    assert_eq!(c.command, args(&["ls", "--all"]));
}

#[test]
fn later_option_overrides_earlier() {
    let c = ok(parse_args(&args(&["--memory", "1G", "--memory", "2G", "top"]), 9));
    assert_eq!(c.memory_max, "2G");
    assert_eq!(c.command, args(&["top"]));
}

#[test]
fn single_dash_word_starts_command() {
    let c = ok(parse_args(&args(&["-x", "--rootfs", "r"]), 9));
    assert_eq!(c.command, args(&["-x", "--rootfs", "r"]));
    assert_eq!(c.rootfs, "./rootfs");
}

#[test]
fn missing_values_are_reported() {
    assert_eq!(parse_args(&args(&["--rootfs"]), 1).err().unwrap(), "missing value for --rootfs");
    assert_eq!(parse_args(&args(&["--memory"]), 1).err().unwrap(), "missing value for --memory");
    assert_eq!(
        parse_args(&args(&["--container-id"]), 1).err().unwrap(),
        "missing value for --container-id"
    );
}

#[test]
fn unknown_option_is_reported() {
    assert_eq!(parse_args(&args(&["--net", "host", "sh"]), 1).err().unwrap(), "unknown option: --net");
    assert_eq!(parse_args(&args(&["--rootfs=/x", "sh"]), 1).err().unwrap(), "unknown option: --rootfs=/x");
}

#[test]
fn empty_command_gives_usage() {
    let usage = "usage: sigil [--rootfs PATH] [--memory LIMIT] [--container-id ID] -- <command> [args...]";
    assert_eq!(parse_args(&args(&[]), 1).err().unwrap(), usage);
    assert_eq!(parse_args(&args(&["--"]), 1).err().unwrap(), usage);
    assert_eq!(parse_args(&args(&["--memory", "1G"]), 1).err().unwrap(), usage);
}

#[test]
fn relative_rootfs_is_resolved_against_cwd() {
    let c = ok(parse_args(&args(&["sh"]), 5));
    assert!(rootfs_is_relative(&c));
    let c = ok(resolve_rootfs(c, Ok("/home/user".to_string())));
    assert_eq!(c.rootfs, "/home/user/./rootfs");
    assert!(!rootfs_is_relative(&c));
}

#[test]
fn absolute_rootfs_ignores_cwd() {
    let c = ok(parse_args(&args(&["--rootfs", "/srv/r", "sh"]), 5));
    let c = ok(resolve_rootfs(c, Err("no cwd".to_string())));
    assert_eq!(c.rootfs, "/srv/r");
}

#[test]
fn unresolvable_cwd_is_reported() {
    let c = ok(parse_args(&args(&["sh"]), 5));
    let e = resolve_rootfs(c, Err("No such file or directory (os error 2)".to_string())).err().unwrap();
    assert_eq!(e, "failed to resolve current directory: No such file or directory (os error 2)");
}
