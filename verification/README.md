# sigil

A small Linux container runtime. The library (`src/`, verified with Verus)
holds the runtime's decisions and computations, each with a contract; the
program (`app/`) performs the system calls and runs the loops.

- `text` — decimal numbers, white-space separated words, lines, paths.
- `error` — the error values the runtime tells apart.
- `config` — command-line arguments to a container configuration.
- `runtime::signals` — which signals are handled and how; what a handler
  records and which event the supervisor takes from it.
- `runtime::supervisor` — forwarding termination to the container's process
  group, turning `waitpid` reports into the exit status, retrying `setpgid`.
- `runtime::child` — the order of the container's setup stages and the
  decisions of its init process.
- `isolation` — namespaces (the container unshares a mount namespace of its
  own before any mount), and the plans of mounts, `pivot_root`, `/proc`
  and cgroup operations that `app/` carries out in order.
