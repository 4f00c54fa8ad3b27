[package]
name = "sigil"
version = "0.1.0"
edition = "2021"
publish = false

[dependencies]
nix = { version = "0.30", features = ["signal", "process", "sched", "mount", "fs", "hostname", "term", "ioctl", "user"] }
