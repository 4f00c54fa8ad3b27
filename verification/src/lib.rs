//! Sigil: the decision logic of a small Linux container runtime.
//!
//! The runtime's system calls are performed by its host program; this library
//! holds what the runtime decides and computes, each piece with a contract:
//! argument parsing, the text formats it reads and writes, the plans of
//! isolation steps, and the supervision state machines.
pub mod text;
pub mod error;
pub mod config;
pub mod runtime;
pub mod isolation;
