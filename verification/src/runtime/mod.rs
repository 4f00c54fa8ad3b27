//! The runtime's processes: signal bookkeeping, the supervisor in the
//! runtime's own process, and the container's first process.
pub mod signals;
pub mod supervisor;
pub mod child;
