//! Error values of the runtime.
use vstd::prelude::*;
use crate::text::{format_i32, signed_decimal};

verus! {

/// The operating-system errors the runtime's decisions tell apart
/// (the `errno` values of the calls it makes).
#[derive(Debug, Clone, Copy, PartialEq, Eq, Structural)]
pub enum SysError {
    /// `EINTR`: the call was interrupted by a signal.
    Interrupted,
    /// `ECHILD`: there is no child to wait for.
    NoChild,
    /// `ESRCH`: no such process or process group.
    NoSuchProcess,
    /// `EINVAL`: invalid argument.
    InvalidArgument,
    /// `EPIPE`: the other end of a pipe is closed.
    BrokenPipe,
    /// `ENODEV`: no such device (here: a missing cgroup controller).
    NoDevice,
    /// `EIO`: input/output error.
    Io,
    /// Any other `errno` value.
    Other(i32),
}

/// Errors of a system call, as the runtime reports them to a user.
#[derive(Debug, Clone, Copy, PartialEq, Eq, Structural)]
pub enum SyscallError {
    PermissionDenied,
    InvalidArgument,
    ResourceUnavailable,
    /// For unknown or OS-specific error codes.
    UnknownError(i32),
}

impl SyscallError {
    /// The text that describes the error.
    pub open spec fn spec_message(self) -> Seq<char> {
        match self {
            SyscallError::PermissionDenied => "permission denied"@,
            SyscallError::InvalidArgument => "Invalid argument"@,
            SyscallError::ResourceUnavailable => "Resource unavailable"@,
            SyscallError::UnknownError(code) => "Unknown syscall error: "@ + signed_decimal(
                code as int,
            ),
        }
    }

    /// Describes the error in words.
    pub fn message(&self) -> (s: String)
        ensures
            s@ == self.spec_message(),
    {
        match self {
            SyscallError::PermissionDenied => String::from_str("permission denied"),
            SyscallError::InvalidArgument => String::from_str("Invalid argument"),
            SyscallError::ResourceUnavailable => String::from_str("Resource unavailable"),
            SyscallError::UnknownError(code) => {
                let mut s = String::from_str("Unknown syscall error: ");
                let digits = format_i32(*code);
                s.append(digits.as_str());
                s
            },
        }
    }
}

} // verus!
