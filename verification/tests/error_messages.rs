use sigil::error::SyscallError;

#[test]
fn syscall_error_messages() {
    assert_eq!(SyscallError::PermissionDenied.message(), "permission denied");
    assert_eq!(SyscallError::InvalidArgument.message(), "Invalid argument");
    assert_eq!(SyscallError::ResourceUnavailable.message(), "Resource unavailable");
    assert_eq!(SyscallError::UnknownError(-95).message(), "Unknown syscall error: -95");
    assert_eq!(SyscallError::UnknownError(38).message(), "Unknown syscall error: 38");
}
