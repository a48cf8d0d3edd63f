//! Reading the result of a system call: success, a transparent retry after a
//! signal interrupted it, or a failure carrying the OS error code.
use vstd::prelude::*;

verus! {

/// What an OS error code means to the locking engine.
#[derive(Clone, Copy, Debug, PartialEq, Eq, Structural)]
pub enum ErrnoClass {
    /// The call was interrupted by a signal and should be issued again.
    Interrupted,
    /// The resource is temporarily unavailable (`EAGAIN`).
    WouldBlock,
    /// Access was refused (`EACCES`).
    AccessDenied,
    /// No such file or directory (`ENOENT`).
    NotFound,
    /// Any other error.
    Other,
}

/// The meaning that the target system gives to an error code.
pub uninterp spec fn errno_class(code: i32) -> ErrnoClass;

/// Relies on nix's `Errno::from_raw`: which error a raw errno value stands for
/// on the target system.
#[verifier::external_body]
pub(crate) fn classify_errno(code: i32) -> (r: ErrnoClass)
    ensures
        r == errno_class(code),
{
    match nix::errno::Errno::from_raw(code) {
        nix::errno::Errno::EINTR => ErrnoClass::Interrupted,
        nix::errno::Errno::EAGAIN => ErrnoClass::WouldBlock,
        nix::errno::Errno::EACCES => ErrnoClass::AccessDenied,
        nix::errno::Errno::ENOENT => ErrnoClass::NotFound,
        _ => ErrnoClass::Other,
    }
}

/// How a retry loop goes on after one system call.
#[derive(Clone, Copy, Debug, PartialEq, Eq, Structural)]
pub enum SyscallStep {
    /// The call returned this non-negative value.
    Returned(i64),
    /// A signal interrupted the call: issue it again.
    Retry,
    /// The call failed with this OS error code.
    Failed(i32),
}

pub open spec fn syscall_step(ret: i64, code: i32) -> SyscallStep {
    if ret >= 0 {
        SyscallStep::Returned(ret)
    } else if errno_class(code) == ErrnoClass::Interrupted {
        SyscallStep::Retry
    } else {
        SyscallStep::Failed(code)
    }
}

/// Reads the return value of a system call and, where it is negative, the
/// errno that it left.
pub fn after_syscall(ret: i64, code: i32) -> (r: SyscallStep)
    ensures
        r == syscall_step(ret, code),
{
    if ret >= 0 {
        SyscallStep::Returned(ret)
    } else if classify_errno(code) == ErrnoClass::Interrupted {
        SyscallStep::Retry
    } else {
        SyscallStep::Failed(code)
    }
}

/// How a non-blocking request for the exclusive lock went.
#[derive(Clone, Copy, Debug, PartialEq, Eq, Structural)]
pub enum LockAttempt {
    /// The lock was granted.
    Granted,
    /// Another holder has the lock: the expected outcome of a conflict.
    Busy,
    /// A signal interrupted the request: issue it again.
    Retry,
    /// The request failed for another reason.
    Failed(i32),
}

/// The errors by which a set-lock request says that someone else holds the lock.
pub open spec fn is_lock_busy(code: i32) -> bool {
    errno_class(code) == ErrnoClass::WouldBlock || errno_class(code) == ErrnoClass::AccessDenied
}

pub open spec fn lock_attempt(ret: i64, code: i32) -> LockAttempt {
    if ret >= 0 {
        LockAttempt::Granted
    } else if is_lock_busy(code) {
        LockAttempt::Busy
    } else if errno_class(code) == ErrnoClass::Interrupted {
        LockAttempt::Retry
    } else {
        LockAttempt::Failed(code)
    }
}

/// Reads the result of a non-blocking set-lock request.
pub fn after_set_lock(ret: i64, code: i32) -> (r: LockAttempt)
    ensures
        r == lock_attempt(ret, code),
{
    if ret >= 0 {
        return LockAttempt::Granted;
    }
    let class = classify_errno(code);
    if class == ErrnoClass::WouldBlock || class == ErrnoClass::AccessDenied {
        LockAttempt::Busy
    } else if class == ErrnoClass::Interrupted {
        LockAttempt::Retry
    } else {
        LockAttempt::Failed(code)
    }
}

} // verus!
