//! The two outcomes of a failed acquisition: a conflict with a live holder, or
//! a system call that failed for another reason.
use vstd::prelude::*;

verus! {

/// std's I/O error, carried through as an opaque value.
#[verifier::external_type_specification]
#[verifier::external_body]
pub struct ExIoError(std::io::Error);

/// The I/O error that stands for a raw OS error code.
pub uninterp spec fn os_error_of(code: i32) -> std::io::Error;

/// Relies on std's `io::Error::from_raw_os_error`: the error is made from the
/// code alone.
pub assume_specification[ std::io::Error::from_raw_os_error ](code: i32) -> (r: std::io::Error)
    ensures
        r == os_error_of(code),
;

/// The I/O error that carries an OS error code.
pub fn from_raw_os_error(err: i32) -> (r: std::io::Error)
    ensures
        r == os_error_of(err),
{
    std::io::Error::from_raw_os_error(err)
}

/// Why an acquisition failed: `conflict` when another live holder has the lock,
/// else the I/O error of the system call that failed.
#[derive(Debug)]
pub struct LockError {
    pub conflict: bool,
    pub io: Option<std::io::Error>,
}

impl LockError {
    /// Another live holder has the lock.
    pub fn conflict() -> (r: LockError)
        ensures
            r.conflict,
            r.io is None,
    {
        LockError { conflict: true, io: None }
    }

    /// A system call failed for a reason other than a conflict.
    pub fn io_error(err: std::io::Error) -> (r: LockError)
        ensures
            !r.conflict,
            r.io == Some(err),
    {
        LockError { conflict: false, io: Some(err) }
    }
}

} // verus!
