//! What a lock query reports: who holds the lock at a path, if anyone. A query
//! opens the path read-only, without creating it, and asks the system which
//! process would stand in the way of an exclusive lock, without taking it.
use vstd::prelude::*;
use crate::Pidfile;
use crate::acquire::Action;
use crate::errno::{classify_errno, errno_class, ErrnoClass};
use crate::error::{from_raw_os_error, os_error_of};

verus! {

/// The open that a query makes: no creation, no write access.
pub fn query_open() -> (r: Action)
    ensures
        r == (Action::Open { create: false, write: false, mode: 0 }),
{
    Action::Open { create: false, write: false, mode: 0 }
}

/// The report of a query whose open failed with `code`: a missing file means
/// that nothing is locked there; any other error is handed back as it came.
pub fn query_open_failed(code: i32) -> (r: std::io::Result<Option<Pidfile>>)
    ensures
        errno_class(code) == ErrnoClass::NotFound ==> (r matches Ok(None)),
        errno_class(code) != ErrnoClass::NotFound ==> (r matches Err(e) && e == os_error_of(code)),
{
    if classify_errno(code) == ErrnoClass::NotFound {
        Ok(None)
    } else {
        Err(from_raw_os_error(code))
    }
}

/// The report of a query whose lock check named `pid` as the holder, 0 where
/// no lock stands in the way.
pub fn query_holder(pid: i32) -> (r: Option<Pidfile>)
    ensures
        pid == 0 ==> r is None,
        pid != 0 ==> (r matches Some(p) && p.owner() == pid as u32),
{
    if pid == 0 {
        None
    } else {
        Some(Pidfile { pid: pid as u32 })
    }
}

} // verus!
