//! Claims exclusive ownership of a pidfile so that a second instance of the
//! same service can detect the conflict and refuse to run.
//!
//! The operating system arbitrates the advisory lock; this library holds the
//! decisions around it: how a system call's result is read, the order in which
//! an acquisition opens, locks, truncates and writes, the on-disk record of the
//! owner, what a lock query reports and when a held lock is still current.
use vstd::prelude::*;

pub mod acquire;
pub mod errno;
pub mod error;
pub mod identity;
pub mod query;
pub mod ticket;

verus! {

/// A pidfile that exists at the requested location and has an active lock.
#[derive(Clone, Copy, Debug)]
pub struct Pidfile {
    pub(crate) pid: u32,
}

impl Pidfile {
    /// The owner that this record names.
    pub closed spec fn owner(self) -> u32 {
        self.pid
    }

    /// The process id that holds the lock.
    pub fn pid(&self) -> (r: u32)
        ensures
            r == self.owner(),
    {
        self.pid
    }
}

} // verus!
