//! Whether a held lock is still the one at its path. The path may have been
//! deleted, recreated or replaced since the lock was taken; the descriptor
//! then still holds a lock, but on a file that the path no longer names.
use vstd::prelude::*;

verus! {

/// A file's identity on the host: its device and inode numbers.
#[derive(Clone, Copy, Debug, PartialEq, Eq, Structural)]
pub struct Identity {
    pub dev: u64,
    pub ino: u64,
}

/// Whether the lock is still current, given the identity of the file behind
/// the held descriptor and that of the file the path names now, each none
/// where its metadata query failed. Only the same device and inode confirm it.
pub fn still_current(held: Option<Identity>, at_path: Option<Identity>) -> (r: bool)
    ensures
        r == (held is Some && held == at_path),
{
    match (held, at_path) {
        (Some(a), Some(b)) => a.dev == b.dev && a.ino == b.ino,
        _ => false,
    }
}

} // verus!
