//! The acquisition of a lock, as a state machine that the caller drives: it
//! names the next system operation, the caller performs it and reports back.
//!
//! `Unopened -> Opened -> LockDenied` on a conflict, else
//! `Opened -> LockGranted -> Truncated -> Written`; any step may instead end in
//! `SystemFailure`. The record is only truncated and written once the lock is
//! held, so a conflict never touches the holder's file.
use vstd::prelude::*;
use crate::Pidfile;
use crate::error::{from_raw_os_error, os_error_of, LockError};
use crate::ticket::{ticket_bytes, TicketWriter};

verus! {

/// Where an acquisition stands.
#[derive(Clone, Copy, Debug, PartialEq, Eq, Structural)]
pub enum Stage {
    Unopened,
    Opened,
    LockGranted,
    Truncated,
    Written,
    LockDenied,
    SystemFailure(i32),
}

/// The operation that the caller performs next.
#[derive(Clone, Copy, Debug, PartialEq, Eq, Structural)]
pub enum Action {
    /// Open the path with synchronous writes, for creation and writing, with
    /// these permission bits.
    Open { create: bool, write: bool, mode: u32 },
    /// Request the exclusive lock without blocking.
    TryLock,
    /// Truncate the file to length zero.
    Truncate,
    /// Write the whole owner record at offset zero.
    Write,
    /// Nothing is left to do: read the outcome.
    Finish,
}

/// What the caller reports after performing an action.
#[derive(Clone, Copy, Debug, PartialEq, Eq, Structural)]
pub enum StepEvent {
    /// The operation succeeded (for the lock request: the lock was granted).
    Done,
    /// The lock request found another holder.
    Busy,
    /// The operation failed with this OS error code.
    Failed(i32),
}

pub open spec fn is_terminal(s: Stage) -> bool {
    s is Written || s is LockDenied || s is SystemFailure
}

/// The operation that a stage asks for.
pub open spec fn action_for(s: Stage, perm: u32) -> Action {
    match s {
        Stage::Unopened => Action::Open { create: true, write: true, mode: perm },
        Stage::Opened => Action::TryLock,
        Stage::LockGranted => Action::Truncate,
        Stage::Truncated => Action::Write,
        _ => Action::Finish,
    }
}

/// A report that answers the action of the stage: only a lock request can be
/// answered with `Busy`.
pub open spec fn fits(s: Stage, e: StepEvent) -> bool {
    e is Busy ==> (s is Opened || is_terminal(s))
}

/// The stage after a report.
pub open spec fn step(s: Stage, e: StepEvent) -> Stage {
    if is_terminal(s) {
        s
    } else {
        match e {
            StepEvent::Failed(code) => Stage::SystemFailure(code),
            StepEvent::Busy => if s is Opened {
                Stage::LockDenied
            } else {
                s
            },
            StepEvent::Done => match s {
                Stage::Unopened => Stage::Opened,
                Stage::Opened => Stage::LockGranted,
                Stage::LockGranted => Stage::Truncated,
                _ => Stage::Written,
            },
        }
    }
}

/// The stage that a fresh acquisition reaches through these reports.
pub open spec fn run(events: Seq<StepEvent>) -> Stage
    decreases events.len(),
{
    if events.len() == 0 {
        Stage::Unopened
    } else {
        step(run(events.drop_last()), events.last())
    }
}

/// Every report of the sequence answers the action that was asked for.
pub open spec fn valid_run(events: Seq<StepEvent>) -> bool
    decreases events.len(),
{
    if events.len() == 0 {
        true
    } else {
        valid_run(events.drop_last()) && fits(run(events.drop_last()), events.last())
    }
}

/// The actions that a fresh acquisition asks for, one before each report.
pub open spec fn issued(events: Seq<StepEvent>, perm: u32) -> Seq<Action>
    decreases events.len(),
{
    if events.len() == 0 {
        Seq::empty()
    } else {
        issued(events.drop_last(), perm).push(action_for(run(events.drop_last()), perm))
    }
}

/// A lock acquisition for one owner, with the permission bits of the file.
pub struct Acquisition {
    pid: u32,
    perm: u32,
    stage: Stage,
}

impl Acquisition {
    pub closed spec fn owner(&self) -> u32 {
        self.pid
    }

    pub closed spec fn perm(&self) -> u32 {
        self.perm
    }

    pub closed spec fn current(&self) -> Stage {
        self.stage
    }

    /// An acquisition that has done nothing yet.
    pub fn new(pid: u32, perm: u32) -> (r: Acquisition)
        ensures
            r.owner() == pid,
            r.perm() == perm,
            r.current() == Stage::Unopened,
    {
        Acquisition { pid, perm, stage: Stage::Unopened }
    }

    /// Where the acquisition stands.
    pub fn stage(&self) -> (r: Stage)
        ensures
            r == self.current(),
    {
        self.stage
    }

    /// The operation to perform next.
    pub fn next_action(&self) -> (r: Action)
        ensures
            r == action_for(self.current(), self.perm()),
    {
        match self.stage {
            Stage::Unopened => Action::Open { create: true, write: true, mode: self.perm },
            Stage::Opened => Action::TryLock,
            Stage::LockGranted => Action::Truncate,
            Stage::Truncated => Action::Write,
            _ => Action::Finish,
        }
    }

    /// Takes the report on the action just performed. A `Busy` that answers
    /// anything but a lock request changes nothing.
    pub fn advance(&mut self, event: StepEvent)
        ensures
            final(self).current() == step(old(self).current(), event),
            final(self).owner() == old(self).owner(),
            final(self).perm() == old(self).perm(),
    {
        let next = match (self.stage, event) {
            (Stage::Written, _) => Stage::Written,
            (Stage::LockDenied, _) => Stage::LockDenied,
            (Stage::SystemFailure(code), _) => Stage::SystemFailure(code),
            (_, StepEvent::Failed(code)) => Stage::SystemFailure(code),
            (Stage::Opened, StepEvent::Busy) => Stage::LockDenied,
            (s, StepEvent::Busy) => s,
            (Stage::Unopened, StepEvent::Done) => Stage::Opened,
            (Stage::Opened, StepEvent::Done) => Stage::LockGranted,
            (Stage::LockGranted, StepEvent::Done) => Stage::Truncated,
            (_, StepEvent::Done) => Stage::Written,
        };
        self.stage = next;
    }

    /// The record to write when the action is `Write`: the owner's id in
    /// decimal and a newline.
    pub fn ticket(&self) -> (r: TicketWriter)
        ensures
            r.wf(),
            r.record() == ticket_bytes(self.owner()),
            r.written() == 0,
    {
        TicketWriter::new(self.pid)
    }

    /// The result of a finished acquisition: the owner's record once it is
    /// written, a conflict where another holder has the lock, or the I/O error
    /// of the failed step; none while there is work left.
    pub fn outcome(&self) -> (r: Option<Result<Pidfile, LockError>>)
        ensures
            !is_terminal(self.current()) ==> r is None,
            self.current() is Written ==> (r matches Some(Ok(p)) && p.owner() == self.owner()),
            self.current() is LockDenied ==> (r matches Some(Err(e)) && e.conflict && e.io is None),
            self.current() is SystemFailure ==> (r matches Some(Err(e)) && !e.conflict && e.io
                == Some(os_error_of(self.current()->SystemFailure_0))),
    {
        match self.stage {
            Stage::Written => Some(Ok(Pidfile { pid: self.pid })),
            Stage::LockDenied => Some(Err(LockError::conflict())),
            Stage::SystemFailure(code) => Some(Err(LockError::io_error(from_raw_os_error(code)))),
            _ => None,
        }
    }
}

/// The actions of an acquisition that succeeds, in order.
pub open spec fn granted_actions(perm: u32) -> Seq<Action> {
    seq![
        Action::Open { create: true, write: true, mode: perm },
        Action::TryLock,
        Action::Truncate,
        Action::Write,
    ]
}

proof fn lemma_run_shape(events: Seq<StepEvent>, perm: u32)
    requires
        valid_run(events),
    ensures
        issued(events, perm).len() == events.len(),
        run(events) is Unopened ==> events.len() == 0,
        run(events) is Opened ==> events.len() == 1 && events[0] == StepEvent::Done,
        run(events) is LockGranted ==> events.len() == 2 && issued(events, perm)
            =~= granted_actions(perm).subrange(0, 2),
        run(events) is Truncated ==> events.len() == 3 && issued(events, perm)
            =~= granted_actions(perm).subrange(0, 3),
        run(events) is Written ==> {
            &&& events.len() >= 4
            &&& issued(events, perm).subrange(0, 4) =~= granted_actions(perm)
            &&& forall|i: int|
                4 <= i < events.len() ==> #[trigger] issued(events, perm)[i] == Action::Finish
        },
        run(events) is LockDenied ==> {
            &&& events.len() >= 2
            &&& events[0] == StepEvent::Done
            &&& events[1] == StepEvent::Busy
            &&& issued(events, perm).subrange(0, 2) =~= granted_actions(perm).subrange(0, 2)
            &&& forall|i: int|
                2 <= i < events.len() ==> #[trigger] issued(events, perm)[i] == Action::Finish
        },
    decreases events.len(),
{
    if events.len() > 0 {
        let prev = events.drop_last();
        lemma_run_shape(prev, perm);
        let s = run(prev);
        let acts = issued(events, perm);
        assert(acts == issued(prev, perm).push(action_for(s, perm)));
        if run(events) is LockDenied && s is Opened {
            assert(prev.len() == 1);
            assert(events[0] == prev[0]);
        }
        if run(events) is LockDenied && s is LockDenied {
            assert(events[0] == prev[0]);
            assert(events[1] == prev[1]);
            assert forall|i: int| 2 <= i < events.len() implies #[trigger] acts[i]
                == Action::Finish by {
                if i < prev.len() {
                    assert(acts[i] == issued(prev, perm)[i]);
                }
            }
        }
        if run(events) is Written && s is Written {
            assert forall|i: int| 4 <= i < events.len() implies #[trigger] acts[i]
                == Action::Finish by {
                if i < prev.len() {
                    assert(acts[i] == issued(prev, perm)[i]);
                }
            }
        }
        if run(events) is Opened {
            assert(prev.len() == 0);
        }
    }
}

/// On a conflict the acquisition never truncates or writes the file: its
/// actions are to open the path and request the lock, and nothing after.
pub proof fn lemma_conflict_leaves_file_untouched(events: Seq<StepEvent>, perm: u32)
    requires
        valid_run(events),
        run(events) is LockDenied,
    ensures
        forall|i: int|
            0 <= i < events.len() ==> !(#[trigger] issued(events, perm)[i] is Truncate)
                && !(issued(events, perm)[i] is Write),
{
    lemma_run_shape(events, perm);
    let acts = issued(events, perm);
    assert forall|i: int| 0 <= i < events.len() implies !(#[trigger] acts[i] is Truncate) && !(
    acts[i] is Write) by {
        if i < 2 {
            assert(acts[i] == acts.subrange(0, 2)[i]);
        }
    }
}

/// Once the file is open, a lock request that finds another holder ends the
/// acquisition in a conflict, whatever is reported after: never a system
/// failure and never a success.
pub proof fn lemma_busy_lock_is_conflict(events: Seq<StepEvent>)
    requires
        events.len() >= 2,
        events[0] == StepEvent::Done,
        events[1] == StepEvent::Busy,
    ensures
        run(events) == Stage::LockDenied,
    decreases events.len(),
{
    let prev = events.drop_last();
    if events.len() == 2 {
        assert(prev.drop_last() =~= Seq::<StepEvent>::empty());
        assert(run(prev.drop_last()) == Stage::Unopened);
        assert(prev.last() == events[0]);
        assert(run(prev) == Stage::Opened);
    } else {
        assert(prev[0] == events[0] && prev[1] == events[1]);
        lemma_busy_lock_is_conflict(prev);
    }
}

/// An acquisition whose open fails ends in a system failure that carries the
/// open's error code: never a conflict.
pub proof fn lemma_failed_open_is_system_failure(events: Seq<StepEvent>, code: i32)
    requires
        events.len() >= 1,
        events[0] == StepEvent::Failed(code),
    ensures
        run(events) == Stage::SystemFailure(code),
    decreases events.len(),
{
    let prev = events.drop_last();
    if events.len() == 1 {
        assert(prev =~= Seq::<StepEvent>::empty());
    } else {
        assert(prev[0] == events[0]);
        lemma_failed_open_is_system_failure(prev, code);
    }
}

/// An acquisition that succeeds has opened the path, taken the lock, truncated
/// the file and then written the record, in that order, and done nothing else.
pub proof fn lemma_written_after_truncate(events: Seq<StepEvent>, perm: u32)
    requires
        valid_run(events),
        run(events) is Written,
    ensures
        issued(events, perm).subrange(0, 4) == granted_actions(perm),
        forall|i: int| 4 <= i < events.len() ==> #[trigger] issued(events, perm)[i] == Action::Finish,
{
    lemma_run_shape(events, perm);
}

} // verus!
