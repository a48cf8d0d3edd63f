use pidfile::acquire::{Acquisition, Action, Stage, StepEvent};
use pidfile::errno::{after_set_lock, after_syscall, LockAttempt, SyscallStep};
use pidfile::error::{from_raw_os_error, LockError};
use pidfile::identity::{still_current, Identity};
use pidfile::query::{query_holder, query_open, query_open_failed};
use pidfile::ticket::{encode_ticket, parse_ticket, TicketWriter};
use pidfile::Pidfile;

/// Drives an acquisition with the reports a simulated system gives: the open
/// succeeds, the lock request answers `lock`, and the later steps succeed.
fn drive(pid: u32, lock: StepEvent) -> (Acquisition, Vec<Action>) {
    let mut acq = Acquisition::new(pid, 0o644);
    let mut actions = Vec::new();
    loop {
        let action = acq.next_action();
        actions.push(action);
        let event = match action {
            Action::TryLock => lock,
            Action::Finish => break,
            _ => StepEvent::Done,
        };
        acq.advance(event);
    }
    (acq, actions)
}

fn written_record(acq: &Acquisition) -> Vec<u8> {
    let mut w = acq.ticket();
    let mut file = Vec::new();
    while !w.is_done() {
        let p = w.pending();
        let n = if p.len() > 2 { 2 } else { p.len() };
        file.extend_from_slice(&p[..n]);
        w.advance(n);
    }
    file
}

#[test]
fn syscall_result_returned() {
    assert_eq!(after_syscall(7, 0), SyscallStep::Returned(7));
    assert_eq!(after_syscall(0, libc::EINTR), SyscallStep::Returned(0));
}

#[test]
fn syscall_interrupt_is_retried() {
    assert_eq!(after_syscall(-1, libc::EINTR), SyscallStep::Retry);
}

#[test]
fn syscall_failure_carries_code() {
    assert_eq!(after_syscall(-1, libc::EIO), SyscallStep::Failed(libc::EIO));
    assert_eq!(after_syscall(-1, libc::ENOENT), SyscallStep::Failed(libc::ENOENT));
}

#[test]
fn set_lock_outcomes() {
    assert_eq!(after_set_lock(0, 0), LockAttempt::Granted);
    assert_eq!(after_set_lock(-1, libc::EAGAIN), LockAttempt::Busy);
    assert_eq!(after_set_lock(-1, libc::EACCES), LockAttempt::Busy);
    assert_eq!(after_set_lock(-1, libc::EINTR), LockAttempt::Retry);
    assert_eq!(after_set_lock(-1, libc::EBADF), LockAttempt::Failed(libc::EBADF));
}

#[test]
fn raw_os_error_keeps_code() {
    let e = from_raw_os_error(libc::ENOENT);
    assert_eq!(e.raw_os_error(), Some(libc::ENOENT));
    assert_eq!(e.kind(), std::io::ErrorKind::NotFound);
}

#[test]
fn lock_error_kinds() {
    let c = LockError::conflict();
    assert!(c.conflict);
    assert!(c.io.is_none());
    let f = LockError::io_error(from_raw_os_error(libc::EACCES));
    assert!(!f.conflict);
    assert_eq!(f.io.unwrap().raw_os_error(), Some(libc::EACCES));
}

#[test]
fn ticket_encoding() {
    assert_eq!(encode_ticket(1234), b"1234\n".to_vec());
    assert_eq!(encode_ticket(0), b"0\n".to_vec());
    assert_eq!(encode_ticket(7), b"7\n".to_vec());
    assert_eq!(encode_ticket(10), b"10\n".to_vec());
    assert_eq!(encode_ticket(u32::MAX), b"4294967295\n".to_vec());
}

#[test]
fn ticket_parsing() {
    assert_eq!(parse_ticket(b"1234\n"), Some(1234));
    assert_eq!(parse_ticket(b"1234"), Some(1234));
    assert_eq!(parse_ticket(b"+7\n"), Some(7));
    assert_eq!(parse_ticket(b"12\r\n99"), Some(12));
    assert_eq!(parse_ticket(b"4294967295\n"), Some(u32::MAX));
    assert_eq!(parse_ticket(b""), None);
    assert_eq!(parse_ticket(b"\n5"), None);
    assert_eq!(parse_ticket(b"+\n"), None);
    assert_eq!(parse_ticket(b"-1\n"), None);
    assert_eq!(parse_ticket(b"12a\n"), None);
    assert_eq!(parse_ticket(b"12\r"), None);
    assert_eq!(parse_ticket(b"4294967296\n"), None);
    assert_eq!(parse_ticket(b"99999999999999999999\n"), None);
}

#[test]
fn ticket_round_trip() {
    for pid in [0u32, 1, 9, 10, 4242, 65535, u32::MAX] {
        assert_eq!(parse_ticket(&encode_ticket(pid)), Some(pid));
    }
}

#[test]
fn ticket_writer_partial_writes() {
    let mut w = TicketWriter::new(98765);
    assert_eq!(w.pending(), b"98765\n");
    w.advance(2);
    assert_eq!(w.pending(), b"765\n");
    assert!(!w.is_done());
    w.advance(4);
    assert_eq!(w.pending(), b"");
    assert!(w.is_done());
}

#[test]
fn acquisition_succeeds_in_order() {
    let (acq, actions) = drive(4242, StepEvent::Done);
    assert_eq!(acq.stage(), Stage::Written);
    assert_eq!(
        actions,
        vec![
            Action::Open { create: true, write: true, mode: 0o644 },
            Action::TryLock,
            Action::Truncate,
            Action::Write,
            Action::Finish,
        ]
    );
    let p = acq.outcome().unwrap().unwrap();
    assert_eq!(p.pid(), 4242);
    assert_eq!(written_record(&acq), b"4242\n".to_vec());
}

#[test]
fn second_acquisition_conflicts() {
    let (first, _) = drive(100, StepEvent::Done);
    assert_eq!(first.stage(), Stage::Written);
    let (second, actions) = drive(200, StepEvent::Busy);
    assert_eq!(second.stage(), Stage::LockDenied);
    assert!(!actions.contains(&Action::Truncate));
    assert!(!actions.contains(&Action::Write));
    let e = second.outcome().unwrap().unwrap_err();
    assert!(e.conflict);
    assert!(e.io.is_none());
}

#[test]
fn three_concurrent_attempts_one_wins() {
    let answers = [StepEvent::Busy, StepEvent::Done, StepEvent::Busy];
    let mut winners = Vec::new();
    let mut conflicts = 0;
    for (i, answer) in answers.iter().enumerate() {
        let pid = 300 + i as u32;
        let (acq, _) = drive(pid, *answer);
        match acq.outcome().unwrap() {
            Ok(p) => winners.push((p.pid(), written_record(&acq))),
            Err(e) => {
                assert!(e.conflict);
                conflicts += 1;
            }
        }
    }
    assert_eq!(winners.len(), 1);
    assert_eq!(conflicts, 2);
    assert_eq!(winners[0].0, 301);
    assert_eq!(parse_ticket(&winners[0].1), Some(301));
}

#[test]
fn acquire_after_release_succeeds() {
    let (first, _) = drive(500, StepEvent::Done);
    assert_eq!(first.outcome().unwrap().unwrap().pid(), 500);
    drop(first);
    let (again, _) = drive(501, StepEvent::Done);
    let p = again.outcome().unwrap().unwrap();
    assert_eq!(p.pid(), 501);
    assert_eq!(written_record(&again), b"501\n".to_vec());
}

#[test]
fn open_in_missing_directory_is_system_failure() {
    let mut acq = Acquisition::new(600, 0o644);
    assert_eq!(acq.next_action(), Action::Open { create: true, write: true, mode: 0o644 });
    acq.advance(StepEvent::Failed(libc::ENOENT));
    assert_eq!(acq.stage(), Stage::SystemFailure(libc::ENOENT));
    assert_eq!(acq.next_action(), Action::Finish);
    let e = acq.outcome().unwrap().unwrap_err();
    assert!(!e.conflict);
    assert_eq!(e.io.unwrap().kind(), std::io::ErrorKind::NotFound);
}

#[test]
fn failure_after_lock_is_system_failure() {
    let mut acq = Acquisition::new(700, 0o600);
    acq.advance(StepEvent::Done);
    acq.advance(StepEvent::Done);
    assert_eq!(acq.next_action(), Action::Truncate);
    acq.advance(StepEvent::Failed(libc::EIO));
    let e = acq.outcome().unwrap().unwrap_err();
    assert!(!e.conflict);
    assert_eq!(e.io.unwrap().raw_os_error(), Some(libc::EIO));
}

#[test]
fn unfinished_acquisition_has_no_outcome() {
    let mut acq = Acquisition::new(800, 0o644);
    assert!(acq.outcome().is_none());
    acq.advance(StepEvent::Done);
    assert!(acq.outcome().is_none());
}

#[test]
fn query_missing_file_is_no_lock() {
    assert!(matches!(query_open_failed(libc::ENOENT), Ok(None)));
    assert_eq!(query_open(), Action::Open { create: false, write: false, mode: 0 });
}

#[test]
fn query_other_open_error_is_reported() {
    let e = query_open_failed(libc::EACCES).unwrap_err();
    assert_eq!(e.raw_os_error(), Some(libc::EACCES));
}

#[test]
fn query_reports_holder() {
    assert!(query_holder(0).is_none());
    let p: Pidfile = query_holder(4242).unwrap();
    assert_eq!(p.pid(), 4242);
}

#[test]
fn identity_check() {
    let a = Identity { dev: 1, ino: 10 };
    let same = Identity { dev: 1, ino: 10 };
    let replaced = Identity { dev: 1, ino: 11 };
    let other_dev = Identity { dev: 2, ino: 10 };
    assert!(still_current(Some(a), Some(same)));
    assert!(!still_current(Some(a), Some(replaced)));
    assert!(!still_current(Some(a), Some(other_dev)));
    assert!(!still_current(Some(a), None));
    assert!(!still_current(None, Some(a)));
    assert!(!still_current(None, None));
}
