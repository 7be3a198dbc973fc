use std::sync::atomic::{AtomicBool, Ordering};
use std::sync::Arc;

use carillon_core::imap::coroutines::IdleStep;
use carillon_core::imap::pump::{idle_decide, IdleAction, IdleOutcome, ImapIdleRound, ReadResult};
use carillon_core::imap::coroutines::ImapStream;

fn written(action: IdleAction) -> String {
    match action {
        IdleAction::Write(bytes) => String::from_utf8(bytes).unwrap(),
        other => panic!("expected a write, got {other:?}"),
    }
}

#[test]
fn round_reports_data_after_draining() {
    let shutdown = Arc::new(AtomicBool::new(false));
    let mut fragmentizer = ImapStream::new(1 << 20);
    let mut round = ImapIdleRound::start(&shutdown).expect("round starts");
    let idle = written(round.resume(&mut fragmentizer, None, &shutdown));
    let tag = idle.split(' ').next().unwrap().to_string();
    assert!(matches!(round.resume(&mut fragmentizer, None, &shutdown), IdleAction::Read { refresh_timer: true }));
    assert!(matches!(round.resume(&mut fragmentizer, Some(b"+ idling\r\n"), &shutdown), IdleAction::Read { refresh_timer: true }));
    let done = written(round.resume(&mut fragmentizer, Some(b"* 3 EXISTS\r\n"), &shutdown));
    assert_eq!(done, "DONE\r\n");
    assert!(matches!(round.resume(&mut fragmentizer, None, &shutdown), IdleAction::Read { refresh_timer: false }));
    let ok = format!("{tag} OK idle done\r\n");
    assert!(matches!(
        round.resume(&mut fragmentizer, Some(ok.as_bytes()), &shutdown),
        IdleAction::Finish(IdleOutcome::Data)
    ));
}

#[test]
fn round_shuts_down_cleanly() {
    let shutdown = Arc::new(AtomicBool::new(false));
    let mut fragmentizer = ImapStream::new(1 << 20);
    let mut round = ImapIdleRound::start(&shutdown).expect("round starts");
    let idle = written(round.resume(&mut fragmentizer, None, &shutdown));
    let tag = idle.split(' ').next().unwrap().to_string();
    assert!(matches!(round.resume(&mut fragmentizer, None, &shutdown), IdleAction::Read { .. }));
    shutdown.store(true, Ordering::SeqCst);
    let done = written(round.resume(&mut fragmentizer, Some(b"+ idling\r\n"), &shutdown));
    assert_eq!(done, "DONE\r\n");
    assert!(matches!(round.resume(&mut fragmentizer, None, &shutdown), IdleAction::Read { .. }));
    let ok = format!("{tag} OK idle done\r\n");
    assert!(matches!(
        round.resume(&mut fragmentizer, Some(ok.as_bytes()), &shutdown),
        IdleAction::Finish(IdleOutcome::Shutdown)
    ));
}

#[test]
fn round_does_not_start_after_shutdown() {
    let shutdown = Arc::new(AtomicBool::new(true));
    assert!(matches!(ImapIdleRound::start(&shutdown), Err(IdleOutcome::Shutdown)));
}

#[test]
fn begin_decides_on_the_seen_flag() {
    assert!(matches!(ImapIdleRound::begin(true), Err(IdleOutcome::Shutdown)));
    let mut round = ImapIdleRound::begin(false).expect("round begins");
    let shutdown = Arc::new(AtomicBool::new(false));
    let mut fragmentizer = ImapStream::new(1024);
    assert!(written(round.resume(&mut fragmentizer, None, &shutdown)).ends_with(" IDLE\r\n"));
}

#[test]
fn reads_decide_the_round() {
    let shutdown = Arc::new(AtomicBool::new(false));
    let round = ImapIdleRound::start(&shutdown).expect("round starts");
    assert!(round.on_read(ReadResult::Received(5)).is_none());
    match round.on_read(ReadResult::Closed) {
        Some(IdleAction::Fail(message)) => assert_eq!(message, "connection closed by peer"),
        other => panic!("unexpected {other:?}"),
    }
    match round.on_read(ReadResult::Failed("reset".to_string())) {
        Some(IdleAction::Fail(message)) => assert_eq!(message, "read failed: reset"),
        other => panic!("unexpected {other:?}"),
    }
    assert!(matches!(round.on_read(ReadResult::TimedOut), Some(IdleAction::Finish(IdleOutcome::Refresh))));
}

#[test]
fn idle_decide_covers_every_answer() {
    assert!(matches!(idle_decide(false, IdleStep::Event, false), (true, None)));
    assert!(matches!(idle_decide(false, IdleStep::Event, true), (false, None)));
    assert!(matches!(idle_decide(true, IdleStep::Event, true), (true, None)));
    assert!(matches!(idle_decide(false, IdleStep::WantsRead, false), (false, Some(IdleAction::Read { refresh_timer: true }))));
    assert!(matches!(idle_decide(true, IdleStep::WantsRead, false), (true, Some(IdleAction::Read { refresh_timer: false }))));
    assert!(matches!(idle_decide(false, IdleStep::Complete, false), (false, Some(IdleAction::Finish(IdleOutcome::Refresh)))));
    assert!(matches!(idle_decide(true, IdleStep::Complete, false), (true, Some(IdleAction::Finish(IdleOutcome::Data)))));
    assert!(matches!(idle_decide(true, IdleStep::Complete, true), (true, Some(IdleAction::Finish(IdleOutcome::Shutdown)))));
    match idle_decide(false, IdleStep::WantsWrite(b"x".to_vec()), false) {
        (false, Some(IdleAction::Write(bytes))) => assert_eq!(bytes, b"x"),
        other => panic!("unexpected {other:?}"),
    }
    match idle_decide(false, IdleStep::Failed("nope".to_string()), false) {
        (false, Some(IdleAction::Fail(message))) => assert_eq!(message, "nope"),
        other => panic!("unexpected {other:?}"),
    }
}
