use std::sync::atomic::{AtomicBool, Ordering};
use std::sync::Arc;

use carillon_core::backend::CarillonImapBackend;
use carillon_core::client::CarillonWatchError;
use carillon_core::credential::{CarillonCredential, CarillonSecret};
use carillon_core::imap::coroutines::{CapabilityKind, ExamineParameter};
use carillon_core::imap::state::MailboxStatus;
use carillon_core::imap::{
    examine_parameters, may_close_literal, CarillonImapWatch, CarillonImapWatchProgress as Progress,
    StepOutcome, WatchPhase,
};

fn backend(mailbox: &str) -> CarillonImapBackend {
    CarillonImapBackend {
        host: "imap.example.org".to_string(),
        port: 143,
        login: "user@example.org".to_string(),
        mailbox: mailbox.to_string(),
    }
}

fn password() -> CarillonCredential {
    CarillonCredential::Password(CarillonSecret::new("password".to_string()))
}

fn bearer() -> CarillonCredential {
    CarillonCredential::Bearer(CarillonSecret::new("token".to_string()))
}

fn written(progress: Progress) -> String {
    match progress {
        Progress::WantsWrite(bytes) => String::from_utf8(bytes).expect("utf-8 command"),
        other => panic!("expected a write, got {}", describe(&other)),
    }
}

fn describe(progress: &Progress) -> String {
    match progress {
        Progress::WantsRead => "WantsRead".to_string(),
        Progress::WantsWrite(bytes) => format!("WantsWrite({:?})", String::from_utf8_lossy(bytes)),
        Progress::Changed(state) => format!("Changed({state})"),
        Progress::Done(result) => format!("Done({result:?})"),
    }
}

fn tag(command: &str) -> String {
    command.split(' ').next().unwrap().to_string()
}

fn expect_read(progress: Progress) {
    assert!(matches!(progress, Progress::WantsRead), "expected a read, got {}", describe(&progress));
}

fn status(validity: u32, uid_next: u32, mod_seq: Option<u64>) -> MailboxStatus {
    MailboxStatus { uid_validity: Some(validity), uid_next: Some(uid_next), highest_mod_seq: mod_seq }
}

/// Drives a watch through greeting, LOGIN and the initial EXAMINE against a
/// scripted server advertising `caps`, answering the EXAMINE with `examine`
/// untagged lines. Returns the IDLE command the watch then writes.
fn reach_idle(watch: &mut CarillonImapWatch, caps: &str, examine: &str) -> String {
    expect_read(watch.resume(None));
    let greeting = format!("* OK [CAPABILITY {caps}] ready\r\n");
    let login = written(watch.resume(Some(greeting.as_bytes())));
    assert!(login.contains(" LOGIN "), "login command: {login}");
    expect_read(watch.resume(None));
    let ok = format!("{} OK [CAPABILITY {caps}] logged in\r\n", tag(&login));
    let examine_cmd = written(watch.resume(Some(ok.as_bytes())));
    assert!(examine_cmd.contains("EXAMINE"), "examine command: {examine_cmd}");
    expect_read(watch.resume(None));
    let reply = format!("{examine}{} OK [READ-ONLY] done\r\n", tag(&examine_cmd));
    let idle = written(watch.resume(Some(reply.as_bytes())));
    assert!(idle.contains("IDLE"), "idle command: {idle}");
    idle
}

/// Wakes an IDLE with one untagged line and returns the re-EXAMINE command.
fn wake(watch: &mut CarillonImapWatch, idle: &str, untagged: &str) -> String {
    expect_read(watch.resume(None));
    expect_read(watch.resume(Some(b"+ idling\r\n")));
    let done = written(watch.resume(Some(untagged.as_bytes())));
    assert_eq!(done, "DONE\r\n");
    expect_read(watch.resume(None));
    let ok = format!("{} OK idle done\r\n", tag(idle));
    let examine = written(watch.resume(Some(ok.as_bytes())));
    assert!(examine.contains("EXAMINE"), "re-examine command: {examine}");
    examine
}

#[test]
fn condstore_flag_change_rings() {
    let shutdown = Arc::new(AtomicBool::new(false));
    let mut watch = CarillonImapWatch::new(backend("INBOX"), password(), shutdown.clone());
    let idle = reach_idle(
        &mut watch,
        "IMAP4rev1 IDLE CONDSTORE",
        "* OK [UIDVALIDITY 7] ok\r\n* OK [UIDNEXT 42] ok\r\n* OK [HIGHESTMODSEQ 100] ok\r\n",
    );
    assert_eq!(watch.last_state().as_deref(), Some("7:100"));
    let examine = wake(&mut watch, &idle, "* 1 FETCH (FLAGS (\\Seen) MODSEQ (101))\r\n");
    assert!(examine.contains("CONDSTORE"), "re-examine asks CONDSTORE: {examine}");
    expect_read(watch.resume(None));
    let reply = format!(
        "* OK [UIDVALIDITY 7] ok\r\n* OK [UIDNEXT 42] ok\r\n* OK [HIGHESTMODSEQ 101] ok\r\n{} OK [READ-ONLY] done\r\n",
        tag(&examine)
    );
    match watch.resume(Some(reply.as_bytes())) {
        Progress::Changed(state) => assert_eq!(state, "7:101"),
        other => panic!("expected a ring, got {}", describe(&other)),
    }
    assert_eq!(watch.current_phase(), WatchPhase::Idle);
    assert_eq!(watch.last_state().as_deref(), Some("7:101"));
}

#[test]
fn flag_change_without_condstore_does_not_ring() {
    let shutdown = Arc::new(AtomicBool::new(false));
    let mut watch = CarillonImapWatch::new(backend("INBOX"), password(), shutdown.clone());
    let idle = reach_idle(
        &mut watch,
        "IMAP4rev1 IDLE",
        "* OK [UIDVALIDITY 7] ok\r\n* OK [UIDNEXT 42] ok\r\n",
    );
    assert_eq!(watch.last_state().as_deref(), Some("7:42"));
    let examine = wake(&mut watch, &idle, "* 1 FETCH (FLAGS (\\Seen))\r\n");
    assert!(!examine.contains("CONDSTORE"), "plain re-examine: {examine}");
    expect_read(watch.resume(None));
    let reply = format!(
        "* OK [UIDVALIDITY 7] ok\r\n* OK [UIDNEXT 42] ok\r\n{} OK [READ-ONLY] done\r\n",
        tag(&examine)
    );
    let next_idle = written(watch.resume(Some(reply.as_bytes())));
    assert!(next_idle.contains("IDLE"), "back to IDLE without a ring: {next_idle}");
    assert_eq!(watch.last_state().as_deref(), Some("7:42"));
}

#[test]
fn new_mail_rings_without_condstore() {
    let shutdown = Arc::new(AtomicBool::new(false));
    let mut watch = CarillonImapWatch::new(backend("INBOX"), password(), shutdown.clone());
    let idle = reach_idle(
        &mut watch,
        "IMAP4rev1 IDLE",
        "* OK [UIDVALIDITY 7] ok\r\n* OK [UIDNEXT 42] ok\r\n",
    );
    let examine = wake(&mut watch, &idle, "* 2 EXISTS\r\n");
    expect_read(watch.resume(None));
    let reply = format!(
        "* OK [UIDVALIDITY 7] ok\r\n* OK [UIDNEXT 43] ok\r\n{} OK [READ-ONLY] done\r\n",
        tag(&examine)
    );
    match watch.resume(Some(reply.as_bytes())) {
        Progress::Changed(state) => assert_eq!(state, "7:43"),
        other => panic!("expected a ring, got {}", describe(&other)),
    }
}

#[test]
fn shutdown_winds_idle_down_cleanly() {
    let shutdown = Arc::new(AtomicBool::new(false));
    let mut watch = CarillonImapWatch::new(backend("INBOX"), password(), shutdown.clone());
    let idle = reach_idle(
        &mut watch,
        "IMAP4rev1 IDLE",
        "* OK [UIDVALIDITY 7] ok\r\n* OK [UIDNEXT 42] ok\r\n",
    );
    expect_read(watch.resume(None));
    shutdown.store(true, Ordering::SeqCst);
    let done = written(watch.resume(Some(b"+ idling\r\n")));
    assert_eq!(done, "DONE\r\n");
    expect_read(watch.resume(None));
    let ok = format!("{} OK idle done\r\n", tag(&idle));
    assert!(matches!(watch.resume(Some(ok.as_bytes())), Progress::Done(Ok(()))));
    assert_eq!(watch.current_phase(), WatchPhase::Ended);
    assert!(matches!(watch.resume(None), Progress::Done(Ok(()))));
}

#[test]
fn server_without_idle_is_refused() {
    let shutdown = Arc::new(AtomicBool::new(false));
    let mut watch = CarillonImapWatch::new(backend("INBOX"), password(), shutdown);
    expect_read(watch.resume(None));
    let login = written(watch.resume(Some(b"* OK [CAPABILITY IMAP4rev1] ready\r\n")));
    expect_read(watch.resume(None));
    let ok = format!("{} OK [CAPABILITY IMAP4rev1] logged in\r\n", tag(&login));
    match watch.resume(Some(ok.as_bytes())) {
        Progress::Done(Err(CarillonWatchError::Imap(message))) => {
            assert_eq!(message, "server does not advertise IDLE; cannot watch")
        }
        other => panic!("expected a refusal, got {}", describe(&other)),
    }
}

#[test]
fn rejected_login_names_the_step() {
    let shutdown = Arc::new(AtomicBool::new(false));
    let mut watch = CarillonImapWatch::new(backend("INBOX"), password(), shutdown);
    expect_read(watch.resume(None));
    let login = written(watch.resume(Some(b"* OK [CAPABILITY IMAP4rev1 IDLE] ready\r\n")));
    expect_read(watch.resume(None));
    let no = format!("{} NO bad password\r\n", tag(&login));
    match watch.resume(Some(no.as_bytes())) {
        Progress::Done(Err(CarillonWatchError::Imap(message))) => {
            assert!(message.starts_with("login: "), "message: {message}")
        }
        other => panic!("expected a login failure, got {}", describe(&other)),
    }
    assert!(matches!(watch.resume(None), Progress::Done(Ok(()))));
}

#[test]
fn bye_greeting_fails_with_greeting_context() {
    let shutdown = Arc::new(AtomicBool::new(false));
    let mut watch = CarillonImapWatch::new(backend("INBOX"), password(), shutdown);
    expect_read(watch.resume(None));
    match watch.resume(Some(b"* BYE go away\r\n")) {
        Progress::Done(Err(CarillonWatchError::Imap(message))) => {
            assert!(message.starts_with("greeting: "), "message: {message}")
        }
        other => panic!("expected a greeting failure, got {}", describe(&other)),
    }
}

#[test]
fn bearer_credential_authenticates_with_oauthbearer() {
    let shutdown = Arc::new(AtomicBool::new(false));
    let mut watch = CarillonImapWatch::new(backend("INBOX"), bearer(), shutdown);
    expect_read(watch.resume(None));
    let auth = written(watch.resume(Some(b"* OK [CAPABILITY IMAP4rev1 IDLE SASL-IR AUTH=OAUTHBEARER] ready\r\n")));
    assert!(auth.contains("AUTHENTICATE OAUTHBEARER"), "auth command: {auth}");
    assert_eq!(watch.current_phase(), WatchPhase::AuthOauth);
}

#[test]
fn invalid_mailbox_name_fails_then_ends() {
    let shutdown = Arc::new(AtomicBool::new(false));
    let mut watch = CarillonImapWatch::new(backend("IN\0BOX"), password(), shutdown);
    assert_eq!(watch.current_phase(), WatchPhase::Failed);
    match watch.resume(None) {
        Progress::Done(Err(CarillonWatchError::Imap(message))) => {
            assert_eq!(message, "invalid mailbox name: IN\0BOX")
        }
        other => panic!("expected a start failure, got {}", describe(&other)),
    }
    assert!(matches!(watch.resume(None), Progress::Done(Ok(()))));
}

#[test]
fn credentials_that_cannot_be_sent_are_refused() {
    let shutdown = Arc::new(AtomicBool::new(false));
    let credential = CarillonCredential::Password(CarillonSecret::new("pass\0word".to_string()));
    let mut watch = CarillonImapWatch::new(backend("INBOX"), credential, shutdown);
    expect_read(watch.resume(None));
    match watch.resume(Some(b"* OK [CAPABILITY IMAP4rev1 IDLE] ready\r\n")) {
        Progress::Done(Err(CarillonWatchError::Imap(message))) => {
            assert!(message.starts_with("invalid IMAP credentials: "), "message: {message}")
        }
        other => panic!("expected a credentials failure, got {}", describe(&other)),
    }
}

#[test]
fn advance_walks_the_conversation() {
    let shutdown = Arc::new(AtomicBool::new(false));
    let mut watch = CarillonImapWatch::new(backend("INBOX"), password(), shutdown);
    assert_eq!(watch.current_phase(), WatchPhase::Greeting);
    assert!(watch.advance(StepOutcome::Greeted).is_none());
    assert_eq!(watch.current_phase(), WatchPhase::AuthLogin);
    let caps = vec![CapabilityKind::Other, CapabilityKind::Idle, CapabilityKind::QResync];
    assert!(watch.advance(StepOutcome::Authenticated(caps)).is_none());
    assert_eq!(watch.current_phase(), WatchPhase::ExamineSeed);
    assert!(watch.advance(StepOutcome::Examined(status(9, 5, Some(50)))).is_none());
    assert_eq!(watch.current_phase(), WatchPhase::Idle);
    assert_eq!(watch.last_state().as_deref(), Some("9:50"));
    assert!(watch.advance(StepOutcome::Event).is_none());
    assert!(watch.advance(StepOutcome::IdleEnded { shutdown: false }).is_none());
    assert_eq!(watch.current_phase(), WatchPhase::ExamineDiff);
    assert!(watch.advance(StepOutcome::Examined(status(9, 5, Some(50)))).is_none());
    assert!(watch.advance(StepOutcome::IdleEnded { shutdown: false }).is_none());
    match watch.advance(StepOutcome::Examined(status(10, 5, Some(50)))) {
        Some(Progress::Changed(state)) => assert_eq!(state, "10:50"),
        other => panic!("expected a ring, got {:?}", other.as_ref().map(describe)),
    }
    assert!(matches!(
        watch.advance(StepOutcome::IdleEnded { shutdown: true }),
        Some(Progress::Done(Ok(())))
    ));
    assert_eq!(watch.current_phase(), WatchPhase::Ended);
}

#[test]
fn advance_names_each_failing_step() {
    let cases = [
        (WatchPhase::Greeting, "greeting: boom"),
        (WatchPhase::AuthLogin, "login: boom"),
        (WatchPhase::ExamineSeed, "examine: boom"),
        (WatchPhase::Idle, "idle: boom"),
        (WatchPhase::ExamineDiff, "examine: boom"),
    ];
    for (phase, expected) in cases {
        let shutdown = Arc::new(AtomicBool::new(false));
        let mut watch = CarillonImapWatch::new(backend("INBOX"), password(), shutdown);
        let steps: Vec<StepOutcome> = match phase {
            WatchPhase::Greeting => vec![],
            WatchPhase::AuthLogin => vec![StepOutcome::Greeted],
            WatchPhase::ExamineSeed => vec![
                StepOutcome::Greeted,
                StepOutcome::Authenticated(vec![CapabilityKind::Idle]),
            ],
            WatchPhase::Idle => vec![
                StepOutcome::Greeted,
                StepOutcome::Authenticated(vec![CapabilityKind::Idle]),
                StepOutcome::Examined(status(1, 1, None)),
            ],
            _ => vec![
                StepOutcome::Greeted,
                StepOutcome::Authenticated(vec![CapabilityKind::Idle]),
                StepOutcome::Examined(status(1, 1, None)),
                StepOutcome::IdleEnded { shutdown: false },
            ],
        };
        for step in steps {
            assert!(watch.advance(step).is_none());
        }
        assert_eq!(watch.current_phase(), phase);
        match watch.advance(StepOutcome::Failed("boom".to_string())) {
            Some(Progress::Done(Err(CarillonWatchError::Imap(message)))) => assert_eq!(message, expected),
            other => panic!("expected a failure, got {:?}", other.as_ref().map(describe)),
        }
        assert_eq!(watch.current_phase(), WatchPhase::Ended);
    }
}

#[test]
fn advance_forwards_io() {
    let shutdown = Arc::new(AtomicBool::new(false));
    let mut watch = CarillonImapWatch::new(backend("INBOX"), password(), shutdown);
    assert!(matches!(watch.advance(StepOutcome::WantsRead), Some(Progress::WantsRead)));
    match watch.advance(StepOutcome::WantsWrite(b"abc".to_vec())) {
        Some(Progress::WantsWrite(bytes)) => assert_eq!(bytes, b"abc"),
        other => panic!("expected a write, got {:?}", other.as_ref().map(describe)),
    }
    assert_eq!(watch.current_phase(), WatchPhase::Greeting);
}

#[test]
fn greeting_announcing_a_literal_fails_instead_of_panicking() {
    for greeting in [&b"* OK x {3}\r\nabc"[..], &b"* OK x {3}"[..], &b"* OK x {3}\nabc"[..]] {
        let shutdown = Arc::new(AtomicBool::new(false));
        let mut watch = CarillonImapWatch::new(backend("INBOX"), password(), shutdown);
        expect_read(watch.resume(None));
        match watch.resume(Some(greeting)) {
            Progress::Done(Err(CarillonWatchError::Imap(message))) => {
                assert_eq!(message, "greeting: greeting announces a literal")
            }
            other => panic!("expected a greeting failure, got {}", describe(&other)),
        }
        assert!(matches!(watch.resume(None), Progress::Done(Ok(()))));
    }
}

#[test]
fn literal_screen_finds_only_a_closing_brace_before_a_line_end() {
    assert!(may_close_literal(b"{3}\r\n"));
    assert!(may_close_literal(b"{3}\n"));
    assert!(may_close_literal(b"* OK {12+}\r\n"));
    assert!(may_close_literal(b"12}"));
    assert!(!may_close_literal(b"abc}"));
    assert!(!may_close_literal(b"* OK {x}\r\n"));
    assert!(!may_close_literal(b"* OK ready {}\r\n"));
    assert!(!may_close_literal(b"* OK {+}\r\n"));
    assert!(may_close_literal(b"}\r\n"));
    assert!(!may_close_literal(b"* OK {server} ready\r\n"));
    assert!(!may_close_literal(b""));
}

#[test]
fn examine_asks_condstore_only_when_tracked() {
    assert_eq!(examine_parameters(true), vec![ExamineParameter::CondStore]);
    assert!(examine_parameters(false).is_empty());
}

#[test]
fn examine_names_the_configured_mailbox() {
    let shutdown = Arc::new(AtomicBool::new(false));
    let mut watch = CarillonImapWatch::new(backend("Archive"), password(), shutdown);
    expect_read(watch.resume(None));
    let login = written(watch.resume(Some(b"* OK [CAPABILITY IMAP4rev1 IDLE] ready\r\n")));
    assert!(login.contains(" LOGIN ") && login.contains("user@example.org") && login.contains("password"), "login: {login}");
    expect_read(watch.resume(None));
    let ok = format!("{} OK [CAPABILITY IMAP4rev1 IDLE] logged in\r\n", tag(&login));
    let examine = written(watch.resume(Some(ok.as_bytes())));
    assert!(examine.contains("EXAMINE Archive"), "examine: {examine}");
    assert!(!examine.contains("CONDSTORE"), "examine: {examine}");
}

#[test]
fn greeting_with_braced_text_still_logs_in() {
    let shutdown = Arc::new(AtomicBool::new(false));
    let mut watch = CarillonImapWatch::new(backend("INBOX"), password(), shutdown);
    expect_read(watch.resume(None));
    let login = written(watch.resume(Some(b"* OK [CAPABILITY IMAP4rev1 IDLE] ready {x}\r\n")));
    assert!(login.contains(" LOGIN "), "login command: {login}");
}
