use std::sync::atomic::AtomicBool;
use std::sync::Arc;
use std::time::Duration;

use carillon_core::backend::{
    watch as backend_watch, Backend, CardDavBackend, Credential, ImapBackend, TransportClass,
};
use carillon_core::client::{watch, CarillonWatchError};
use carillon_core::credential::{CarillonCredential, CarillonSecret};
use carillon_core::error::Error;
use carillon_core::imap::state::{state_token, MailboxStatus};
use tokio::sync::mpsc;

fn imap() -> Backend {
    Backend::Imap(ImapBackend {
        host: "imap.example.org".to_string(),
        port: 993,
        login: "user".to_string(),
        mailbox: "INBOX".to_string(),
    })
}

fn carddav() -> Backend {
    Backend::CardDav(CardDavBackend {
        url: "https://dav.example.org/ab/".to_string(),
        login: "user".to_string(),
        poll: Duration::from_secs(60),
    })
}

#[test]
fn transport_classes() {
    assert_eq!(imap().transport_class(), TransportClass::StandingConnection);
    assert_eq!(carddav().transport_class(), TransportClass::Poll);
}

#[test]
fn cli_hosts_every_core_source() {
    let cli = [TransportClass::StandingConnection, TransportClass::Poll];
    for backend in [imap(), carddav()] {
        assert!(cli.contains(&backend.transport_class()));
        assert_ne!(backend.transport_class(), TransportClass::PublicCallback);
    }
}

#[test]
fn watch_is_not_wired_yet() {
    let (events, _rx) = mpsc::channel(1);
    let shutdown = Arc::new(AtomicBool::new(false));
    let credential = Credential::Password(CarillonSecret::new("pw".to_string()));
    assert_eq!(backend_watch(&imap(), &credential, &events, shutdown.clone()), Err(Error::NotImplemented));
    let credential = CarillonCredential::Bearer(CarillonSecret::new("tok".to_string()));
    assert!(matches!(watch(&carddav(), &credential, &events, shutdown), Err(CarillonWatchError::NotImplemented)));
}

#[test]
fn error_messages() {
    assert_eq!(Error::NotImplemented.message(), "watch backend not implemented yet");
    assert_eq!(CarillonWatchError::NotImplemented.message(), "watch backend not implemented yet");
    assert_eq!(CarillonWatchError::Imap("idle: x".to_string()).message(), "idle: x");
    assert_eq!(CarillonWatchError::CardDav("sync-collection: y".to_string()).message(), "sync-collection: y");
}

#[test]
fn state_token_forms() {
    let full = MailboxStatus { uid_validity: Some(7), uid_next: Some(42), highest_mod_seq: Some(100) };
    assert_eq!(state_token(&full, true), "7:100");
    assert_eq!(state_token(&full, false), "7:42");
    let no_mod_seq = MailboxStatus { uid_validity: Some(7), uid_next: Some(42), highest_mod_seq: None };
    assert_eq!(state_token(&no_mod_seq, true), "7:42");
    let empty = MailboxStatus { uid_validity: None, uid_next: None, highest_mod_seq: None };
    assert_eq!(state_token(&empty, true), "0:0");
    assert_eq!(state_token(&empty, false), "0:0");
    let big = MailboxStatus { uid_validity: Some(u32::MAX), uid_next: Some(10), highest_mod_seq: Some(u64::MAX) };
    assert_eq!(state_token(&big, true), format!("{}:{}", u32::MAX, u64::MAX));
    assert_eq!(state_token(&big, false), format!("{}:10", u32::MAX));
}

#[test]
fn distinct_states_give_distinct_tokens() {
    let a = MailboxStatus { uid_validity: Some(1), uid_next: Some(23), highest_mod_seq: None };
    let b = MailboxStatus { uid_validity: Some(12), uid_next: Some(3), highest_mod_seq: None };
    assert_ne!(state_token(&a, false), state_token(&b, false));
    let flag_before = MailboxStatus { uid_validity: Some(5), uid_next: Some(9), highest_mod_seq: Some(100) };
    let flag_after = MailboxStatus { uid_validity: Some(5), uid_next: Some(9), highest_mod_seq: Some(101) };
    assert_ne!(state_token(&flag_before, true), state_token(&flag_after, true));
    assert_eq!(state_token(&flag_before, false), state_token(&flag_after, false));
}
