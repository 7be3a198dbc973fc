use std::sync::atomic::AtomicBool;
use std::sync::Arc;
use std::time::Duration;

use carillon_core::backend::{CarillonCardDavBackend, CarillonImapBackend};
use carillon_core::carddav::{CarillonCardDavPoll, CarillonCardDavPollProgress};
use carillon_core::credential::{CarillonCredential, CarillonSecret};
use carillon_core::imap::{CarillonImapWatch, CarillonImapWatchProgress};
use url::Url;

fn hostile_corpus() -> Vec<Vec<u8>> {
    let mut corpus: Vec<Vec<u8>> = vec![
        b"garbage garbage garbage".to_vec(),
        b"* OK".to_vec(),
        b"* OK [CAPABILITY IMAP4rev1 IDLE".to_vec(),
        b"\0\0\0\0\r\n".to_vec(),
        vec![0xff, 0xfe, 0xfd, b'\r', b'\n'],
        b"* OK [UIDNEXT 99999999999999999999999] x\r\n".to_vec(),
        b"* BAD ((((((((((((((((((((((((((((((((\r\n".to_vec(),
        b"\r\n\r\n\r\n".to_vec(),
    ];
    let mut nested = b"* OK ".to_vec();
    nested.extend(std::iter::repeat(b'(').take(10_000));
    nested.extend_from_slice(b"\r\n");
    corpus.push(nested);
    corpus
}

fn drive_imap(data: &[u8]) {
    let mut watch = CarillonImapWatch::new(
        CarillonImapBackend {
            host: "imap.example.org".to_owned(),
            port: 993,
            login: "user@example.org".to_owned(),
            mailbox: "INBOX".to_owned(),
        },
        CarillonCredential::Password(CarillonSecret::new("password".to_owned())),
        Arc::new(AtomicBool::new(false)),
    );
    let mut fed = false;
    let mut next: Option<Vec<u8>> = None;
    for _ in 0..256 {
        match watch.resume(next.take().as_deref()) {
            CarillonImapWatchProgress::WantsRead => {
                next = Some(if fed { Vec::new() } else { data.to_vec() });
                fed = true;
            }
            CarillonImapWatchProgress::WantsWrite(_) => next = None,
            CarillonImapWatchProgress::Changed(_) => next = None,
            CarillonImapWatchProgress::Done(_) => return,
        }
    }
    panic!("the watch did not terminate on a hostile input");
}

fn drive_carddav(data: &[u8]) {
    let base = Url::parse("https://dav.example.org").unwrap();
    let backend = CarillonCardDavBackend {
        url: "https://dav.example.org/addressbooks/u/default/".to_owned(),
        login: "user".to_owned(),
        poll: Duration::from_secs(60),
    };
    let credential = CarillonCredential::Password(CarillonSecret::new("password".to_owned()));
    let mut poll = CarillonCardDavPoll::new(&base, &backend, &credential, "/addressbooks/u/default/", None);
    let mut fed = false;
    let mut next: Option<Vec<u8>> = None;
    for _ in 0..256 {
        match poll.resume(next.take().as_deref()) {
            CarillonCardDavPollProgress::WantsRead => {
                next = Some(if fed { Vec::new() } else { data.to_vec() });
                fed = true;
            }
            CarillonCardDavPollProgress::WantsWrite(_) => next = None,
            CarillonCardDavPollProgress::Done(_) => return,
        }
    }
    panic!("the poll did not terminate on a hostile input");
}

#[test]
fn imap_watch_terminates_on_hostile_input() {
    for data in hostile_corpus() {
        drive_imap(&data);
    }
}

#[test]
fn imap_watch_refuses_an_oversized_literal() {
    drive_imap(b"* OK [CAPABILITY IMAP4rev1 IDLE] {2000000}\r\n");
}

#[test]
fn carddav_poll_terminates_on_hostile_input() {
    let mut corpus = hostile_corpus();
    corpus.push(b"HTTP/1.1 207 Multi-Status\r\nContent-Length: 5\r\n\r\n<d:mu".to_vec());
    corpus.push(b"HTTP/1.1 207 Multi-Status\r\nContent-Length: 99999999999999999999\r\n\r\n".to_vec());
    corpus.push(b"HTTP/1.1 207 Multi-Status\r\nContent-Length: 20\r\n\r\n<<<<<<<<<<<<<<<<<<<<".to_vec());
    for data in corpus {
        drive_carddav(&data);
    }
}
