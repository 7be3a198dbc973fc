//! What core needs to open one watch, and nothing it cannot resolve itself.
//!
//! Core receives a ready credential: a password or a pre-minted bearer token.
//! It never touches a keyring and never mints or refreshes OAuth.

use std::sync::atomic::AtomicBool;
use std::sync::Arc;
use std::time::Duration;

use tokio::sync::mpsc;
use vstd::prelude::*;

use crate::credential::CarillonSecret;
use crate::error::Error;
use crate::event::CarillonEvent;

verus! {

/// The sending half of a bounded channel of events (`tokio::sync::mpsc::Sender`).
#[verifier::external_type_specification]
#[verifier::external_body]
#[verifier::reject_recursive_types(T)]
pub struct ExSender<T>(mpsc::Sender<T>);

/// How a source is acquired: the axis that decides which frontend can host it.
#[derive(Clone, Copy, Debug, PartialEq, Eq, Structural)]
pub enum TransportClass {
    /// The watcher dials out and holds an outbound connection (IMAP IDLE).
    /// Any frontend.
    StandingConnection,
    /// The watcher dials out but re-polls on an interval (CardDAV
    /// `sync-collection`). Any frontend.
    Poll,
    /// Delivered by an inbound POST via external infrastructure (Gmail push,
    /// Graph subscriptions, WebDAV-Push). Server only.
    PublicCallback,
}

/// A resolved credential. Core never unlocks or refreshes it; it only
/// presents it to the server.
pub enum Credential {
    /// A SASL `LOGIN` or HTTP Basic password.
    Password(CarillonSecret),
    /// A pre-minted OAuth 2.0 access token (OAUTHBEARER or Bearer).
    Bearer(CarillonSecret),
}

/// An IMAP mailbox to watch.
pub struct ImapBackend {
    pub host: String,
    pub port: u16,
    pub login: String,
    pub mailbox: String,
}

/// A CardDAV collection to poll.
pub struct CardDavBackend {
    pub url: String,
    pub login: String,
    pub poll: Duration,
}

/// The watchable sources core knows.
pub enum Backend {
    Imap(ImapBackend),
    CardDav(CardDavBackend),
}

/// The source description under the names the watch coroutines use.
pub type CarillonBackend = Backend;

/// An IMAP mailbox to watch.
pub type CarillonImapBackend = ImapBackend;

/// A CardDAV collection to poll.
pub type CarillonCardDavBackend = CardDavBackend;

/// How a source is acquired.
pub type CarillonTransportClass = TransportClass;

/// The transport class of each kind of source.
pub open spec fn spec_transport_class(backend: Backend) -> TransportClass {
    match backend {
        Backend::Imap(_) => TransportClass::StandingConnection,
        Backend::CardDav(_) => TransportClass::Poll,
    }
}

/// Whether a frontend advertising `hosted` classes may arm a watch of `class`.
pub open spec fn can_host(hosted: Seq<TransportClass>, class: TransportClass) -> bool {
    hosted.contains(class)
}

/// Every source core knows dials out, so any frontend that hosts standing
/// connections and polls can host it; none needs a public callback.
pub proof fn law_core_sources_dial_out(backend: Backend)
    ensures
        spec_transport_class(backend) != TransportClass::PublicCallback,
        can_host(seq![TransportClass::StandingConnection, TransportClass::Poll], spec_transport_class(backend)),
{
    let hosted = seq![TransportClass::StandingConnection, TransportClass::Poll];
    match backend {
        Backend::Imap(_) => assert(hosted[0] == TransportClass::StandingConnection),
        Backend::CardDav(_) => assert(hosted[1] == TransportClass::Poll),
    }
}

impl Backend {
    /// The transport class of this source, so a frontend can refuse to arm a
    /// watch it cannot host.
    pub fn transport_class(&self) -> (class: TransportClass)
        ensures
            class == spec_transport_class(*self),
    {
        match self {
            Backend::Imap(_) => TransportClass::StandingConnection,
            Backend::CardDav(_) => TransportClass::Poll,
        }
    }
}

/// Runs one watch, emitting events into `events` until the server ends the
/// session or `shutdown` is set. No backend is wired here yet, so it reports
/// [`Error::NotImplemented`] for every source.
pub fn watch(
    backend: &Backend,
    credential: &Credential,
    events: &mpsc::Sender<CarillonEvent>,
    shutdown: Arc<AtomicBool>,
) -> (result: Result<(), Error>)
    ensures
        result == Err::<(), Error>(Error::NotImplemented),
{
    let _ = (backend, credential, events, shutdown);
    Err(Error::NotImplemented)
}

} // verus!
