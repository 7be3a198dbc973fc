//! Running one watch, and what can go wrong doing so.

use std::sync::atomic::AtomicBool;
use std::sync::Arc;

use tokio::sync::mpsc;
use vstd::prelude::*;
use vstd::string::*;

use crate::backend::CarillonBackend;
use crate::credential::CarillonCredential;
use crate::event::CarillonEvent;

verus! {

/// What can go wrong opening or running a watch.
#[derive(Debug)]
pub enum CarillonWatchError {
    /// The selected backend is not wired yet.
    NotImplemented,
    /// The IMAP conversation failed; the message says at which step and why.
    Imap(String),
    /// The CardDAV poll failed; the message says why.
    CardDav(String),
}

/// The result of running a watch.
pub type CarillonWatchResult<T> = Result<T, CarillonWatchError>;

/// The human-readable message of a watch error.
pub open spec fn spec_error_message(err: CarillonWatchError) -> Seq<char> {
    match err {
        CarillonWatchError::NotImplemented => "watch backend not implemented yet"@,
        CarillonWatchError::Imap(message) => message@,
        CarillonWatchError::CardDav(message) => message@,
    }
}

impl CarillonWatchError {
    /// The human-readable message of this error.
    pub fn message(&self) -> (text: String)
        ensures
            text@ == spec_error_message(*self),
    {
        match self {
            CarillonWatchError::NotImplemented => String::from_str("watch backend not implemented yet"),
            CarillonWatchError::Imap(message) => message.clone(),
            CarillonWatchError::CardDav(message) => message.clone(),
        }
    }
}

/// Runs one watch session, emitting events into `events` until the server
/// ends the session or `shutdown` is set. No protocol client is dispatched
/// from here yet, so every source reports
/// [`CarillonWatchError::NotImplemented`].
pub fn watch(
    backend: &CarillonBackend,
    credential: &CarillonCredential,
    events: &mpsc::Sender<CarillonEvent>,
    shutdown: Arc<AtomicBool>,
) -> (result: CarillonWatchResult<()>)
    ensures
        result matches Err(CarillonWatchError::NotImplemented),
{
    let _ = (backend, credential, events, shutdown);
    Err(CarillonWatchError::NotImplemented)
}

} // verus!
