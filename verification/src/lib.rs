//! # carillon-core
//!
//! The shared I/O-free watch client behind the Carillon frontends (a CLI
//! daemon and a server).
//!
//! Core does no I/O. A watch is a coroutine ([`imap::CarillonImapWatch`],
//! [`carddav::CarillonCardDavPoll`]) that composes the protocol crates' own
//! coroutines and, on each `resume`, returns what the driver must do next:
//! read, write, mint a ring for a changed state, or stop. A frontend brings
//! the driver and picks its own I/O model; the watch logic is shared once.
//!
//! Core owns the change signal ([`event::CarillonEvent`]), the source to
//! watch ([`backend::Backend`]) with its transport class, the resolved
//! credential it presents ([`credential::CarillonCredential`]), the watch
//! errors ([`client::CarillonWatchError`]) and the watch coroutines. It does
//! not own the transport, reconnect, credential resolution, storage,
//! delivery, or the event's `id` and `ts`: a random id and a clock read are
//! effects a driver performs.
//!
//! Every source reports a [`backend::TransportClass`]. A standing connection
//! or a poll dials outward, so any frontend can host it; a public callback
//! needs an inbound endpoint.

pub mod backend;
pub mod carddav;
pub mod client;
pub mod credential;
pub mod error;
pub mod event;
pub mod imap;
