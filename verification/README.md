# carillon-core

The I/O-free watch client behind the Carillon frontends, written in Verus.

A watch is a coroutine: on each `resume` it tells its driver what to do next
(read, write, ring for a changed state, or stop). The decisions are proved
against their contracts; the driver brings the sockets, the clock and the
random ids.

Layout:

- `src/event.rs`: the change signal and its sources.
- `src/backend.rs`: the sources a watch can follow and their transport classes.
- `src/credential.rs`: the resolved credential presented on connect.
- `src/error.rs`, `src/client.rs`: errors and the single-watch entry point.
- `src/imap.rs`: the IMAP IDLE watch (greeting, login, EXAMINE, IDLE) as a
  state machine; `src/imap/state.rs` the mailbox state token and its laws;
  `src/imap/coroutines.rs` the calls into `io-imap` and the connection's
  log of what they were handed; `src/imap/pump.rs` the
  decisions of one IDLE round.
- `src/carddav.rs`: the CardDAV `sync-collection` poll and how a reply becomes
  a change; `src/carddav/sync.rs` the calls into `io-webdav` and the poll's
  log of what it handed them.
- `app/`: the async plumbing, serde and error-trait copies of the library
  types.
- `tests/`: scripted conversations and the laws on concrete values.
