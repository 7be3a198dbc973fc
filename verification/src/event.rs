use vstd::prelude::*;

verus! {

/// Which kind of source rang the doorbell.
#[derive(Clone, Copy, Debug, PartialEq, Eq, Structural)]
pub enum CarillonSource {
    /// An IMAP mailbox watched over a held IDLE connection.
    Imap,
    /// A CardDAV addressbook collection watched by polling.
    CardDav,
}

/// The lowercase wire name of a source.
pub open spec fn source_wire_name(source: CarillonSource) -> Seq<char> {
    match source {
        CarillonSource::Imap => "imap"@,
        CarillonSource::CardDav => "carddav"@,
    }
}

impl CarillonSource {
    /// The lowercase wire string, matching the serialized form.
    pub fn as_str(&self) -> (name: &'static str)
        ensures
            name@ == source_wire_name(*self),
    {
        match self {
            CarillonSource::Imap => "imap",
            CarillonSource::CardDav => "carddav",
        }
    }
}

/// A content-free, self-addressed change signal.
///
/// It carries enough to route (which target rang) and dedup (whether this
/// state was already handled), and nothing about what changed. The `id` and
/// `ts` are minted by the driver.
#[derive(Clone, Debug)]
pub struct CarillonEvent {
    /// Unique id, stable across retries. Minted by the driver.
    pub id: String,
    /// Unix timestamp in seconds, stable across retries. Minted by the driver.
    pub ts: i64,
    /// The watch (account) this signal belongs to.
    pub account: String,
    /// Which source rang.
    pub source: CarillonSource,
    /// The addressed target: an IMAP mailbox name or a CardDAV collection.
    pub target: String,
    /// Opaque per-source resync state, or `None` when the source exposes none.
    pub state: Option<String>,
}

impl CarillonEvent {
    /// Assembles an event from its parts; each field is the matching argument.
    pub fn new(
        id: String,
        ts: i64,
        account: String,
        source: CarillonSource,
        target: String,
        state: Option<String>,
    ) -> (event: Self)
        ensures
            event.id@ == id@,
            event.ts == ts,
            event.account@ == account@,
            event.source == source,
            event.target@ == target@,
            event.state == state,
    {
        CarillonEvent { id, ts, account, source, target, state }
    }
}

} // verus!
