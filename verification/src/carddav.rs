//! CardDAV polling as an I/O-free coroutine.
//!
//! WebDAV has no IDLE, so a CardDAV collection is watched by polling: each
//! round runs one RFC 6578 `sync-collection` REPORT. [`CarillonCardDavPoll`]
//! is one such round: it wraps io-webdav's sync-collection coroutine,
//! forwards its reads and writes, and completes with a content-free result:
//! whether the collection changed and the new opaque sync-token to
//! checkpoint. It requests only `getetag`, never the vCard body, and never
//! exposes a member href.

use io_webdav::rfc6578::sync_collection::WebdavSyncCollection;
use url::Url;
use vstd::prelude::*;

pub mod sync;

use crate::backend::CarillonCardDavBackend;
use crate::client::{CarillonWatchError, CarillonWatchResult};
use crate::credential::{secret_text, CarillonCredential};
use crate::imap::contextual;
use crate::carddav::sync::{sync_collection_new, sync_resume, SyncLog};
use crate::imap::coroutines::{bytes_view, Exchange};

verus! {

/// A parsed URL (`url::Url`).
#[verifier::external_type_specification]
#[verifier::external_body]
pub struct ExUrl(Url);

/// `User-Agent` sent on every WebDAV request.
pub const USER_AGENT: &'static str = "carillon";

/// A member the server reported as created or updated.
pub struct SyncMember {
    /// The member href, as the server returned it.
    pub href: String,
    /// Its entity tag, if returned.
    pub etag: Option<String>,
}

/// A parsed sync-collection delta, as plain values.
pub struct SyncDelta {
    /// Members created or updated since the polled token.
    pub changed: Vec<SyncMember>,
    /// Hrefs of the members removed since the polled token.
    pub vanished: Vec<String>,
    /// The next checkpoint token, if the server returned one.
    pub sync_token: Option<String>,
    /// Whether the server truncated the result set (RFC 6578 section 3.6).
    pub truncated: bool,
}

/// One answer of the sync-collection coroutine to a resume.
pub enum SyncStep {
    /// Read from the socket and resume with the bytes (empty on EOF).
    WantsRead,
    /// Write these bytes, then resume with no input.
    WantsWrite(Vec<u8>),
    /// The REPORT finished with this delta.
    Delta(SyncDelta),
    /// The server rejected the polled sync-token.
    InvalidToken,
    /// The REPORT failed; the text is the io-webdav error, displayed.
    Failed(String),
}

/// What the driver must do to make progress on a poll, returned by each
/// [`CarillonCardDavPoll::resume`].
pub enum CarillonCardDavPollProgress {
    /// Read from the socket and pass the bytes to the next `resume` (an empty
    /// slice on EOF, so a close-delimited body finalizes).
    WantsRead,
    /// Write these bytes to the socket, then `resume` again with no input.
    WantsWrite(Vec<u8>),
    /// The poll finished: the content-free outcome, or an error.
    Done(CarillonWatchResult<CarillonCardDavChange>),
}

/// The content-free outcome of one poll. Carries whether the collection
/// changed and the new sync-token, never a member href, etag, or vCard.
pub struct CarillonCardDavChange {
    /// Whether any member changed or vanished since the polled token.
    pub changed: bool,
    /// The new opaque sync-token to checkpoint from, if the server returned
    /// one.
    pub state: Option<String>,
    /// The server rejected the polled sync-token: the driver should
    /// re-baseline (poll again with no token) and not treat this as a change.
    pub invalid_token: bool,
    /// The server truncated the result set: the driver should poll again
    /// from `state` to drain the rest before sleeping.
    pub truncated: bool,
}

/// An optional string, by its view.
pub open spec fn opt_view(text: Option<String>) -> Option<Seq<char>> {
    match text {
        Some(t) => Some(t@),
        None => None,
    }
}

/// Whether a delta reports any change: a member changed or vanished.
pub open spec fn delta_changed(delta: SyncDelta) -> bool {
    delta.changed@.len() > 0 || delta.vanished@.len() > 0
}

/// Whether `progress` is what the poll reports for `step`.
pub open spec fn reports(step: SyncStep, progress: CarillonCardDavPollProgress) -> bool {
    match step {
        SyncStep::WantsRead => progress is WantsRead,
        SyncStep::WantsWrite(bytes) => progress matches CarillonCardDavPollProgress::WantsWrite(b)
            && b@ == bytes@,
        SyncStep::Delta(delta) => progress matches CarillonCardDavPollProgress::Done(Ok(change))
            && change.changed == delta_changed(delta) && opt_view(change.state) == opt_view(
            delta.sync_token,
        ) && !change.invalid_token && change.truncated == delta.truncated,
        SyncStep::InvalidToken => progress matches CarillonCardDavPollProgress::Done(Ok(change))
            && !change.changed && change.state is None && change.invalid_token && !change.truncated,
        SyncStep::Failed(err) => progress matches CarillonCardDavPollProgress::Done(
            Err(CarillonWatchError::CardDav(m)),
        ) && m@ == crate::imap::contextual_message("sync-collection"@, err@),
    }
}

/// What holds of every progress a poll reports: a rejected token is never a
/// change, carries no token and is not truncated; a failure is a CardDAV
/// error naming the sync-collection.
pub open spec fn well_reported(progress: CarillonCardDavPollProgress) -> bool {
    match progress {
        CarillonCardDavPollProgress::Done(Ok(change)) => change.invalid_token ==> (!change.changed
            && change.state is None && !change.truncated),
        CarillonCardDavPollProgress::Done(Err(err)) => exists|detail: Seq<char>|
            #![trigger crate::imap::contextual_message("sync-collection"@, detail)]
            err matches CarillonWatchError::CardDav(m) && m@ == crate::imap::contextual_message(
                "sync-collection"@,
                detail,
            ),
        _ => true,
    }
}

/// Turns one answer of the sync-collection coroutine into what the driver
/// must do: forward a read or a write, or complete with the content-free
/// outcome (changed when any member changed or vanished).
pub fn poll_progress(step: SyncStep) -> (progress: CarillonCardDavPollProgress)
    ensures
        reports(step, progress),
        well_reported(progress),
{
    match step {
        SyncStep::WantsRead => CarillonCardDavPollProgress::WantsRead,
        SyncStep::WantsWrite(bytes) => CarillonCardDavPollProgress::WantsWrite(bytes),
        SyncStep::Delta(delta) => {
            let changed = delta.changed.len() > 0 || delta.vanished.len() > 0;
            CarillonCardDavPollProgress::Done(
                Ok(
                    CarillonCardDavChange {
                        changed,
                        state: delta.sync_token,
                        invalid_token: false,
                        truncated: delta.truncated,
                    },
                ),
            )
        },
        SyncStep::InvalidToken => CarillonCardDavPollProgress::Done(
            Ok(
                CarillonCardDavChange {
                    changed: false,
                    state: None,
                    invalid_token: true,
                    truncated: false,
                },
            ),
        ),
        SyncStep::Failed(err) => {
            let message = contextual("sync-collection", err);
            CarillonCardDavPollProgress::Done(Err(CarillonWatchError::CardDav(message)))
        },
    }
}

/// How a poll authenticates, as plain values borrowed from the credential.
pub enum DavCredential<'a> {
    /// HTTP Basic with this user and password.
    Basic { login: &'a str, password: &'a str },
    /// HTTP Bearer with this token.
    Bearer { token: &'a str },
}

/// A WebDAV property a poll asks for on each member.
#[derive(Clone, Copy, Debug, PartialEq, Eq, Structural)]
pub enum DavProperty {
    /// `DAV:getetag`.
    GetEtag,
}

/// The plain arguments of a sync-collection exchange, but for the origin and
/// the authentication.
pub struct SyncRequest {
    /// The `User-Agent` header.
    pub user_agent: String,
    /// The collection's absolute path.
    pub path: String,
    /// The token to sync from; `None` enumerates a baseline.
    pub sync_token: Option<String>,
    /// The properties asked for on each member.
    pub properties: Vec<DavProperty>,
    /// Enumerate with a Depth 1 PROPFIND instead of the REPORT.
    pub fallback: bool,
    /// The collection's origin handed with the request.
    pub origin: Ghost<Url>,
    /// The authentication handed with the request, as [`dav_model`] gives it.
    pub auth: Ghost<(bool, Seq<char>, Seq<char>)>,
}

/// A running sync-collection exchange with what it was built from.
pub type SyncExchange = Exchange<WebdavSyncCollection, SyncRequest>;

/// An optional borrowed string, by its view.
pub open spec fn opt_str_view(text: Option<&str>) -> Option<Seq<char>> {
    match text {
        Some(t) => Some(t@),
        None => None,
    }
}

/// Whether `request` is the poll's REPORT: `path` since `sync_token`, asking
/// only for `getetag`, under the crate's user agent, never the PROPFIND
/// fallback.
pub open spec fn is_etag_report(request: SyncRequest, path: Seq<char>, sync_token: Option<Seq<char>>) -> bool {
    &&& request.user_agent@ == USER_AGENT@
    &&& request.path@ == path
    &&& opt_view(request.sync_token) == sync_token
    &&& request.properties@ == seq![DavProperty::GetEtag]
    &&& !request.fallback
}

/// Every poll request is the `sync-collection` REPORT asking only for
/// `getetag`, whatever the token: never the PROPFIND fallback, for a baseline
/// (no token) as for an incremental poll. The two differ only in the token
/// they carry.
pub proof fn law_poll_is_always_report(
    baseline: SyncRequest,
    incremental: SyncRequest,
    path: Seq<char>,
    token: Seq<char>,
)
    requires
        is_etag_report(baseline, path, None),
        is_etag_report(incremental, path, Some(token)),
    ensures
        !baseline.fallback,
        !incremental.fallback,
        baseline.sync_token is None,
        incremental.sync_token matches Some(t) && t@ == token,
        baseline.properties@ == incremental.properties@,
        baseline.properties@ == seq![DavProperty::GetEtag],
        baseline.user_agent@ == incremental.user_agent@,
        baseline.path@ == incremental.path@,
{
}

/// A plain credential as (is it HTTP Basic, its user, its secret text).
pub open spec fn dav_model(credential: DavCredential) -> (bool, Seq<char>, Seq<char>) {
    match credential {
        DavCredential::Basic { login, password } => (true, login@, password@),
        DavCredential::Bearer { token } => (false, Seq::empty(), token@),
    }
}

/// The authentication a poll presents for `credential` with the backend's
/// `login`: HTTP Basic with that login and the password, or HTTP Bearer with
/// the token.
pub open spec fn credential_model(login: Seq<char>, credential: CarillonCredential) -> (bool, Seq<char>, Seq<char>) {
    match credential {
        CarillonCredential::Password(secret) => (true, login, secret_text(secret)),
        CarillonCredential::Bearer(secret) => (false, Seq::empty(), secret_text(secret)),
    }
}

/// Whether `auth` presents `credential`: a password as HTTP Basic with the
/// backend's login, a token as HTTP Bearer, each with the secret's text.
pub open spec fn presents(auth: DavCredential, login: Seq<char>, credential: CarillonCredential) -> bool {
    match credential {
        CarillonCredential::Password(secret) => auth matches DavCredential::Basic { login: l, password: p } && l@
            == login && p@ == secret_text(secret),
        CarillonCredential::Bearer(secret) => auth matches DavCredential::Bearer { token: t } && t@ == secret_text(
            secret,
        ),
    }
}

/// The poll's request for `path` since `sync_token`: a sync-collection
/// REPORT asking only for `getetag`, under the crate's user agent.
fn sync_request(
    path: &str,
    sync_token: Option<&str>,
    origin: Ghost<Url>,
    auth: Ghost<(bool, Seq<char>, Seq<char>)>,
) -> (request: SyncRequest)
    ensures
        is_etag_report(request, path@, opt_str_view(sync_token)),
        request.origin == origin,
        request.auth == auth,
{
    let token = match sync_token {
        Some(token) => Some(String::from_str(token)),
        None => None,
    };
    let mut properties: Vec<DavProperty> = Vec::new();
    properties.push(DavProperty::GetEtag);
    SyncRequest {
        user_agent: String::from_str(USER_AGENT),
        path: String::from_str(path),
        sync_token: token,
        properties,
        fallback: false,
        origin,
        auth,
    }
}

/// An I/O-free CardDAV `sync-collection` poll (one round).
pub struct CarillonCardDavPoll {
    sync: Option<SyncExchange>,
    log: SyncLog,
}

impl CarillonCardDavPoll {
    /// What the running exchange was built from, while it runs.
    pub closed spec fn request(&self) -> Option<SyncRequest> {
        match self.sync {
            Some(exchange) => Some(exchange.request),
            None => None,
        }
    }

    /// Every input handed to the sync-collection coroutine so far, in order.
    pub closed spec fn fed(&self) -> Seq<Option<Seq<u8>>> {
        self.log.fed()
    }

    /// The last answer of the sync-collection coroutine, as its resume
    /// logged it.
    pub closed spec fn answer(&self) -> Option<SyncStep> {
        self.log.last()
    }

    /// Builds a poll of `backend`'s collection since `sync_token` (`None` for
    /// a baseline enumeration). `base_url` is the collection's origin and
    /// `path` its absolute path. Requests only `getetag`, never the vCard
    /// body, authenticating as [`webdav_auth`] says.
    pub fn new(
        base_url: &Url,
        backend: &CarillonCardDavBackend,
        credential: &CarillonCredential,
        path: &str,
        sync_token: Option<&str>,
    ) -> (poll: Self)
        ensures
            poll.request() matches Some(request) && is_etag_report(request, path@, opt_str_view(sync_token))
                && request.origin@ == *base_url && request.auth@ == credential_model(backend.login@, *credential),
            poll.request() matches Some(request) && !request.fallback && request.properties@ == seq![
                DavProperty::GetEtag,
            ] && opt_view(request.sync_token) == opt_str_view(sync_token),
            poll.fed() == Seq::<Option<Seq<u8>>>::empty(),
    {
        let auth = webdav_auth(backend, credential);
        let request = sync_request(path, sync_token, Ghost(*base_url), Ghost(dav_model(auth)));
        let sync = sync_collection_new(base_url, &auth, request);
        CarillonCardDavPoll { sync: Some(sync), log: SyncLog::new() }
    }

    /// Advances the poll, returning the next action for the driver. After a
    /// [`WantsRead`](CarillonCardDavPollProgress::WantsRead), pass the bytes
    /// just read (an empty slice on EOF); otherwise pass `None`. Once the poll
    /// is done, a further resume fails rather than resuming a finished
    /// exchange.
    pub fn resume(&mut self, input: Option<&[u8]>) -> (progress: CarillonCardDavPollProgress)
        ensures
            exists|step: SyncStep| #[trigger] reports(step, progress),
            well_reported(progress),
            final(self).request() matches Some(r) ==> old(self).request() == Some(r),
            old(self).request() is Some ==> final(self).fed() == old(self).fed().push(bytes_view(input))
                && (final(self).answer() matches Some(step) && reports(step, progress)),
            old(self).request() is None ==> final(self).fed() == old(self).fed() && (progress matches
                CarillonCardDavPollProgress::Done(Err(CarillonWatchError::CardDav(m))) && m@
                == crate::imap::contextual_message("sync-collection"@, "poll already finished"@)),
    {
        let step = match self.sync.take() {
            Some(sync) => {
                let (back, step) = sync_resume(sync, &mut self.log, input);
                self.sync = back;
                step
            },
            None => SyncStep::Failed(String::from_str("poll already finished")),
        };
        let ghost answer = step;
        let progress = poll_progress(step);
        assert(reports(answer, progress));
        progress
    }
}

/// Builds the WebDAV authentication for the poll from the resolved
/// credential: a password becomes HTTP Basic with the backend's login, a
/// bearer token HTTP Bearer.
pub fn webdav_auth<'a>(backend: &'a CarillonCardDavBackend, credential: &'a CarillonCredential) -> (auth: DavCredential<'a>)
    ensures
        presents(auth, backend.login@, *credential),
{
    match credential {
        CarillonCredential::Password(password) => DavCredential::Basic {
            login: backend.login.as_str(),
            password: password.expose(),
        },
        CarillonCredential::Bearer(token) => DavCredential::Bearer { token: token.expose() },
    }
}

} // verus!
