//! The io-webdav sync-collection coroutine, seen through plain values.
//!
//! The poll's log lives here, where only the resume wrapper extends it: every
//! input handed to the coroutine, in order, and its last answer.

use io_http::rfc6750::bearer::HttpAuthBearer;
use io_http::rfc7617::basic::HttpAuthBasic;
use io_webdav::coroutine::{WebdavCoroutine, WebdavCoroutineState, WebdavYield};
use io_webdav::rfc4918::{WebdavAuth, GETETAG};
use io_webdav::rfc6578::sync_collection::{
    WebdavSyncCollection, WebdavSyncCollectionError, WebdavSyncCollectionOptions, WebdavSyncDelta,
};
use url::Url;
use vstd::prelude::*;

use crate::carddav::{dav_model, DavCredential, DavProperty, SyncDelta, SyncExchange, SyncMember, SyncRequest, SyncStep};
use crate::imap::coroutines::{bytes_view, Exchange};

verus! {

/// The authentication io-webdav sends (`io_webdav::rfc4918::WebdavAuth`).
#[verifier::external_type_specification]
#[verifier::external_body]
pub struct ExWebdavAuth(WebdavAuth);

/// What a sync-collection REPORT found (`io_webdav::rfc6578::sync_collection::WebdavSyncDelta`).
#[verifier::external_type_specification]
#[verifier::external_body]
pub struct ExWebdavSyncDelta(WebdavSyncDelta);

/// io-webdav's sync-collection coroutine.
#[verifier::external_type_specification]
#[verifier::external_body]
pub struct ExWebdavSyncCollection(WebdavSyncCollection);

/// What a poll handed its sync-collection coroutine and what it last
/// answered; only [`sync_resume`] extends it.
pub struct SyncLog {
    fed: Ghost<Seq<Option<Seq<u8>>>>,
    last: Ghost<Option<SyncStep>>,
}

impl SyncLog {
    /// Every input handed to the coroutine, in order.
    pub closed spec fn fed(&self) -> Seq<Option<Seq<u8>>> {
        self.fed@
    }

    /// The coroutine's last answer.
    pub closed spec fn last(&self) -> Option<SyncStep> {
        self.last@
    }

    /// An empty log.
    pub fn new() -> (log: Self)
        ensures
            log.fed() == Seq::<Option<Seq<u8>>>::empty(),
            log.last() is None,
    {
        SyncLog { fed: Ghost(Seq::empty()), last: Ghost(None) }
    }
}

/// `WebdavSyncCollection::new`: a sync-collection REPORT (or, with
/// `fallback`, a Depth 1 PROPFIND) of the request's path at `base_url` since
/// its token, asking for its properties (`DAV:getetag` is io-webdav's
/// `GETETAG`), authenticating with the plain credential converted one for one
/// (`WebdavAuth::Basic(HttpAuthBasic::new(login, password))` or
/// `WebdavAuth::Bearer(HttpAuthBearer::new(token))`).
#[verifier::external_body]
pub(crate) fn sync_collection_new(base_url: &Url, credential: &DavCredential, request: SyncRequest) -> (sync: SyncExchange)
    requires
        request.origin@ == *base_url,
        request.auth@ == dav_model(*credential),
    ensures
        sync.request == request,
{
    let auth = match credential {
        DavCredential::Basic { login, password } => WebdavAuth::Basic(HttpAuthBasic::new(*login, *password)),
        DavCredential::Bearer { token } => WebdavAuth::Bearer(HttpAuthBearer::new(*token)),
    };
    let props: Vec<_> = request.properties.iter().map(|DavProperty::GetEtag| GETETAG).collect();
    let options = WebdavSyncCollectionOptions { fallback: request.fallback };
    let coroutine = WebdavSyncCollection::new(base_url, &auth, &request.user_agent, &request.path, request.sync_token.as_deref(), &props, options);
    Exchange { coroutine, request }
}

/// A sync-collection delta, field for field: each changed member's href and
/// etag, the vanished hrefs, the next token and the truncation mark.
#[verifier::external_body]
fn delta_of(delta: WebdavSyncDelta) -> SyncDelta {
    SyncDelta {
        changed: delta.changed.into_iter().map(|member| SyncMember { href: member.href, etag: member.etag }).collect(),
        vanished: delta.vanished,
        sync_token: delta.sync_token,
        truncated: delta.truncated,
    }
}

/// `WebdavSyncCollection::resume`, its answer converted one for one (the
/// rejected-token error told apart from the others, which are displayed);
/// the exchange is handed back exactly while it still runs, so a finished
/// one (whose resume panics in io-http) is never resumed. The input and the
/// answer are logged. Which answer comes is not stated: it depends on the
/// coroutine's hidden state and the bytes read so far.
#[verifier::external_body]
pub(crate) fn sync_resume(sync: SyncExchange, log: &mut SyncLog, input: Option<&[u8]>) -> (answer: (Option<SyncExchange>, SyncStep))
    ensures
        answer.0 is Some <==> (answer.1 is WantsRead || answer.1 is WantsWrite),
        answer.0 matches Some(exchange) ==> exchange.request == sync.request,
        final(log).fed() == old(log).fed().push(bytes_view(input)),
        final(log).last() == Some(answer.1),
{
    let mut sync = sync;
    let answer = match sync.coroutine.resume(input) {
        WebdavCoroutineState::Yielded(WebdavYield::WantsWrite(bytes)) => (Some(sync), SyncStep::WantsWrite(bytes)),
        WebdavCoroutineState::Yielded(WebdavYield::WantsRead) => (Some(sync), SyncStep::WantsRead),
        WebdavCoroutineState::Complete(Ok(delta)) => (None, SyncStep::Delta(delta_of(delta))),
        WebdavCoroutineState::Complete(Err(WebdavSyncCollectionError::InvalidSyncToken)) => (None, SyncStep::InvalidToken),
        WebdavCoroutineState::Complete(Err(err)) => (None, SyncStep::Failed(err.to_string())),
    };
    log.fed = Ghost(log.fed@.push(bytes_view(input)));
    log.last = Ghost(Some(answer.1));
    answer
}

} // verus!
