//! The io-imap coroutines the watch composes, seen through plain values.
//!
//! Every item here is trusted: it makes one call into io-imap and converts
//! what comes back, one value for one value, into a type of this library.
//! A coroutine is resumed by value and handed back only while it still runs,
//! so a finished one (whose resume panics in io-imap) is never resumed again.
//! A coroutine's answer to a resume depends on its own hidden parser state
//! and on the connection-wide fragmentizer, which are opaque here, so the
//! resume wrappers promise nothing about which answer comes; the watch states
//! what it does for every answer.

use std::sync::atomic::{AtomicBool, Ordering};
use std::sync::Arc;

use io_imap::codec::fragmentizer::Fragmentizer;
use io_imap::coroutine::{ImapCoroutine, ImapCoroutineState, ImapYield};
use io_imap::rfc2177::idle::{ImapIdle, ImapIdleOptions, ImapIdleYield};
use io_imap::rfc3501::examine::{ExamineData, ImapMailboxExamine, ImapMailboxExamineOptions};
use io_imap::rfc3501::greeting::{ImapGreetingGet, ImapGreetingGetOptions};
use io_imap::rfc3501::login::{ImapLogin, ImapLoginOptions};
use io_imap::rfc7628::auth_oauthbearer::{ImapAuthOauthbearer, ImapAuthOauthbearerOptions};
use io_imap::types::command::SelectParameter;
use io_imap::types::error::ValidationError;
use io_imap::types::mailbox::Mailbox;
use io_imap::types::response::Capability;
use vstd::prelude::*;

use crate::imap::state::MailboxStatus;

verus! {

/// The connection-wide IMAP parser buffer (`imap_codec::fragmentizer::Fragmentizer`).
#[verifier::external_type_specification]
#[verifier::external_body]
pub struct ExFragmentizer(Fragmentizer);

/// A validated IMAP mailbox name (`imap_types::mailbox::Mailbox`).
#[verifier::external_type_specification]
#[verifier::external_body]
pub struct ExMailbox<'a>(Mailbox<'a>);

/// The reason imap-types refuses a name or a string (`imap_types::error::ValidationError`).
#[verifier::external_type_specification]
#[verifier::external_body]
pub struct ExValidationError(ValidationError);

/// A capability a server advertises (`imap_types::response::Capability`).
#[verifier::external_type_specification]
#[verifier::external_body]
pub struct ExCapability<'a>(Capability<'a>);

/// io-imap's greeting reader.
#[verifier::external_type_specification]
#[verifier::external_body]
pub struct ExImapGreetingGet(ImapGreetingGet);

/// io-imap's LOGIN exchange.
#[verifier::external_type_specification]
#[verifier::external_body]
pub struct ExImapLogin(ImapLogin);

/// io-imap's SASL OAUTHBEARER exchange.
#[verifier::external_type_specification]
#[verifier::external_body]
pub struct ExImapAuthOauthbearer(ImapAuthOauthbearer);

/// What an EXAMINE read (`io_imap::rfc3501::examine::ExamineData`, an alias of
/// `io_imap::rfc3501::select::ImapMailboxSelectData`).
#[verifier::external_type_specification]
#[verifier::external_body]
pub struct ExExamineData(ExamineData);

/// io-imap's EXAMINE exchange.
#[verifier::external_type_specification]
#[verifier::external_body]
pub struct ExImapMailboxExamine(ImapMailboxExamine);

/// io-imap's IDLE exchange.
#[verifier::external_type_specification]
#[verifier::external_body]
pub struct ExImapIdle(ImapIdle);

/// One answer of a request/response coroutine to a resume.
pub enum SubStep<T> {
    /// Read from the socket and resume with the bytes.
    WantsRead,
    /// Write these bytes, then resume with no input.
    WantsWrite(Vec<u8>),
    /// The exchange finished with this value.
    Complete(T),
    /// The exchange failed; the text is the io-imap error, displayed.
    Failed(String),
}

/// One answer of the IDLE coroutine to a resume.
pub enum IdleStep {
    /// Read from the socket and resume with the bytes.
    WantsRead,
    /// Write these bytes, then resume with no input.
    WantsWrite(Vec<u8>),
    /// The server sent untagged data while idling; the coroutine keeps running.
    Event,
    /// IDLE was wound down cleanly.
    Complete,
    /// IDLE failed; the text is the io-imap error, displayed.
    Failed(String),
}

/// The capabilities the watch cares about; every other one is `Other`.
#[derive(Clone, Copy, Debug, PartialEq, Eq, Structural)]
pub enum CapabilityKind {
    /// `IDLE` (RFC 2177).
    Idle,
    /// `CONDSTORE` (RFC 7162).
    CondStore,
    /// `QRESYNC` (RFC 7162).
    QResync,
    /// Any other capability.
    Other,
}

/// A parameter of an EXAMINE command.
#[derive(Clone, Copy, Debug, PartialEq, Eq, Structural)]
pub enum ExamineParameter {
    /// `CONDSTORE`: report HIGHESTMODSEQ.
    CondStore,
}

/// Whether a text holds a NUL character. imap-types refuses exactly such a
/// text as an IMAP astring (an atom, a quoted string or a literal, whose bytes
/// may be anything but NUL), so a mailbox name or a LOGIN user or password is
/// accepted exactly when it holds none.
pub open spec fn has_nul(text: Seq<char>) -> bool {
    text.contains('\0')
}

/// Whether a byte may stand inside a literal announcement between `{` and
/// `}` at position `k` of a stretch ending before `end`: a digit, or a `+`
/// right before the `}`.
pub open spec fn announcement_byte(bytes: Seq<u8>, k: int, end: int) -> bool {
    48u8 <= bytes[k] <= 57u8 || (bytes[k] == 43u8 && k == end - 1)
}

/// Whether the bytes of a chunk before `end` could be the inside of a
/// literal announcement `{n}` or `{n+}` up to its `}`: digits with an
/// optional `+` last, opened by a `{` in the chunk (then with at least one
/// digit) or running back to the chunk's start (where an earlier chunk may
/// have opened it).
pub open spec fn announcement_inside(bytes: Seq<u8>, end: int) -> bool {
    exists|start: int|
        #![trigger opens_at(bytes, start, end)]
        opens_at(bytes, start, end)
}

/// Whether an announcement could open right before `start` and run to `end`:
/// at the chunk's start (an earlier chunk may have opened it), or at a `{`
/// followed by at least one digit.
pub open spec fn opens_at(bytes: Seq<u8>, start: int, end: int) -> bool {
    &&& 0 <= start <= end
    &&& start == 0 || (bytes[start - 1] == 123u8 && start < end && 48u8 <= bytes[start] <= 57u8)
    &&& forall|k: int| start <= k < end ==> #[trigger] announcement_byte(bytes, k, end)
}

/// Whether a `}` at `i` ends the chunk or stands right before a CR or an LF,
/// closing what could be a `{n}` or `{n+}`.
pub open spec fn closes_at(bytes: Seq<u8>, i: int) -> bool {
    &&& 0 <= i < bytes.len()
    &&& bytes[i] == 125u8
    &&& i + 1 == bytes.len() || bytes[i + 1] == 13u8 || bytes[i + 1] == 10u8
    &&& announcement_inside(bytes, i)
}

/// Whether a chunk of server bytes could complete a literal announcement.
pub open spec fn closes_literal_announcement(bytes: Seq<u8>) -> bool {
    exists|i: int| #[trigger] closes_at(bytes, i)
}

/// The connection-wide IMAP parser, with whether it has been fed nothing but
/// greeting bytes that pass [`closes_literal_announcement`] since it was made.
/// The parser is reachable only through this module: the greeting reader
/// keeps the mark, and every other access first drops it for good.
///
/// The stream also keeps a log that only the resume wrappers below extend:
/// every input handed to a coroutine on this connection, in order, and the
/// answer of the last one.
pub struct ImapStream {
    parser: Fragmentizer,
    greeting_only: bool,
    fed: Ghost<Seq<Option<Seq<u8>>>>,
    last: Ghost<Option<Answer>>,
    winding: Ghost<bool>,
}

/// A coroutine's answer to a resume, as logged: the I/O it asked for, an
/// IDLE event, completion (with the capabilities an authentication returned,
/// or the status an EXAMINE read), or a failure.
pub enum Answer {
    WantsRead,
    WantsWrite(Vec<u8>),
    Event,
    Done,
    Authenticated(Vec<Capability<'static>>),
    Examined(MailboxStatus),
    Failed(String),
}

/// A request/response coroutine's answer, as logged.
pub open spec fn sub_answer<T>(step: SubStep<T>) -> Answer {
    match step {
        SubStep::WantsRead => Answer::WantsRead,
        SubStep::WantsWrite(bytes) => Answer::WantsWrite(bytes),
        SubStep::Complete(_) => Answer::Done,
        SubStep::Failed(err) => Answer::Failed(err),
    }
}

/// An authentication's answer, as logged: completion carries the
/// capabilities the server returned.
pub open spec fn auth_answer(step: SubStep<Vec<Capability<'static>>>) -> Answer {
    match step {
        SubStep::Complete(caps) => Answer::Authenticated(caps),
        _ => sub_answer(step),
    }
}

/// An EXAMINE's answer, as logged: completion carries the status read.
pub open spec fn status_answer(step: SubStep<MailboxStatus>) -> Answer {
    match step {
        SubStep::Complete(status) => Answer::Examined(status),
        _ => sub_answer(step),
    }
}

/// The IDLE coroutine's answer, as logged.
pub open spec fn idle_answer(step: IdleStep) -> Answer {
    match step {
        IdleStep::WantsRead => Answer::WantsRead,
        IdleStep::WantsWrite(bytes) => Answer::WantsWrite(bytes),
        IdleStep::Event => Answer::Event,
        IdleStep::Complete => Answer::Done,
        IdleStep::Failed(err) => Answer::Failed(err),
    }
}

impl ImapStream {
    /// Whether the parser has only ever been fed screened greeting bytes.
    pub closed spec fn greeting_only(&self) -> bool {
        self.greeting_only
    }

    /// The longest single message the parser buffers.
    pub closed spec fn message_limit(&self) -> u32 {
        message_limit(self.parser)
    }

    /// Every input handed to a coroutine on this stream, in order.
    pub closed spec fn fed(&self) -> Seq<Option<Seq<u8>>> {
        self.fed@
    }

    /// Whether the last IDLE resumed on this stream had been asked to wind
    /// down when it was resumed.
    pub closed spec fn last_winding(&self) -> bool {
        self.winding@
    }

    /// The answer of the last coroutine resumed on this stream.
    pub closed spec fn last_answer(&self) -> Option<Answer> {
        self.last@
    }

    /// A fresh parser refusing any single message longer than
    /// `max_message_size` bytes, with an empty log.
    pub fn new(max_message_size: u32) -> (stream: Self)
        ensures
            stream.greeting_only(),
            stream.message_limit() == max_message_size,
            stream.fed() == Seq::<Option<Seq<u8>>>::empty(),
            stream.last_answer() is None,
    {
        ImapStream {
            parser: fragmentizer_new(max_message_size),
            greeting_only: true,
            fed: Ghost(Seq::empty()),
            last: Ghost(None),
            winding: Ghost(false),
        }
    }

    /// Marks the greeting as over: from now on the parser may be fed
    /// anything.
    pub fn leave_greeting(&mut self)
        ensures
            !final(self).greeting_only(),
            final(self).message_limit() == old(self).message_limit(),
            final(self).fed() == old(self).fed(),
            final(self).last_answer() == old(self).last_answer(),
    {
        self.greeting_only = false;
    }

    /// The parser, for a driver that runs its own io-imap exchanges; the
    /// stream is no longer marked as greeting-only, and what the driver feeds
    /// it directly is not logged.
    pub fn parser(&mut self) -> (parser: &mut Fragmentizer)
        ensures
            !final(self).greeting_only(),
    {
        self.greeting_only = false;
        &mut self.parser
    }
}

/// A running io-imap or io-webdav coroutine with the plain values it was
/// built from.
pub struct Exchange<C, R> {
    pub(crate) coroutine: C,
    /// What the coroutine was built from (never a secret).
    pub request: R,
}

/// A validated mailbox with the name it was built from.
pub struct NamedMailbox {
    pub(crate) mailbox: Mailbox<'static>,
    /// The name the mailbox was built from.
    pub name: String,
}

/// A running LOGIN with what it was built from.
pub type LoginExchange = Exchange<ImapLogin, LoginRequest>;

/// A running OAUTHBEARER with what it was built from.
pub type OauthExchange = Exchange<ImapAuthOauthbearer, OauthRequest>;

/// A running EXAMINE with what it was built from.
pub type ExamineExchange = Exchange<ImapMailboxExamine, ExamineRequest>;

/// The plain arguments of a LOGIN exchange, with a ghost copy of the
/// password handed beside them.
pub struct LoginRequest {
    /// The user to log in as.
    pub user: String,
    /// Ask CAPABILITY afterwards when the server volunteers none.
    pub ensure_capabilities: bool,
    /// Send `ID NIL` right after the login.
    pub identify: bool,
    /// The password handed with the request.
    pub password: Ghost<Seq<char>>,
}

/// The plain arguments of a SASL OAUTHBEARER exchange, with a ghost copy of
/// the token handed beside them.
pub struct OauthRequest {
    /// The user to authenticate as.
    pub user: String,
    /// The server's host name, part of the GS2 header.
    pub host: String,
    /// The server's port, part of the GS2 header.
    pub port: u16,
    /// Send the initial response with the AUTHENTICATE command.
    pub initial_request: bool,
    /// Ask CAPABILITY afterwards when the server volunteers none.
    pub ensure_capabilities: bool,
    /// Send `ID NIL` right after the authentication.
    pub identify: bool,
    /// The token handed with the request.
    pub token: Ghost<Seq<char>>,
}

/// A running IDLE with its own wind-down flag.
pub struct IdleExchange {
    pub(crate) coroutine: ImapIdle,
    /// The flag the IDLE watches: once it holds true, the IDLE sends DONE.
    pub done: Arc<AtomicBool>,
}

/// Whether a wind-down flag has been raised. Only this crate stores to an
/// IDLE's flag, and only `true`; io-imap only loads it.
pub uninterp spec fn wind_down_requested(done: Arc<AtomicBool>) -> bool;

/// An optional chunk of bytes, by its view.
pub open spec fn bytes_view(input: Option<&[u8]>) -> Option<Seq<u8>> {
    match input {
        Some(bytes) => Some(bytes@),
        None => None,
    }
}

/// The plain arguments of an EXAMINE exchange.
pub struct ExamineRequest {
    /// The name of the mailbox examined.
    pub mailbox: String,
    /// The EXAMINE parameters.
    pub parameters: Vec<ExamineParameter>,
}

/// The longest single message a parser buffers (its `max_message_size`,
/// fixed when it is made: a longer message is cut there and fails to
/// decode).
pub uninterp spec fn message_limit(parser: Fragmentizer) -> u32;

/// `Fragmentizer::new`: an empty parser buffer that refuses any single
/// message longer than `max_message_size` bytes.
#[verifier::external_body]
fn fragmentizer_new(max_message_size: u32) -> (parser: Fragmentizer)
    ensures
        message_limit(parser) == max_message_size,
{
    Fragmentizer::new(max_message_size)
}

/// `Mailbox::try_from(String)`: a mailbox exactly when the name holds no NUL
/// (imap-types' astring check), carried with that name.
#[verifier::external_body]
pub(crate) fn mailbox_from_name(name: String) -> (mailbox: Option<NamedMailbox>)
    ensures
        mailbox is Some <==> !has_nul(name@),
        mailbox matches Some(m) ==> m.name@ == name@,
{
    match Mailbox::try_from(name.clone()) {
        Ok(mailbox) => Some(NamedMailbox { mailbox, name }),
        Err(_) => None,
    }
}

/// `Mailbox::Inbox`, the mailbox named INBOX.
#[verifier::external_body]
pub(crate) fn inbox() -> (mailbox: NamedMailbox)
    ensures
        mailbox.name@ == "INBOX"@,
{
    NamedMailbox { mailbox: Mailbox::Inbox, name: String::from("INBOX") }
}

/// `ImapGreetingGet::new`: a coroutine that reads the server greeting and,
/// with `ensure_capabilities`, asks CAPABILITY when the greeting lists none.
#[verifier::external_body]
pub(crate) fn greeting_new(ensure_capabilities: bool) -> ImapGreetingGet {
    ImapGreetingGet::new(ImapGreetingGetOptions { ensure_capabilities })
}

/// `ImapGreetingGet::resume` on the stream's parser, its answer converted; the
/// coroutine is handed back exactly while it still runs, so a finished one is
/// never resumed. The input and the answer are logged on the stream. Which
/// answer comes is not stated (hidden coroutine state). The greeting reader
/// has no arm for a literal (`unreachable!()`): a literal announcement
/// completes only at a `}` closing `{n}` or `{n+}` right before CR or LF, so
/// the parser (fed only screened greeting bytes since it was made) never
/// holds one, and neither does the input.
#[verifier::external_body]
pub(crate) fn greeting_resume(
    greeting: ImapGreetingGet,
    stream: &mut ImapStream,
    input: Option<&[u8]>,
) -> (answer: (Option<ImapGreetingGet>, SubStep<()>))
    requires
        old(stream).greeting_only(),
        input matches Some(bytes) ==> !closes_literal_announcement(bytes@),
    ensures
        answer.0 is Some <==> (answer.1 is WantsRead || answer.1 is WantsWrite),
        final(stream).fed() == old(stream).fed().push(bytes_view(input)),
        final(stream).greeting_only() == old(stream).greeting_only(),
        final(stream).message_limit() == old(stream).message_limit(),
        final(stream).last_answer() == Some(sub_answer(answer.1)),
{
    let mut greeting = greeting;
    let answer = match greeting.resume(&mut stream.parser, input) {
        ImapCoroutineState::Yielded(ImapYield::WantsRead) => (Some(greeting), SubStep::WantsRead),
        ImapCoroutineState::Yielded(ImapYield::WantsWrite(bytes)) => (Some(greeting), SubStep::WantsWrite(bytes)),
        ImapCoroutineState::Complete(Ok(_)) => (None, SubStep::Complete(())),
        ImapCoroutineState::Complete(Err(err)) => (None, SubStep::Failed(err.to_string())),
    };
    stream.fed = Ghost(stream.fed@.push(bytes_view(input)));
    stream.last = Ghost(Some(sub_answer(answer.1)));
    answer
}

/// `ImapLogin::new`: a LOGIN coroutine for the request's user and `password`
/// exactly when neither holds a NUL (both must be astrings), else the
/// validation error, displayed. `identify` becomes `auto_id: Some(vec![])`
/// (`ID NIL`), else `None` (no ID round-trip).
#[verifier::external_body]
pub(crate) fn login_new(request: LoginRequest, password: &str) -> (login: Result<LoginExchange, String>)
    requires
        request.password@ == password@,
    ensures
        login is Ok <==> (!has_nul(request.user@) && !has_nul(password@)),
        login matches Ok(exchange) ==> exchange.request == request,
{
    let auto_id = if request.identify { Some(Vec::new()) } else { None };
    let options = ImapLoginOptions { ensure_capabilities: request.ensure_capabilities, auto_id };
    match ImapLogin::new(&request.user, password, options) {
        Ok(coroutine) => Ok(Exchange { coroutine, request }),
        Err(err) => Err(err.to_string()),
    }
}

/// `ImapLogin::resume` on the stream's parser, its answer converted; the
/// exchange is handed back exactly while it still runs. The input and the
/// answer are logged on the stream. Which answer comes is not stated.
#[verifier::external_body]
pub(crate) fn login_resume(
    login: LoginExchange,
    stream: &mut ImapStream,
    input: Option<&[u8]>,
) -> (answer: (Option<LoginExchange>, SubStep<Vec<Capability<'static>>>))
    requires
        !old(stream).greeting_only(),
    ensures
        answer.0 is Some <==> (answer.1 is WantsRead || answer.1 is WantsWrite),
        answer.0 matches Some(exchange) ==> exchange.request == login.request,
        final(stream).fed() == old(stream).fed().push(bytes_view(input)),
        final(stream).greeting_only() == old(stream).greeting_only(),
        final(stream).message_limit() == old(stream).message_limit(),
        final(stream).last_answer() == Some(auth_answer(answer.1)),
{
    let mut login = login;
    let answer = match login.coroutine.resume(&mut stream.parser, input) {
        ImapCoroutineState::Yielded(ImapYield::WantsRead) => (Some(login), SubStep::WantsRead),
        ImapCoroutineState::Yielded(ImapYield::WantsWrite(bytes)) => (Some(login), SubStep::WantsWrite(bytes)),
        ImapCoroutineState::Complete(Ok(caps)) => (None, SubStep::Complete(caps)),
        ImapCoroutineState::Complete(Err(err)) => (None, SubStep::Failed(err.to_string())),
    };
    stream.fed = Ghost(stream.fed@.push(bytes_view(input)));
    stream.last = Ghost(Some(auth_answer(answer.1)));
    answer
}

/// `ImapAuthOauthbearer::new`: a SASL OAUTHBEARER coroutine presenting
/// `token` with the request's user, host and port. `identify` becomes
/// `auto_id: Some(vec![])` (`ID NIL`), else `None`.
#[verifier::external_body]
pub(crate) fn oauthbearer_new(request: OauthRequest, token: &str) -> (oauth: OauthExchange)
    requires
        request.token@ == token@,
    ensures
        oauth.request == request,
{
    let auto_id = if request.identify { Some(Vec::new()) } else { None };
    let options = ImapAuthOauthbearerOptions {
        initial_request: request.initial_request,
        ensure_capabilities: request.ensure_capabilities,
        auto_id,
    };
    let coroutine = ImapAuthOauthbearer::new(&request.user, &request.host, request.port, token, options);
    Exchange { coroutine, request }
}

/// `ImapAuthOauthbearer::resume` on the stream's parser, its answer
/// converted; the exchange is handed back exactly while it still runs. The
/// input and the answer are logged on the stream. Which answer comes is not
/// stated.
#[verifier::external_body]
pub(crate) fn oauthbearer_resume(
    oauth: OauthExchange,
    stream: &mut ImapStream,
    input: Option<&[u8]>,
) -> (answer: (Option<OauthExchange>, SubStep<Vec<Capability<'static>>>))
    requires
        !old(stream).greeting_only(),
    ensures
        answer.0 is Some <==> (answer.1 is WantsRead || answer.1 is WantsWrite),
        answer.0 matches Some(exchange) ==> exchange.request == oauth.request,
        final(stream).fed() == old(stream).fed().push(bytes_view(input)),
        final(stream).greeting_only() == old(stream).greeting_only(),
        final(stream).message_limit() == old(stream).message_limit(),
        final(stream).last_answer() == Some(auth_answer(answer.1)),
{
    let mut oauth = oauth;
    let answer = match oauth.coroutine.resume(&mut stream.parser, input) {
        ImapCoroutineState::Yielded(ImapYield::WantsRead) => (Some(oauth), SubStep::WantsRead),
        ImapCoroutineState::Yielded(ImapYield::WantsWrite(bytes)) => (Some(oauth), SubStep::WantsWrite(bytes)),
        ImapCoroutineState::Complete(Ok(caps)) => (None, SubStep::Complete(caps)),
        ImapCoroutineState::Complete(Err(err)) => (None, SubStep::Failed(err.to_string())),
    };
    stream.fed = Ghost(stream.fed@.push(bytes_view(input)));
    stream.last = Ghost(Some(auth_answer(answer.1)));
    answer
}

/// Tells an io-imap capability's variant apart: `IDLE`, `CONDSTORE`,
/// `QRESYNC`, or another (matching by variant, as `==` on these unit
/// variants does).
#[verifier::external_body]
pub(crate) fn capability_kind(capability: &Capability<'static>) -> CapabilityKind {
    match capability {
        Capability::Idle => CapabilityKind::Idle,
        Capability::CondStore => CapabilityKind::CondStore,
        Capability::QResync => CapabilityKind::QResync,
        _ => CapabilityKind::Other,
    }
}

/// Whether `kind` is the kind [`capability_kind`] gives for `cap`: its
/// variant, `IDLE`, `CONDSTORE`, `QRESYNC`, or another.
pub closed spec fn kind_of(cap: Capability<'static>, kind: CapabilityKind) -> bool {
    call_ensures(capability_kind, (&cap,), kind)
}

/// Whether `kinds` are the kinds of `caps`, one for one: as many, and each
/// the kind of the capability at its place.
pub open spec fn classifies(caps: Seq<Capability<'static>>, kinds: Seq<CapabilityKind>) -> bool {
    &&& kinds.len() == caps.len()
    &&& forall|i: int| 0 <= i < caps.len() ==> kind_of(caps[i], #[trigger] kinds[i])
}

/// The kinds of a list of capabilities, in order: every capability of the
/// list is classified, wherever it stands.
pub(crate) fn capability_kinds(caps: &Vec<Capability<'static>>) -> (kinds: Vec<CapabilityKind>)
    ensures
        classifies(caps@, kinds@),
{
    let mut kinds: Vec<CapabilityKind> = Vec::new();
    let mut i: usize = 0;
    while i < caps.len()
        invariant
            i <= caps.len(),
            kinds@.len() == i,
            forall|k: int| 0 <= k < i ==> kind_of(caps@[k], #[trigger] kinds@[k]),
        decreases caps.len() - i,
    {
        kinds.push(capability_kind(&caps[i]));
        i = i + 1;
    }
    kinds
}

/// `ImapMailboxExamine::new`: a read-only EXAMINE of the mailbox with the
/// given parameters (each converted to its io-imap `SelectParameter`).
#[verifier::external_body]
pub(crate) fn examine_new(
    mailbox: &NamedMailbox,
    parameters: Vec<ExamineParameter>,
) -> (examine: ExamineExchange)
    ensures
        examine.request.mailbox@ == mailbox.name@,
        examine.request.parameters@ == parameters@,
{
    let converted = parameters.iter().map(|ExamineParameter::CondStore| SelectParameter::CondStore).collect();
    let coroutine = ImapMailboxExamine::new(mailbox.mailbox.clone(), ImapMailboxExamineOptions { parameters: converted });
    Exchange { coroutine, request: ExamineRequest { mailbox: mailbox.name.clone(), parameters } }
}

/// `ImapMailboxExamine::resume` on the stream's parser, its answer
/// converted: on success the UIDVALIDITY, UIDNEXT and HIGHESTMODSEQ the server
/// reported. The exchange is handed back exactly while it still runs. The
/// input and the answer are logged on the stream. Which answer comes is not
/// stated.
#[verifier::external_body]
pub(crate) fn examine_resume(
    examine: ExamineExchange,
    stream: &mut ImapStream,
    input: Option<&[u8]>,
) -> (answer: (Option<ExamineExchange>, SubStep<MailboxStatus>))
    requires
        !old(stream).greeting_only(),
    ensures
        answer.0 is Some <==> (answer.1 is WantsRead || answer.1 is WantsWrite),
        answer.0 matches Some(exchange) ==> exchange.request == examine.request,
        final(stream).fed() == old(stream).fed().push(bytes_view(input)),
        final(stream).greeting_only() == old(stream).greeting_only(),
        final(stream).message_limit() == old(stream).message_limit(),
        final(stream).last_answer() == Some(status_answer(answer.1)),
{
    let mut examine = examine;
    let answer = match examine.coroutine.resume(&mut stream.parser, input) {
        ImapCoroutineState::Yielded(ImapYield::WantsRead) => (Some(examine), SubStep::WantsRead),
        ImapCoroutineState::Yielded(ImapYield::WantsWrite(bytes)) => (Some(examine), SubStep::WantsWrite(bytes)),
        ImapCoroutineState::Complete(Ok(data)) => (None, SubStep::Complete(status_of(&data))),
        ImapCoroutineState::Complete(Err(err)) => (None, SubStep::Failed(err.to_string())),
    };
    stream.fed = Ghost(stream.fed@.push(bytes_view(input)));
    stream.last = Ghost(Some(status_answer(answer.1)));
    answer
}

/// The status an EXAMINE read, field for field: UIDVALIDITY and UIDNEXT as
/// numbers, HIGHESTMODSEQ as it is.
#[verifier::external_body]
fn status_of(data: &ExamineData) -> MailboxStatus {
    MailboxStatus {
        uid_validity: data.uid_validity.map(|uid| uid.get()),
        uid_next: data.uid_next.map(|uid| uid.get()),
        highest_mod_seq: data.highest_mod_seq,
    }
}

/// `ImapIdle::new` with default options, on a fresh flag holding false
/// (`Arc::new(AtomicBool::new(false))`) that the exchange keeps: storing true
/// into it winds exactly this IDLE down.
#[verifier::external_body]
pub(crate) fn idle_new() -> (idle: IdleExchange)
    ensures
        !wind_down_requested(idle.done),
{
    let done = Arc::new(AtomicBool::new(false));
    IdleExchange { coroutine: ImapIdle::new(done.clone(), ImapIdleOptions::default()), done }
}

/// `AtomicBool::store(true)` on an IDLE's flag: asks the IDLE to send DONE.
#[verifier::external_body]
pub(crate) fn request_wind_down(done: &mut Arc<AtomicBool>)
    ensures
        wind_down_requested(*final(done)),
{
    done.store(true, Ordering::SeqCst);
}

/// `ImapIdle::resume` on the stream's parser, its answer converted (an
/// event's content is dropped); the exchange (and its flag) is handed back
/// exactly while it still runs. The input, the answer and whether its
/// wind-down had been requested are logged on the stream. Which answer comes
/// is not stated.
#[verifier::external_body]
pub(crate) fn idle_resume(
    idle: IdleExchange,
    stream: &mut ImapStream,
    input: Option<&[u8]>,
) -> (answer: (Option<IdleExchange>, IdleStep))
    requires
        !old(stream).greeting_only(),
    ensures
        answer.0 is Some <==> (answer.1 is WantsRead || answer.1 is WantsWrite || answer.1 is Event),
        answer.0 matches Some(exchange) ==> exchange.done == idle.done,
        final(stream).fed() == old(stream).fed().push(bytes_view(input)),
        final(stream).greeting_only() == old(stream).greeting_only(),
        final(stream).message_limit() == old(stream).message_limit(),
        final(stream).last_answer() == Some(idle_answer(answer.1)),
        final(stream).last_winding() == wind_down_requested(idle.done),
{
    stream.winding = Ghost(wind_down_requested(idle.done));
    let mut idle = idle;
    let answer = match idle.coroutine.resume(&mut stream.parser, input) {
        ImapCoroutineState::Yielded(ImapIdleYield::WantsRead) => (Some(idle), IdleStep::WantsRead),
        ImapCoroutineState::Yielded(ImapIdleYield::WantsWrite(bytes)) => (Some(idle), IdleStep::WantsWrite(bytes)),
        ImapCoroutineState::Yielded(ImapIdleYield::Event(_)) => (Some(idle), IdleStep::Event),
        ImapCoroutineState::Complete(Ok(())) => (None, IdleStep::Complete),
        ImapCoroutineState::Complete(Err(err)) => (None, IdleStep::Failed(err.to_string())),
    };
    stream.fed = Ghost(stream.fed@.push(bytes_view(input)));
    stream.last = Ghost(Some(idle_answer(answer.1)));
    answer
}

/// Whether `seen` is what a load of `flag` by [`flag_is_set`] returned.
pub closed spec fn loaded(flag: &Arc<AtomicBool>, seen: bool) -> bool {
    call_ensures(flag_is_set, (flag,), seen)
}

/// What a call of [`flag_is_set`] returned is a load of its flag.
pub(crate) proof fn lemma_loaded(flag: &Arc<AtomicBool>, seen: bool)
    requires
        call_ensures(flag_is_set, (flag,), seen),
    ensures
        loaded(flag, seen),
{
}

/// Whether a shared flag is set. Another thread may set it at any time, so
/// the answer is whatever the load observed.
pub(crate) fn flag_is_set(flag: &Arc<AtomicBool>) -> bool {
    flag.load(Ordering::SeqCst)
}

} // verus!
