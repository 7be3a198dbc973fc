//! IMAP watching as an I/O-free coroutine.
//!
//! Core does no I/O. [`CarillonImapWatch`] is a state machine that composes
//! io-imap's own coroutines (greeting, authentication, EXAMINE, IDLE) and, on
//! each [`resume`](CarillonImapWatch::resume), returns what the driver must do
//! next: read, write, mint a ring for a changed state, or stop.
//!
//! Because the ring is content-free, the watch greets, authenticates,
//! EXAMINEs for the initial state, then holds IDLE and, on each wake,
//! re-EXAMINEs and surfaces a change when the state token advanced.

pub mod coroutines;
pub mod pump;
pub mod state;

use std::sync::atomic::AtomicBool;
use std::sync::Arc;

use io_imap::rfc3501::examine::ImapMailboxExamine;
use io_imap::rfc3501::greeting::ImapGreetingGet;
use io_imap::rfc3501::login::ImapLogin;
use io_imap::rfc7628::auth_oauthbearer::ImapAuthOauthbearer;
use io_imap::types::response::Capability;
use vstd::prelude::*;
use vstd::string::*;

use crate::backend::CarillonImapBackend;
use crate::client::{CarillonWatchError, CarillonWatchResult};
use crate::credential::CarillonCredential;
use crate::imap::coroutines::{
    bytes_view, capability_kinds, classifies, examine_new, examine_resume, flag_is_set, greeting_new,
    greeting_resume, idle_new, idle_resume, inbox, kind_of, lemma_loaded, loaded, login_new, login_resume,
    mailbox_from_name, oauthbearer_new, oauthbearer_resume, request_wind_down, wind_down_requested, Answer,
    CapabilityKind, ExamineParameter, ExamineRequest, Exchange, IdleExchange, IdleStep, ImapStream,
    LoginRequest, NamedMailbox, OauthRequest, SubStep,
};
use crate::imap::state::{state_token, MailboxStatus};

verus! {

/// Safety bound on the parser buffer, in bytes. Only mailbox status is read,
/// never a body, so it never needs to grow large.
pub const MAX_MESSAGE_SIZE: u32 = 1048576;

/// Most internal transitions one resume makes before it gives up. Every
/// transition that asks nothing of the driver moves the watch along its
/// conversation (greeting, authentication, seed EXAMINE, IDLE, re-EXAMINE) or
/// takes an IDLE event, after which the IDLE asks to write DONE; io-imap
/// takes a whole read into one event and asks for I/O once its buffered
/// bytes run out. A resume therefore makes a handful of transitions; the
/// bound only turns a coroutine that never asks for I/O into an error
/// instead of a hang.
pub const RESUME_STEP_BOUND: u32 = 64;

/// What the driver must do to make progress, returned by each
/// [`CarillonImapWatch::resume`].
pub enum CarillonImapWatchProgress {
    /// Read from the socket and pass the bytes to the next `resume`.
    WantsRead,
    /// Write these bytes to the socket, then `resume` again with no input.
    WantsWrite(Vec<u8>),
    /// The mailbox state advanced to this token. Mint and dispatch an event
    /// from it, then `resume` again with no input.
    Changed(String),
    /// The watch finished: shutdown was requested, or an error occurred.
    Done(CarillonWatchResult<()>),
}

/// The step of the watch conversation, without the coroutine it holds.
#[derive(Clone, Copy, Debug, PartialEq, Eq, Structural)]
pub enum WatchPhase {
    /// Reading the server greeting.
    Greeting,
    /// Authenticating with LOGIN.
    AuthLogin,
    /// Authenticating with SASL OAUTHBEARER.
    AuthOauth,
    /// Reading the initial mailbox state.
    ExamineSeed,
    /// Holding IDLE.
    Idle,
    /// Re-reading the mailbox state after an IDLE wake.
    ExamineDiff,
    /// The watch cannot start; the next resume reports why.
    Failed,
    /// The watch is over.
    Ended,
}

/// What the coroutine of the current phase answered to one resume, as plain
/// values.
pub enum StepOutcome {
    /// It needs bytes from the socket.
    WantsRead,
    /// It needs these bytes written.
    WantsWrite(Vec<u8>),
    /// IDLE saw untagged data.
    Event,
    /// The exchange failed; the text is the io-imap error, displayed.
    Failed(String),
    /// The greeting was read.
    Greeted,
    /// Authentication succeeded; the server advertises these capabilities.
    Authenticated(Vec<CapabilityKind>),
    /// EXAMINE reported this status.
    Examined(MailboxStatus),
    /// IDLE was wound down; `shutdown` says whether a shutdown was requested
    /// by then.
    IdleEnded { shutdown: bool },
    /// The phase holds no coroutine (a start failure, or the end).
    Halted,
}

/// The authentication sub-coroutine, one per mechanism.
enum Auth {
    Login(Option<Exchange<ImapLogin, LoginRequest>>),
    Oauth(Option<Exchange<ImapAuthOauthbearer, OauthRequest>>),
}

/// The current step of the watch conversation. A phase holds its coroutine
/// while it runs; once the coroutine has finished, the slot is empty until the
/// watch moves on.
enum Phase {
    Greeting(Option<ImapGreetingGet>),
    Auth(Auth),
    ExamineSeed(Option<Exchange<ImapMailboxExamine, ExamineRequest>>),
    Idle(Option<IdleExchange>),
    ExamineDiff(Option<Exchange<ImapMailboxExamine, ExamineRequest>>),
    Failed(String),
    Ended,
}

/// An I/O-free IMAP watch.
///
/// Greets, authenticates (`LOGIN` or SASL `OAUTHBEARER`), reads the initial
/// mailbox state by a read-only EXAMINE, then holds IDLE and, on each wake,
/// re-EXAMINEs and surfaces [`CarillonImapWatchProgress::Changed`] when the
/// state token advanced. With CONDSTORE the token is
/// `UIDVALIDITY:HIGHESTMODSEQ`; otherwise `UIDVALIDITY:UIDNEXT`.
pub struct CarillonImapWatch {
    imap: CarillonImapBackend,
    credential: CarillonCredential,
    mailbox: NamedMailbox,
    stream: ImapStream,
    shutdown: Arc<AtomicBool>,
    condstore: bool,
    state: Option<String>,
    phase: Phase,
}

/// Whether a phase is one in which a coroutine is running.
pub open spec fn is_active(phase: WatchPhase) -> bool {
    phase != WatchPhase::Failed && phase != WatchPhase::Ended
}

/// Whether a phase comes before the server's capabilities are known.
pub open spec fn is_authenticating(phase: WatchPhase) -> bool {
    phase == WatchPhase::Greeting || phase == WatchPhase::AuthLogin || phase == WatchPhase::AuthOauth
}

/// Which answers the coroutine of each phase can give.
pub open spec fn outcome_fits(phase: WatchPhase, outcome: StepOutcome) -> bool {
    match outcome {
        StepOutcome::WantsRead => is_active(phase),
        StepOutcome::WantsWrite(_) => is_active(phase),
        StepOutcome::Failed(_) => is_active(phase),
        StepOutcome::Greeted => phase == WatchPhase::Greeting,
        StepOutcome::Authenticated(_) => phase == WatchPhase::AuthLogin || phase
            == WatchPhase::AuthOauth,
        StepOutcome::Examined(_) => phase == WatchPhase::ExamineSeed || phase
            == WatchPhase::ExamineDiff,
        StepOutcome::Event => phase == WatchPhase::Idle,
        StepOutcome::IdleEnded { .. } => phase == WatchPhase::Idle,
        StepOutcome::Halted => !is_active(phase),
    }
}

/// The step named in the message of a failure in each phase.
pub open spec fn failure_context(phase: WatchPhase) -> Seq<char> {
    match phase {
        WatchPhase::Greeting => "greeting"@,
        WatchPhase::AuthLogin => "login"@,
        WatchPhase::AuthOauth => "oauthbearer"@,
        WatchPhase::ExamineSeed => "examine"@,
        WatchPhase::ExamineDiff => "examine"@,
        WatchPhase::Idle => "idle"@,
        _ => Seq::empty(),
    }
}

/// `context: detail`.
pub open spec fn contextual_message(context: Seq<char>, detail: Seq<char>) -> Seq<char> {
    context + ": "@ + detail
}

/// Whether `progress` ends the watch with an IMAP error carrying `message`.
pub open spec fn is_imap_failure(progress: CarillonImapWatchProgress, message: Seq<char>) -> bool {
    progress matches CarillonImapWatchProgress::Done(Err(CarillonWatchError::Imap(m))) && m@
        == message
}

/// Whether `prefix` begins `text`.
pub open spec fn has_prefix(text: Seq<char>, prefix: Seq<char>) -> bool {
    prefix.len() <= text.len() && text.subrange(0, prefix.len() as int) == prefix
}

/// Whether `progress` ends the watch because the password credential cannot
/// be sent in a LOGIN command.
pub open spec fn is_credentials_failure(progress: CarillonImapWatchProgress) -> bool {
    progress matches CarillonImapWatchProgress::Done(Err(CarillonWatchError::Imap(m)))
        && has_prefix(m@, "invalid IMAP credentials: "@)
}

/// Whether `progress` ends the watch cleanly.
pub open spec fn is_clean_end(progress: CarillonImapWatchProgress) -> bool {
    progress matches CarillonImapWatchProgress::Done(Ok(()))
}

/// Whether a capability list contains a capability.
pub open spec fn advertises(caps: Seq<CapabilityKind>, wanted: CapabilityKind) -> bool {
    caps.contains(wanted)
}

/// Whether the watch tracks HIGHESTMODSEQ for these capabilities.
pub open spec fn tracks_mod_seq(caps: Seq<CapabilityKind>) -> bool {
    advertises(caps, CapabilityKind::CondStore) || advertises(caps, CapabilityKind::QResync)
}

/// The message of the refusal to watch a server without IDLE.
pub open spec fn no_idle_message() -> Seq<char> {
    "server does not advertise IDLE; cannot watch"@
}

/// The EXAMINE parameters the watch asks for: CONDSTORE exactly when it
/// tracks HIGHESTMODSEQ.
pub open spec fn examine_parameters_for(condstore: bool) -> Seq<ExamineParameter> {
    if condstore {
        seq![ExamineParameter::CondStore]
    } else {
        Seq::empty()
    }
}

/// Whether an EXAMINE was built on `mailbox` with the parameters for
/// `condstore`.
pub open spec fn examines(request: ExamineRequest, mailbox: Seq<char>, condstore: bool) -> bool {
    request.mailbox@ == mailbox && request.parameters@ == examine_parameters_for(condstore)
}

/// Whether a LOGIN was built for `user` with `password`, asking CAPABILITY
/// when none is volunteered and sending no ID.
pub open spec fn logs_in_as(request: LoginRequest, user: Seq<char>, password: Seq<char>) -> bool {
    &&& request.user@ == user
    &&& request.password@ == password
    &&& request.ensure_capabilities
    &&& !request.identify
}

/// Whether an OAUTHBEARER was built for `user` at `host`:`port` with
/// `token`, sending the initial response inline, asking CAPABILITY when none
/// is volunteered and sending no ID.
pub open spec fn authenticates_as(
    request: OauthRequest,
    user: Seq<char>,
    host: Seq<char>,
    port: u16,
    token: Seq<char>,
) -> bool {
    &&& request.user@ == user
    &&& request.host@ == host
    &&& request.port == port
    &&& request.token@ == token
    &&& request.initial_request
    &&& request.ensure_capabilities
    &&& !request.identify
}

/// Whether the watch rings for a freshly examined token, given the token it
/// saw last.
pub open spec fn rings(seen: Option<Seq<char>>, token: Seq<char>) -> bool {
    seen != Some(token)
}

impl CarillonImapWatch {
    /// The step the conversation is at.
    pub closed spec fn phase(&self) -> WatchPhase {
        match self.phase {
            Phase::Greeting(_) => WatchPhase::Greeting,
            Phase::Auth(Auth::Login(_)) => WatchPhase::AuthLogin,
            Phase::Auth(Auth::Oauth(_)) => WatchPhase::AuthOauth,
            Phase::ExamineSeed(_) => WatchPhase::ExamineSeed,
            Phase::Idle(_) => WatchPhase::Idle,
            Phase::ExamineDiff(_) => WatchPhase::ExamineDiff,
            Phase::Failed(_) => WatchPhase::Failed,
            Phase::Ended => WatchPhase::Ended,
        }
    }

    /// Whether the server advertised CONDSTORE (or QRESYNC).
    pub closed spec fn condstore(&self) -> bool {
        self.condstore
    }

    /// The last state token read, if any.
    pub closed spec fn seen(&self) -> Option<Seq<char>> {
        match self.state {
            Some(token) => Some(token@),
            None => None,
        }
    }

    /// The reason the watch cannot start, in the `Failed` phase.
    pub closed spec fn failure(&self) -> Seq<char> {
        match self.phase {
            Phase::Failed(message) => message@,
            _ => Seq::empty(),
        }
    }

    /// The login presented to the server.
    pub closed spec fn login(&self) -> Seq<char> {
        self.imap.login@
    }

    /// The server's host name.
    pub closed spec fn host(&self) -> Seq<char> {
        self.imap.host@
    }

    /// The server's port.
    pub closed spec fn port(&self) -> u16 {
        self.imap.port
    }

    /// The name of the watched mailbox.
    pub closed spec fn mailbox_name(&self) -> Seq<char> {
        self.imap.mailbox@
    }

    /// The shutdown flag the watch loads.
    pub closed spec fn shutdown_flag(&self) -> Arc<AtomicBool> {
        self.shutdown
    }

    /// Whether the credential is a bearer token (else a password).
    pub closed spec fn uses_bearer(&self) -> bool {
        self.credential is Bearer
    }

    /// The text of the credential's secret (the password or the token).
    pub closed spec fn secret(&self) -> Seq<char> {
        self.credential.text()
    }

    /// The name of the mailbox the watch EXAMINEs.
    pub closed spec fn examined_mailbox(&self) -> Seq<char> {
        self.mailbox.name@
    }

    /// What the running LOGIN was built from, while one runs.
    pub closed spec fn login_request(&self) -> Option<LoginRequest> {
        match self.phase {
            Phase::Auth(Auth::Login(Some(exchange))) => Some(exchange.request),
            _ => None,
        }
    }

    /// What the running OAUTHBEARER was built from, while one runs.
    pub closed spec fn oauth_request(&self) -> Option<OauthRequest> {
        match self.phase {
            Phase::Auth(Auth::Oauth(Some(exchange))) => Some(exchange.request),
            _ => None,
        }
    }

    /// Whether a phase in which a coroutine runs holds that coroutine (it is
    /// empty only between a coroutine finishing and the watch moving on).
    pub closed spec fn ready(&self) -> bool {
        match self.phase {
            Phase::Greeting(slot) => slot is Some,
            Phase::Auth(Auth::Login(slot)) => slot is Some,
            Phase::Auth(Auth::Oauth(slot)) => slot is Some,
            Phase::ExamineSeed(slot) => slot is Some,
            Phase::Idle(slot) => slot is Some,
            Phase::ExamineDiff(slot) => slot is Some,
            Phase::Failed(_) => true,
            Phase::Ended => true,
        }
    }

    /// The longest single server message the watch's parser buffers.
    pub closed spec fn message_limit(&self) -> u32 {
        self.stream.message_limit()
    }

    /// Every input handed to a coroutine of the watch, in order.
    pub closed spec fn fed(&self) -> Seq<Option<Seq<u8>>> {
        self.stream.fed()
    }

    /// Whether the last IDLE the watch resumed had been asked to wind down
    /// when it was resumed, as the resume logged it.
    pub closed spec fn idle_logged_winding(&self) -> bool {
        self.stream.last_winding()
    }

    /// The answer of the last coroutine the watch resumed.
    pub closed spec fn answer(&self) -> Option<Answer> {
        self.stream.last_answer()
    }

    /// Whether the running IDLE, while one runs, has been asked to wind down.
    pub closed spec fn idle_winding(&self) -> Option<bool> {
        match self.phase {
            Phase::Idle(Some(idle)) => Some(wind_down_requested(idle.done)),
            _ => None,
        }
    }

    /// Whether the connection's parser has only been fed screened greeting
    /// bytes so far.
    pub closed spec fn greeting_only(&self) -> bool {
        self.stream.greeting_only()
    }

    /// What the running EXAMINE was built from, while one runs.
    pub closed spec fn examine_request(&self) -> Option<ExamineRequest> {
        match self.phase {
            Phase::ExamineSeed(Some(exchange)) => Some(exchange.request),
            Phase::ExamineDiff(Some(exchange)) => Some(exchange.request),
            _ => None,
        }
    }

    /// The consistency of the watch: no token is known before the initial
    /// EXAMINE completes and one is known from then on; and every coroutine
    /// it runs was built from the configured login, server, mailbox and
    /// CONDSTORE support.
    pub open spec fn wf(&self) -> bool {
        &&& match self.phase() {
            WatchPhase::Greeting | WatchPhase::AuthLogin | WatchPhase::AuthOauth => self.seen() is None
                && !self.condstore(),
            WatchPhase::ExamineSeed => self.seen() is None,
            WatchPhase::Idle | WatchPhase::ExamineDiff => self.seen() is Some,
            _ => true,
        }
        &&& self.phase() == WatchPhase::Greeting ==> self.greeting_only()
        &&& self.login_request() matches Some(r) ==> logs_in_as(r, self.login(), self.secret())
        &&& self.oauth_request() matches Some(r) ==> authenticates_as(
            r,
            self.login(),
            self.host(),
            self.port(),
            self.secret(),
        )
        &&& self.examine_request() matches Some(r) ==> examines(r, self.examined_mailbox(), self.condstore())
    }

    /// The parts of the watch that never change once it is built.
    pub open spec fn same_source(&self, other: &Self) -> bool {
        &&& self.login() == other.login()
        &&& self.host() == other.host()
        &&& self.port() == other.port()
        &&& self.mailbox_name() == other.mailbox_name()
        &&& self.uses_bearer() == other.uses_bearer()
        &&& self.secret() == other.secret()
        &&& self.examined_mailbox() == other.examined_mailbox()
        &&& self.message_limit() == other.message_limit()
        &&& self.shutdown_flag() == other.shutdown_flag()
    }

    /// What one [`advance`](Self::advance) does with one answer.
    pub open spec fn advance_post(
        pre: Self,
        outcome: StepOutcome,
        post: Self,
        progress: Option<CarillonImapWatchProgress>,
    ) -> bool {
        &&& post.same_source(&pre)
        &&& match outcome {
            StepOutcome::WantsRead => {
                &&& post.phase() == pre.phase()
                &&& post.condstore() == pre.condstore()
                &&& post.seen() == pre.seen()
                &&& progress matches Some(CarillonImapWatchProgress::WantsRead)
            },
            StepOutcome::WantsWrite(bytes) => {
                &&& post.phase() == pre.phase()
                &&& post.condstore() == pre.condstore()
                &&& post.seen() == pre.seen()
                &&& progress matches Some(CarillonImapWatchProgress::WantsWrite(b)) && b@
                    == bytes@
            },
            StepOutcome::Failed(detail) => {
                &&& post.phase() == WatchPhase::Ended
                &&& post.condstore() == pre.condstore()
                &&& post.seen() == pre.seen()
                &&& progress matches Some(p) && is_imap_failure(
                    p,
                    contextual_message(failure_context(pre.phase()), detail@),
                )
            },
            StepOutcome::Greeted => {
                &&& post.condstore() == pre.condstore()
                &&& post.seen() == pre.seen()
                &&& if pre.uses_bearer() {
                    &&& post.phase() == WatchPhase::AuthOauth
                    &&& progress is None
                    &&& post.oauth_request() matches Some(r) && authenticates_as(
                        r,
                        pre.login(),
                        pre.host(),
                        pre.port(),
                        pre.secret(),
                    )
                } else if !coroutines::has_nul(pre.login()) && !coroutines::has_nul(pre.secret()) {
                    &&& post.phase() == WatchPhase::AuthLogin
                    &&& progress is None
                    &&& post.login_request() matches Some(r) && logs_in_as(r, pre.login(), pre.secret())
                } else {
                    post.phase() == WatchPhase::Ended && (progress matches Some(p) && is_credentials_failure(p))
                }
            },
            StepOutcome::Authenticated(caps) => {
                &&& post.seen() == pre.seen()
                &&& if advertises(caps@, CapabilityKind::Idle) {
                    &&& post.phase() == WatchPhase::ExamineSeed
                    &&& post.condstore() == tracks_mod_seq(caps@)
                    &&& progress is None
                    &&& post.examine_request() matches Some(r) && examines(
                        r,
                        pre.examined_mailbox(),
                        tracks_mod_seq(caps@),
                    )
                } else {
                    &&& post.phase() == WatchPhase::Ended
                    &&& post.condstore() == pre.condstore()
                    &&& progress matches Some(p) && is_imap_failure(p, no_idle_message())
                }
            },
            StepOutcome::Examined(status) => {
                let token = state::status_token(status, pre.condstore());
                &&& post.phase() == WatchPhase::Idle
                &&& post.idle_winding() == Some(false)
                &&& post.condstore() == pre.condstore()
                &&& post.seen() == Some(token)
                &&& if pre.phase() == WatchPhase::ExamineDiff && rings(pre.seen(), token) {
                    progress matches Some(CarillonImapWatchProgress::Changed(t)) && t@ == token
                } else {
                    progress is None
                }
            },
            StepOutcome::Event => {
                &&& post.phase() == pre.phase()
                &&& post.condstore() == pre.condstore()
                &&& post.seen() == pre.seen()
                &&& progress is None
                &&& pre.idle_winding() is Some ==> post.idle_winding() == Some(true)
            },
            StepOutcome::IdleEnded { shutdown } => {
                &&& post.condstore() == pre.condstore()
                &&& post.seen() == pre.seen()
                &&& if shutdown {
                    post.phase() == WatchPhase::Ended && (progress matches Some(p) && is_clean_end(p))
                } else {
                    &&& post.phase() == WatchPhase::ExamineDiff
                    &&& progress is None
                    &&& post.examine_request() matches Some(r) && examines(
                        r,
                        pre.examined_mailbox(),
                        pre.condstore(),
                    )
                }
            },
            StepOutcome::Halted => {
                &&& post.phase() == WatchPhase::Ended
                &&& post.condstore() == pre.condstore()
                &&& post.seen() == pre.seen()
                &&& progress matches Some(p) && if pre.phase() == WatchPhase::Failed {
                    is_imap_failure(p, pre.failure())
                } else {
                    is_clean_end(p)
                }
            },
        }
    }

    /// What one [`resume`](Self::resume) guarantees, whatever the io-imap
    /// coroutines answered.
    pub open spec fn resume_post(
        pre: Self,
        input: Option<Seq<u8>>,
        post: Self,
        progress: CarillonImapWatchProgress,
    ) -> bool {
        &&& post.wf()
        &&& post.same_source(&pre)
        &&& match progress {
            CarillonImapWatchProgress::WantsRead => is_active(post.phase()),
            CarillonImapWatchProgress::WantsWrite(_) => is_active(post.phase()),
            CarillonImapWatchProgress::Changed(token) => {
                &&& post.phase() == WatchPhase::Idle
                &&& post.seen() == Some(token@)
                &&& rings(pre.seen(), token@)
                &&& exists|status: MailboxStatus| #[trigger]
                    state::status_token(status, post.condstore()) == token@
            },
            CarillonImapWatchProgress::Done(_) => post.phase() == WatchPhase::Ended,
        }
        &&& !is_authenticating(pre.phase()) ==> !is_authenticating(post.phase()) && post.condstore()
            == pre.condstore()
        &&& pre.phase() == WatchPhase::Ended ==> is_clean_end(progress)
        &&& pre.phase() == WatchPhase::Failed ==> is_imap_failure(progress, pre.failure())
        &&& post.ready()
        &&& resumes(pre, input) ==> post.fed().len() > pre.fed().len() && fed_since(
            pre.fed(),
            input,
            post.fed(),
            (post.fed().len() - pre.fed().len()) as nat,
        )
        &&& !resumes(pre, input) ==> post.fed() == pre.fed()
        &&& refuses_greeting(pre, input) ==> is_imap_failure(
            progress,
            contextual_message("greeting"@, literal_refusal()),
        )
        &&& exists|
            befores: Seq<CarillonImapWatch>,
            outcomes: Seq<StepOutcome>,
            afters: Seq<CarillonImapWatch>,
            progresses: Seq<Option<CarillonImapWatchProgress>>,
            feeds: Seq<StepFeed>,
        | #[trigger] resume_ran(pre, input, post, progress, befores, outcomes, afters, progresses, feeds)
    }

    /// Creates a watch over an as-yet-unopened connection. `shutdown`, when
    /// set (typically from a signal handler on another thread), winds the
    /// IDLE down cleanly and completes the watch. A mailbox name that IMAP
    /// cannot carry leaves the watch failed, to report on the first resume.
    pub fn new(
        imap: CarillonImapBackend,
        credential: CarillonCredential,
        shutdown: Arc<AtomicBool>,
    ) -> (watch: Self)
        ensures
            watch.wf(),
            watch.login() == imap.login@,
            watch.host() == imap.host@,
            watch.port() == imap.port,
            watch.mailbox_name() == imap.mailbox@,
            watch.uses_bearer() == (credential is Bearer),
            watch.secret() == credential.text(),
            !watch.condstore(),
            watch.seen() is None,
            watch.ready(),
            watch.message_limit() == MAX_MESSAGE_SIZE,
            watch.fed() == Seq::<Option<Seq<u8>>>::empty(),
            !coroutines::has_nul(imap.mailbox@) ==> watch.phase() == WatchPhase::Greeting
                && watch.examined_mailbox() == imap.mailbox@,
            coroutines::has_nul(imap.mailbox@) ==> watch.phase() == WatchPhase::Failed
                && watch.failure() == contextual_message("invalid mailbox name"@, imap.mailbox@),
    {
        let (mailbox, phase) = match mailbox_from_name(imap.mailbox.clone()) {
            Some(mailbox) => (mailbox, Phase::Greeting(Some(greeting_new(true)))),
            None => (
                inbox(),
                Phase::Failed(contextual("invalid mailbox name", imap.mailbox.clone())),
            ),
        };
        CarillonImapWatch {
            imap,
            credential,
            mailbox,
            stream: ImapStream::new(MAX_MESSAGE_SIZE),
            shutdown,
            condstore: false,
            state: None,
            phase,
        }
    }

    /// The step the conversation is at.
    pub fn current_phase(&self) -> (phase: WatchPhase)
        ensures
            phase == self.phase(),
    {
        match &self.phase {
            Phase::Greeting(_) => WatchPhase::Greeting,
            Phase::Auth(Auth::Login(_)) => WatchPhase::AuthLogin,
            Phase::Auth(Auth::Oauth(_)) => WatchPhase::AuthOauth,
            Phase::ExamineSeed(_) => WatchPhase::ExamineSeed,
            Phase::Idle(_) => WatchPhase::Idle,
            Phase::ExamineDiff(_) => WatchPhase::ExamineDiff,
            Phase::Failed(_) => WatchPhase::Failed,
            Phase::Ended => WatchPhase::Ended,
        }
    }

    /// The last state token read, if any.
    pub fn last_state(&self) -> (state: Option<String>)
        ensures
            match state {
                Some(token) => self.seen() == Some(token@),
                None => self.seen() is None,
            },
    {
        match &self.state {
            Some(token) => Some(token.clone()),
            None => None,
        }
    }

    /// Advances the watch, returning the next action for the driver. After a
    /// [`WantsRead`](CarillonImapWatchProgress::WantsRead), pass the bytes
    /// just read as `input`; otherwise pass `None`.
    ///
    /// The coroutine of the current phase is resumed with `input`, and any
    /// later one within this resume with nothing, as the connection's log
    /// ([`fed`](Self::fed)) shows; each step answers what its coroutine
    /// answered.
    ///
    /// One resume moves through at most [`RESUME_STEP_BOUND`] phase
    /// transitions; if the coroutines keep answering without asking for I/O
    /// that long, the watch ends with an IMAP error instead of spinning.
    pub fn resume(&mut self, input: Option<&[u8]>) -> (progress: CarillonImapWatchProgress)
        requires
            old(self).wf(),
            old(self).ready(),
        ensures
            Self::resume_post(*old(self), bytes_view(input), *final(self), progress),
    {
        let ghost pre = *self;
        let ghost input0 = bytes_view(input);
        let ghost mut feeds: Seq<StepFeed> = Seq::empty();
        let ghost mut befores: Seq<CarillonImapWatch> = Seq::empty();
        let ghost mut outcomes: Seq<StepOutcome> = Seq::empty();
        let ghost mut afters: Seq<CarillonImapWatch> = Seq::empty();
        let ghost mut progresses: Seq<Option<CarillonImapWatchProgress>> = Seq::empty();
        let mut pending = input;
        let mut budget: u32 = RESUME_STEP_BOUND;
        assert(pre.fed().subrange(0, pre.fed().len() as int) =~= pre.fed());
        loop
            invariant
                self.wf(),
                pre == *old(self),
                outcomes.len() == RESUME_STEP_BOUND - budget,
                is_run(befores, outcomes, afters, progresses),
                feeds.len() == outcomes.len(),
                forall|i: int| 0 <= i < outcomes.len() ==> fed_as(#[trigger] feeds[i]),
                forall|i: int| 0 <= i < outcomes.len() ==> ends_on_load(&pre.shutdown_flag(), #[trigger] outcomes[i]),
                forall|i: int| 0 <= i < outcomes.len() && befores[i].phase() == WatchPhase::Idle ==> loaded(
                    &pre.shutdown_flag(),
                    (#[trigger] feeds[i]).0,
                ),
                befores.len() == outcomes.len(),
                self.ready(),
                pre.ready(),
                outcomes.len() > 0 ==> resumes(pre, input0) && is_active(self.phase()),
                resumes(pre, input0) ==> fed_since(pre.fed(), input0, self.fed(), outcomes.len()),
                !resumes(pre, input0) ==> self.fed() == pre.fed(),
                outcomes.len() > 0 ==> (self.answer() matches Some(a) && outcome_answers(outcomes.last(), a)),
                outcomes.len() == 0 ==> bytes_view(pending) == input0,
                input0 == bytes_view(input),
                outcomes.len() > 0 ==> pending is None,
                outcomes.len() > 0 ==> !refuses_greeting(pre, input0),
                forall|i: int| 0 <= i < outcomes.len() ==> #[trigger] progresses[i] is None,
                outcomes.len() == 0 ==> *self == pre,
                outcomes.len() > 0 ==> *self == afters.last() && agrees(pre, befores[0]),
                self.same_source(&pre),
                pre.wf(),
                self.seen() == pre.seen() || pre.seen() is None,
                pre.phase() == WatchPhase::Ended ==> *self == pre,
                pre.phase() == WatchPhase::Failed ==> *self == pre,
                !is_active(pre.phase()) ==> budget == RESUME_STEP_BOUND,
                !is_authenticating(pre.phase()) ==> !is_authenticating(self.phase())
                    && self.condstore() == pre.condstore(),
            decreases budget,
        {
            if budget == 0 {
                self.phase = Phase::Ended;
                let progress = CarillonImapWatchProgress::Done(
                    Err(CarillonWatchError::Imap(String::from_str("watch made no progress"))),
                );
                assert(resume_ran(pre, input0, *self, progress, befores, outcomes, afters, progresses, feeds));
                return progress;
            }
            budget = budget - 1;
            let ghost start = *self;
            let ghost handed = bytes_view(pending);
            let taken = pending.take();
            let (outcome, feed) = self.resume_phase(taken);
            let ghost answer = outcome;
            proof {
                if outcomes.len() == 0 && refuses_greeting(pre, input0) {
                    assert(start == pre);
                    assert(taken matches Some(bytes) && coroutines::closes_literal_announcement(bytes@));
                    assert(answer matches StepOutcome::Failed(m) && m@ == literal_refusal());
                }
            }
            let ghost before = *self;
            let step = self.advance(outcome);
            proof {
                let ghost (b0, o0, a0, p0) = (befores, outcomes, afters, progresses);
                let ghost f0 = feeds;
                feeds = feeds.push(feed@);
                assert forall|i: int| 0 <= i < feeds.len() implies fed_as(#[trigger] feeds[i]) by {
                    if i < f0.len() {
                        assert(feeds[i] == f0[i]);
                    }
                }
                assert(start.phase() == before.phase());
                assert(start.shutdown_flag() == pre.shutdown_flag());
                if resumes(pre, input0) {
                    assert(resumes(start, handed));
                    assert(fed_since(pre.fed(), input0, self.fed(), (o0.len() + 1) as nat)) by {
                        assert(self.fed() == start.fed().push(handed));
                        assert(self.fed().subrange(0, pre.fed().len() as int) =~= pre.fed());
                    }
                }
                befores = befores.push(before);
                outcomes = outcomes.push(answer);
                afters = afters.push(*self);
                progresses = progresses.push(step);
                assert(steps(before, answer, *self, step));
                assert forall|i: int| 0 <= i < outcomes.len() implies #[trigger] steps(
                    befores[i],
                    outcomes[i],
                    afters[i],
                    progresses[i],
                ) by {
                    if i < o0.len() {
                        assert(steps(b0[i], o0[i], a0[i], p0[i]));
                        assert(outcomes[i] == o0[i]);
                        assert(befores[i] == b0[i]);
                        assert(afters[i] == a0[i]);
                        assert(progresses[i] == p0[i]);
                    }
                }
                assert forall|i: int| 0 <= i < outcomes.len() - 1 implies agrees(
                    #[trigger] afters[i],
                    befores[i + 1],
                ) by {
                    assert(afters[i] == a0[i]);
                    if i < o0.len() - 1 {
                        assert(a0[i] == afters[i]);
                        assert(agrees(a0[i], b0[i + 1]));
                        assert(befores[i + 1] == b0[i + 1]);
                    } else {
                        assert(a0[i] == start);
                        assert(befores[i + 1] == before);
                    }
                }
                assert(is_run(befores, outcomes, afters, progresses));
                assert forall|i: int| 0 <= i < outcomes.len() implies ends_on_load(
                    &pre.shutdown_flag(),
                    #[trigger] outcomes[i],
                ) by {
                    if i < o0.len() {
                        assert(outcomes[i] == o0[i]);
                    }
                }
                assert forall|i: int| 0 <= i < outcomes.len() && befores[i].phase() == WatchPhase::Idle implies loaded(
                    &pre.shutdown_flag(),
                    (#[trigger] feeds[i]).0,
                ) by {
                    if i < o0.len() {
                        assert(feeds[i] == f0[i]);
                        assert(befores[i] == b0[i]);
                    }
                }
            }
            proof {
                if outcomes.len() == 1 && refuses_greeting(pre, input0) {
                    assert(before.phase() == WatchPhase::Greeting);
                    assert(failure_context(WatchPhase::Greeting) == "greeting"@);
                    assert(step matches Some(p) && is_imap_failure(
                        p,
                        contextual_message("greeting"@, literal_refusal()),
                    ));
                }
            }
            match step {
                Some(progress) => {
                    assert(resume_ran(pre, input0, *self, progress, befores, outcomes, afters, progresses, feeds));
                    proof {
                        // The examined status witnesses that a `Changed` token is a status token.
                        if let StepOutcome::Examined(status) = answer {
                            assert(state::status_token(status, self.condstore()) == state::status_token(
                                status,
                                self.condstore(),
                            ));
                        }
                    }
                    return progress;
                },
                None => {},
            }
        }
    }

    /// Resumes the coroutine of the current phase once with `input`,
    /// answering in plain values, with a record of whether a shutdown was seen
    /// before resuming an IDLE and whether that IDLE was then resumed with its
    /// wind-down requested. Greeting bytes that could close a literal
    /// announcement fail the greeting (a greeting never carries a literal),
    /// and a phase whose coroutine already finished fails instead of resuming
    /// it.
    fn resume_phase(&mut self, input: Option<&[u8]>) -> (result: (StepOutcome, Ghost<StepFeed>))
        requires
            old(self).wf(),
        ensures
            outcome_fits(old(self).phase(), result.0),
            final(self).wf(),
            final(self).phase() == old(self).phase(),
            final(self).condstore() == old(self).condstore(),
            final(self).seen() == old(self).seen(),
            final(self).failure() == old(self).failure(),
            final(self).same_source(&*old(self)),
            !is_active(old(self).phase()) ==> *final(self) == *old(self),
            fed_as(result.1@),
            refuses_greeting(*old(self), bytes_view(input)) ==> (result.0 matches StepOutcome::Failed(m) && m@
                == literal_refusal()),
            resumes(*old(self), bytes_view(input)) ==> final(self).fed() == old(self).fed().push(bytes_view(input))
                && (final(self).answer() matches Some(a) && outcome_answers(result.0, a)),
            !resumes(*old(self), bytes_view(input)) ==> final(self).fed() == old(self).fed(),
            old(self).ready() && (result.0 is WantsRead || result.0 is WantsWrite || result.0 is Event)
                ==> final(self).ready(),
            result.1@.0 ==> old(self).phase() == WatchPhase::Idle && final(self).idle_logged_winding(),
            result.0 is Event ==> final(self).idle_winding() is Some,
            old(self).phase() == WatchPhase::Idle && old(self).ready() ==> loaded(
                &old(self).shutdown_flag(),
                result.1@.0,
            ),
            ends_on_load(&old(self).shutdown_flag(), result.0),
    {
        match &mut self.phase {
            Phase::Greeting(slot) => {
                let refused = match input {
                    Some(bytes) => may_close_literal(bytes),
                    None => false,
                };
                if refused {
                    return (StepOutcome::Failed(String::from_str("greeting announces a literal")), Ghost((false, false)));
                }
                match slot.take() {
                    None => (StepOutcome::Failed(String::from_str("exchange already finished")), Ghost((false, false))),
                    Some(greeting) => {
                        let (back, step) = greeting_resume(greeting, &mut self.stream, input);
                        *slot = back;
                        let outcome = match step {
                            SubStep::WantsRead => StepOutcome::WantsRead,
                            SubStep::WantsWrite(bytes) => StepOutcome::WantsWrite(bytes),
                            SubStep::Complete(()) => StepOutcome::Greeted,
                            SubStep::Failed(err) => StepOutcome::Failed(err),
                        };
                        (outcome, Ghost((false, false)))
                    },
                }
            },
            Phase::Auth(Auth::Login(slot)) => match slot.take() {
                None => (StepOutcome::Failed(String::from_str("exchange already finished")), Ghost((false, false))),
                Some(login) => {
                    self.stream.leave_greeting();
                    let (back, step) = login_resume(login, &mut self.stream, input);
                    *slot = back;
                    let outcome = match step {
                        SubStep::WantsRead => StepOutcome::WantsRead,
                        SubStep::WantsWrite(bytes) => StepOutcome::WantsWrite(bytes),
                        SubStep::Complete(caps) => StepOutcome::Authenticated(capability_kinds(&caps)),
                        SubStep::Failed(err) => StepOutcome::Failed(err),
                    };
                    (outcome, Ghost((false, false)))
                },
            },
            Phase::Auth(Auth::Oauth(slot)) => match slot.take() {
                None => (StepOutcome::Failed(String::from_str("exchange already finished")), Ghost((false, false))),
                Some(oauth) => {
                    self.stream.leave_greeting();
                    let (back, step) = oauthbearer_resume(oauth, &mut self.stream, input);
                    *slot = back;
                    let outcome = match step {
                        SubStep::WantsRead => StepOutcome::WantsRead,
                        SubStep::WantsWrite(bytes) => StepOutcome::WantsWrite(bytes),
                        SubStep::Complete(caps) => StepOutcome::Authenticated(capability_kinds(&caps)),
                        SubStep::Failed(err) => StepOutcome::Failed(err),
                    };
                    (outcome, Ghost((false, false)))
                },
            },
            Phase::ExamineSeed(slot) => match slot.take() {
                None => (StepOutcome::Failed(String::from_str("exchange already finished")), Ghost((false, false))),
                Some(examine) => {
                    self.stream.leave_greeting();
                    let (back, step) = examine_resume(examine, &mut self.stream, input);
                    *slot = back;
                    let outcome = match step {
                        SubStep::WantsRead => StepOutcome::WantsRead,
                        SubStep::WantsWrite(bytes) => StepOutcome::WantsWrite(bytes),
                        SubStep::Complete(status) => StepOutcome::Examined(status),
                        SubStep::Failed(err) => StepOutcome::Failed(err),
                    };
                    (outcome, Ghost((false, false)))
                },
            },
            Phase::ExamineDiff(slot) => match slot.take() {
                None => (StepOutcome::Failed(String::from_str("exchange already finished")), Ghost((false, false))),
                Some(examine) => {
                    self.stream.leave_greeting();
                    let (back, step) = examine_resume(examine, &mut self.stream, input);
                    *slot = back;
                    let outcome = match step {
                        SubStep::WantsRead => StepOutcome::WantsRead,
                        SubStep::WantsWrite(bytes) => StepOutcome::WantsWrite(bytes),
                        SubStep::Complete(status) => StepOutcome::Examined(status),
                        SubStep::Failed(err) => StepOutcome::Failed(err),
                    };
                    (outcome, Ghost((false, false)))
                },
            },
            Phase::Idle(slot) => match slot.take() {
                None => (StepOutcome::Failed(String::from_str("exchange already finished")), Ghost((false, false))),
                Some(idle) => {
                    let mut idle = idle;
                    let seen = flag_is_set(&self.shutdown);
                    proof {
                        lemma_loaded(&self.shutdown, seen);
                    }
                    if seen {
                        request_wind_down(&mut idle.done);
                    }
                    self.stream.leave_greeting();
                    let (back, step) = idle_resume(idle, &mut self.stream, input);
                    let ghost winding = self.stream.last_winding();
                    *slot = back;
                    let outcome = match step {
                        IdleStep::WantsRead => StepOutcome::WantsRead,
                        IdleStep::WantsWrite(bytes) => StepOutcome::WantsWrite(bytes),
                        IdleStep::Event => StepOutcome::Event,
                        IdleStep::Complete => {
                            let shutdown = flag_is_set(&self.shutdown);
                            proof {
                                lemma_loaded(&self.shutdown, shutdown);
                            }
                            StepOutcome::IdleEnded { shutdown }
                        },
                        IdleStep::Failed(err) => StepOutcome::Failed(err),
                    };
                    (outcome, Ghost((seen, winding)))
                },
            },
            Phase::Failed(_) => (StepOutcome::Halted, Ghost((false, false))),
            Phase::Ended => (StepOutcome::Halted, Ghost((false, false))),
        }
    }

    /// Acts on one answer of the current phase's coroutine: moves to the next
    /// phase, records the state token, and says what the driver must do, if
    /// anything yet.
    pub fn advance(&mut self, outcome: StepOutcome) -> (progress: Option<CarillonImapWatchProgress>)
        requires
            old(self).wf(),
            outcome_fits(old(self).phase(), outcome),
        ensures
            final(self).wf(),
            Self::advance_post(*old(self), outcome, *final(self), progress),
            final(self).fed() == old(self).fed(),
            final(self).answer() == old(self).answer(),
            (outcome is WantsRead || outcome is WantsWrite || outcome is Event) ==> final(self).ready()
                == old(self).ready(),
            !(outcome is WantsRead || outcome is WantsWrite || outcome is Event) ==> final(self).ready(),
    {
        match outcome {
            StepOutcome::WantsRead => Some(CarillonImapWatchProgress::WantsRead),
            StepOutcome::WantsWrite(bytes) => Some(CarillonImapWatchProgress::WantsWrite(bytes)),
            StepOutcome::Failed(err) => {
                let context = failure_context_str(self.current_phase());
                self.phase = Phase::Ended;
                Some(done_err(context, err))
            },
            StepOutcome::Greeted => match self.build_auth() {
                Ok(auth) => {
                    self.phase = Phase::Auth(auth);
                    None
                },
                Err(err) => {
                    self.phase = Phase::Ended;
                    Some(CarillonImapWatchProgress::Done(Err(err)))
                },
            },
            StepOutcome::Authenticated(caps) => self.after_auth(caps),
            StepOutcome::Examined(status) => {
                let seeding = self.current_phase() == WatchPhase::ExamineSeed;
                let next = state_token(&status, self.condstore);
                let changed = match &self.state {
                    Some(prev) => !prev.eq(&next),
                    None => true,
                };
                self.state = Some(next.clone());
                self.phase = Phase::Idle(Some(idle_new()));
                if !seeding && changed {
                    Some(CarillonImapWatchProgress::Changed(next))
                } else {
                    None
                }
            },
            StepOutcome::Event => {
                match &mut self.phase {
                    Phase::Idle(Some(idle)) => request_wind_down(&mut idle.done),
                    _ => {},
                }
                None
            },
            StepOutcome::IdleEnded { shutdown } => {
                if shutdown {
                    self.phase = Phase::Ended;
                    Some(CarillonImapWatchProgress::Done(Ok(())))
                } else {
                    let examine = self.build_examine();
                    self.phase = Phase::ExamineDiff(Some(examine));
                    None
                }
            },
            StepOutcome::Halted => {
                let message = match &self.phase {
                    Phase::Failed(message) => Some(message.clone()),
                    _ => None,
                };
                self.phase = Phase::Ended;
                match message {
                    Some(message) => Some(imap_failure(message)),
                    None => Some(CarillonImapWatchProgress::Done(Ok(()))),
                }
            },
        }
    }

    /// Post-authentication: requires IDLE, records CONDSTORE support, and
    /// moves to the seeding EXAMINE.
    fn after_auth(&mut self, caps: Vec<CapabilityKind>) -> (progress: Option<CarillonImapWatchProgress>)
        requires
            old(self).phase() == WatchPhase::AuthLogin || old(self).phase() == WatchPhase::AuthOauth,
            old(self).wf(),
        ensures
            final(self).wf(),
            Self::advance_post(*old(self), StepOutcome::Authenticated(caps), *final(self), progress),
            final(self).fed() == old(self).fed(),
            final(self).answer() == old(self).answer(),
            final(self).ready(),
    {
        if !has_capability(&caps, CapabilityKind::Idle) {
            self.phase = Phase::Ended;
            return Some(imap_failure(String::from_str("server does not advertise IDLE; cannot watch")));
        }
        self.condstore = has_capability(&caps, CapabilityKind::CondStore) || has_capability(
            &caps,
            CapabilityKind::QResync,
        );
        let examine = self.build_examine();
        self.phase = Phase::ExamineSeed(Some(examine));
        None
    }

    /// Builds the authentication sub-coroutine for the resolved credential:
    /// LOGIN with the configured login and the password, exactly when both
    /// are IMAP astrings (else the credentials error), or OAUTHBEARER with the
    /// configured login, host, port and the token.
    fn build_auth(&self) -> (auth: Result<Auth, CarillonWatchError>)
        ensures
            self.uses_bearer() ==> (auth matches Ok(Auth::Oauth(Some(exchange))) && authenticates_as(
                exchange.request,
                self.login(),
                self.host(),
                self.port(),
                self.secret(),
            )),
            !self.uses_bearer() ==> (auth is Ok <==> !coroutines::has_nul(self.login())
                && !coroutines::has_nul(self.secret())),
            !self.uses_bearer() ==> (auth matches Ok(a) ==> (a matches Auth::Login(Some(exchange)) && logs_in_as(
                exchange.request,
                self.login(),
                self.secret(),
            ))),
            auth matches Err(e) ==> is_credentials_failure(CarillonImapWatchProgress::Done(Err(e))),
    {
        match &self.credential {
            CarillonCredential::Password(password) => {
                let text = password.expose();
                let request = LoginRequest {
                    user: self.imap.login.clone(),
                    ensure_capabilities: true,
                    identify: false,
                    password: Ghost(text@),
                };
                match login_new(request, text) {
                    Ok(login) => Ok(Auth::Login(Some(login))),
                    Err(err) => {
                        let message = contextual("invalid IMAP credentials", err);
                        proof {
                            assert(("invalid IMAP credentials"@ + ": "@ + err@).subrange(
                                0,
                                "invalid IMAP credentials: "@.len() as int,
                            ) =~= "invalid IMAP credentials"@ + ": "@) by {
                                reveal_strlit("invalid IMAP credentials");
                                reveal_strlit(": ");
                                reveal_strlit("invalid IMAP credentials: ");
                            }
                            assert("invalid IMAP credentials"@ + ": "@ =~= "invalid IMAP credentials: "@) by {
                                reveal_strlit("invalid IMAP credentials");
                                reveal_strlit(": ");
                                reveal_strlit("invalid IMAP credentials: ");
                            }
                        }
                        Err(CarillonWatchError::Imap(message))
                    },
                }
            },
            CarillonCredential::Bearer(token) => {
                let text = token.expose();
                let request = OauthRequest {
                    user: self.imap.login.clone(),
                    host: self.imap.host.clone(),
                    port: self.imap.port,
                    initial_request: true,
                    ensure_capabilities: true,
                    identify: false,
                    token: Ghost(text@),
                };
                Ok(Auth::Oauth(Some(oauthbearer_new(request, text))))
            },
        }
    }

    /// Builds a read-only EXAMINE of the watched mailbox, requesting
    /// CONDSTORE when the server advertised it so the state token can track
    /// HIGHESTMODSEQ.
    fn build_examine(&self) -> (examine: Exchange<ImapMailboxExamine, ExamineRequest>)
        ensures
            examines(examine.request, self.examined_mailbox(), self.condstore()),
    {
        examine_new(&self.mailbox, examine_parameters(self.condstore))
    }

}

/// Whether a resume of `pre` with `input` is refused at the greeting: the
/// greeting is still being read and the input could close a literal
/// announcement, which a greeting never carries.
pub open spec fn refuses_greeting(pre: CarillonImapWatch, input: Option<Seq<u8>>) -> bool {
    pre.phase() == WatchPhase::Greeting && (input matches Some(bytes)
        && coroutines::closes_literal_announcement(bytes))
}

/// What one step recorded of the shutdown flag: whether a shutdown was seen
/// before resuming an IDLE, and whether that IDLE was resumed with its
/// wind-down requested.
pub type StepFeed = (bool, bool);

/// Whether a step's record holds that a shutdown seen asked the IDLE to wind
/// down before resuming it.
pub open spec fn fed_as(feed: StepFeed) -> bool {
    feed.0 ==> feed.1
}

/// Whether an IDLE that ended was decided on a load of `flag` made once it
/// ended.
pub open spec fn ends_on_load(flag: &Arc<AtomicBool>, outcome: StepOutcome) -> bool {
    outcome matches StepOutcome::IdleEnded { shutdown } ==> loaded(flag, shutdown)
}

/// Whether a step from `pre` given `input` resumes the phase's coroutine: the
/// phase is one in which a coroutine runs, it holds that coroutine, and the
/// greeting does not refuse the input.
pub open spec fn resumes(pre: CarillonImapWatch, input: Option<Seq<u8>>) -> bool {
    is_active(pre.phase()) && pre.ready() && !refuses_greeting(pre, input)
}

/// Whether a step's answer is the answer its coroutine gave, as logged.
pub open spec fn outcome_answers(outcome: StepOutcome, answer: Answer) -> bool {
    match outcome {
        StepOutcome::WantsRead => answer is WantsRead,
        StepOutcome::WantsWrite(bytes) => answer matches Answer::WantsWrite(b) && b@ == bytes@,
        StepOutcome::Event => answer is Event,
        StepOutcome::Failed(detail) => answer matches Answer::Failed(d) && d@ == detail@,
        StepOutcome::Examined(status) => answer == Answer::Examined(status),
        StepOutcome::Greeted => answer is Done,
        StepOutcome::Authenticated(kinds) => answer matches Answer::Authenticated(caps) && classifies(caps@, kinds@),
        StepOutcome::IdleEnded { .. } => answer is Done,
        StepOutcome::Halted => false,
    }
}

/// Whether the log `fed` is `before` followed by `input` and then `count - 1`
/// inputs of nothing: what `count` coroutine resumes of one resume hand over.
pub open spec fn fed_since(before: Seq<Option<Seq<u8>>>, input: Option<Seq<u8>>, fed: Seq<Option<Seq<u8>>>, count: nat) -> bool {
    &&& fed.len() == before.len() + count
    &&& fed.subrange(0, before.len() as int) == before
    &&& count > 0 ==> fed[before.len() as int] == input
    &&& forall|k: int| before.len() < k < fed.len() ==> #[trigger] fed[k] is None
}

/// The detail of the refusal of a greeting that could announce a literal.
pub open spec fn literal_refusal() -> Seq<char> {
    "greeting announces a literal"@
}

/// Whether two watches agree on everything one step of
/// [`advance`](CarillonImapWatch::advance) reads or states.
pub open spec fn agrees(a: CarillonImapWatch, b: CarillonImapWatch) -> bool {
    &&& a.phase() == b.phase()
    &&& a.condstore() == b.condstore()
    &&& a.seen() == b.seen()
    &&& a.failure() == b.failure()
    &&& a.same_source(&b)
}

/// Whether the four sequences are a run of the watch: step `i` starts from
/// `befores[i]`, answers `outcomes[i]` (an answer its phase can give) and
/// moves as [`advance`](CarillonImapWatch::advance) does to `afters[i]`,
/// reporting `progresses[i]`; each step starts where the last one ended,
/// up to the coroutine it holds.
pub open spec fn is_run(
    befores: Seq<CarillonImapWatch>,
    outcomes: Seq<StepOutcome>,
    afters: Seq<CarillonImapWatch>,
    progresses: Seq<Option<CarillonImapWatchProgress>>,
) -> bool {
    &&& befores.len() == outcomes.len()
    &&& afters.len() == outcomes.len()
    &&& progresses.len() == outcomes.len()
    &&& forall|i: int| 0 <= i < outcomes.len() ==> #[trigger] steps(befores[i], outcomes[i], afters[i], progresses[i])
    &&& forall|i: int| 0 <= i < outcomes.len() - 1 ==> agrees(#[trigger] afters[i], befores[i + 1])
}

/// Whether one step of the watch from `before`, answering `outcome` (an
/// answer its phase can give), moves as [`advance`](CarillonImapWatch::advance)
/// does to `after`, reporting `progress`.
pub open spec fn steps(
    before: CarillonImapWatch,
    outcome: StepOutcome,
    after: CarillonImapWatch,
    progress: Option<CarillonImapWatchProgress>,
) -> bool {
    &&& before.wf()
    &&& outcome_fits(before.phase(), outcome)
    &&& CarillonImapWatch::advance_post(before, outcome, after, progress)
}

/// Whether one resume from `pre` given `input` to `post` that answered
/// `progress` was the run given: it took at least one step, a shutdown seen
/// in IDLE asked it to wind down, what a step in IDLE saw of a shutdown
/// before resuming it and what an IDLE end was decided on were loads of the
/// watch's flag, the last step answered what the last
/// coroutine resumed answered, every step but the last reported nothing, and
/// either the last step reported `progress`, or the run took
/// [`RESUME_STEP_BOUND`] steps without a report and the watch gave up.
pub open spec fn resume_ran(
    pre: CarillonImapWatch,
    input: Option<Seq<u8>>,
    post: CarillonImapWatch,
    progress: CarillonImapWatchProgress,
    befores: Seq<CarillonImapWatch>,
    outcomes: Seq<StepOutcome>,
    afters: Seq<CarillonImapWatch>,
    progresses: Seq<Option<CarillonImapWatchProgress>>,
    feeds: Seq<StepFeed>,
) -> bool {
    let n = outcomes.len();
    &&& is_run(befores, outcomes, afters, progresses)
    &&& feeds.len() == n
    &&& forall|i: int| 0 <= i < n ==> fed_as(#[trigger] feeds[i])
    &&& forall|i: int| 0 <= i < n ==> ends_on_load(&pre.shutdown_flag(), #[trigger] outcomes[i])
    &&& forall|i: int| 0 <= i < n && befores[i].phase() == WatchPhase::Idle ==> loaded(
        &pre.shutdown_flag(),
        (#[trigger] feeds[i]).0,
    )
    &&& post.fed().len() > pre.fed().len() ==> (post.answer() matches Some(a) && outcome_answers(
        outcomes[n - 1],
        a,
    ))
    &&& n > 0
    &&& agrees(pre, befores[0])
    &&& forall|i: int| 0 <= i < n - 1 ==> #[trigger] progresses[i] is None
    &&& {
        ||| progresses[n - 1] == Some(progress) && post == afters[n - 1]
        ||| {
            &&& n == RESUME_STEP_BOUND
            &&& progresses[n - 1] is None
            &&& is_imap_failure(progress, "watch made no progress"@)
            &&& post.phase() == WatchPhase::Ended
            &&& post.condstore() == afters[n - 1].condstore()
            &&& post.seen() == afters[n - 1].seen()
            &&& post.same_source(&afters[n - 1])
        }
    }
}

/// After an IDLE wake, the watch rings exactly when the mailbox state moved
/// (its UIDVALIDITY or its tracked sequence number) since the last EXAMINE,
/// and then remembers the new token.
pub proof fn law_watch_rings_iff_state_moved(
    pre: CarillonImapWatch,
    prev: MailboxStatus,
    next: MailboxStatus,
    post: CarillonImapWatch,
    progress: Option<CarillonImapWatchProgress>,
)
    requires
        pre.phase() == WatchPhase::ExamineDiff,
        pre.seen() == Some(state::status_token(prev, pre.condstore())),
        CarillonImapWatch::advance_post(pre, StepOutcome::Examined(next), post, progress),
    ensures
        progress is Some <==> (state::token_validity(prev) != state::token_validity(next) || state::token_seq(
            prev,
            pre.condstore(),
        ) != state::token_seq(next, pre.condstore())),
        post.seen() == Some(state::status_token(next, pre.condstore())),
        post.phase() == WatchPhase::Idle,
{
    state::law_token_moves_iff_state_moves(prev, next, pre.condstore());
}

/// Whether step `i` of a run completed the seeding EXAMINE.
pub open spec fn seeds_at(befores: Seq<CarillonImapWatch>, outcomes: Seq<StepOutcome>, i: int) -> bool {
    befores[i].phase() == WatchPhase::ExamineSeed && outcomes[i] is Examined
}

/// Whether step `j` of a run ended an IDLE without a shutdown.
pub open spec fn wakes_at(befores: Seq<CarillonImapWatch>, outcomes: Seq<StepOutcome>, j: int) -> bool {
    befores[j].phase() == WatchPhase::Idle && outcomes[j] matches StepOutcome::IdleEnded { shutdown: false }
}

/// In a run from a watch that knows no state yet, a known state means the
/// seeding EXAMINE completed earlier, and a re-EXAMINE means an IDLE ended
/// after that.
proof fn lemma_baseline_first(
    befores: Seq<CarillonImapWatch>,
    outcomes: Seq<StepOutcome>,
    afters: Seq<CarillonImapWatch>,
    progresses: Seq<Option<CarillonImapWatchProgress>>,
    m: int,
)
    requires
        is_run(befores, outcomes, afters, progresses),
        outcomes.len() > 0,
        befores[0].seen() is None,
        0 <= m < outcomes.len(),
    ensures
        befores[m].seen() is Some ==> exists|i: int| 0 <= i < m && #[trigger] seeds_at(befores, outcomes, i),
        befores[m].phase() == WatchPhase::ExamineDiff ==> exists|i: int, j: int|
            #![trigger seeds_at(befores, outcomes, i), wakes_at(befores, outcomes, j)]
            0 <= i < j < m && seeds_at(befores, outcomes, i) && wakes_at(befores, outcomes, j),
    decreases m,
{
    assert(steps(befores[m], outcomes[m], afters[m], progresses[m]));
    if m > 0 {
        let p = m - 1;
        lemma_baseline_first(befores, outcomes, afters, progresses, p);
        assert(steps(befores[p], outcomes[p], afters[p], progresses[p]));
        assert(agrees(afters[p], befores[m]));
        if befores[m].seen() is Some {
            if befores[p].seen() is None {
                assert(seeds_at(befores, outcomes, p));
            } else {
                let i = choose|i: int| 0 <= i < p && #[trigger] seeds_at(befores, outcomes, i);
                assert(seeds_at(befores, outcomes, i));
            }
        }
        if befores[m].phase() == WatchPhase::ExamineDiff {
            if befores[p].phase() == WatchPhase::ExamineDiff {
                let (i, j) = choose|i: int, j: int|
                    #![trigger seeds_at(befores, outcomes, i), wakes_at(befores, outcomes, j)]
                    0 <= i < j < p && seeds_at(befores, outcomes, i) && wakes_at(befores, outcomes, j);
                assert(seeds_at(befores, outcomes, i) && wakes_at(befores, outcomes, j));
            } else {
                assert(wakes_at(befores, outcomes, p));
                let i = choose|i: int| 0 <= i < p && #[trigger] seeds_at(befores, outcomes, i);
                assert(seeds_at(befores, outcomes, i) && wakes_at(befores, outcomes, p));
            }
        }
    }
}

/// A watch never rings for its baseline: in any run from a watch that knows
/// no state yet (as [`CarillonImapWatch::new`] makes it), a `Changed` comes
/// only from a re-EXAMINE, after the seeding EXAMINE completed and an IDLE
/// then ended without a shutdown.
pub proof fn law_no_ring_before_baseline(
    befores: Seq<CarillonImapWatch>,
    outcomes: Seq<StepOutcome>,
    afters: Seq<CarillonImapWatch>,
    progresses: Seq<Option<CarillonImapWatchProgress>>,
    k: int,
)
    requires
        is_run(befores, outcomes, afters, progresses),
        befores.len() > 0,
        befores[0].seen() is None,
        0 <= k < outcomes.len(),
        progresses[k] matches Some(CarillonImapWatchProgress::Changed(_)),
    ensures
        befores[k].phase() == WatchPhase::ExamineDiff,
        outcomes[k] is Examined,
        exists|i: int, j: int|
            #![trigger seeds_at(befores, outcomes, i), wakes_at(befores, outcomes, j)]
            0 <= i < j < k && seeds_at(befores, outcomes, i) && wakes_at(befores, outcomes, j),
{
    assert(steps(befores[k], outcomes[k], afters[k], progresses[k]));
    lemma_baseline_first(befores, outcomes, afters, progresses, k);
}

/// Runs chain: a run of one resume followed by a run of the next resume,
/// from where the first ended, is one run; so the law above holds across any
/// number of resumes of one watch.
pub proof fn law_runs_chain(
    pre: CarillonImapWatch,
    first_input: Option<Seq<u8>>,
    mid: CarillonImapWatch,
    second_input: Option<Seq<u8>>,
    post: CarillonImapWatch,
    first: CarillonImapWatchProgress,
    second: CarillonImapWatchProgress,
    b1: Seq<CarillonImapWatch>,
    o1: Seq<StepOutcome>,
    a1: Seq<CarillonImapWatch>,
    p1: Seq<Option<CarillonImapWatchProgress>>,
    f1: Seq<StepFeed>,
    b2: Seq<CarillonImapWatch>,
    o2: Seq<StepOutcome>,
    a2: Seq<CarillonImapWatch>,
    p2: Seq<Option<CarillonImapWatchProgress>>,
    f2: Seq<StepFeed>,
)
    requires
        resume_ran(pre, first_input, mid, first, b1, o1, a1, p1, f1),
        resume_ran(mid, second_input, post, second, b2, o2, a2, p2, f2),
        mid == a1.last(),
    ensures
        is_run(b1 + b2, o1 + o2, a1 + a2, p1 + p2),
{
    let (b, o, a, p) = (b1 + b2, o1 + o2, a1 + a2, p1 + p2);
    assert forall|i: int| 0 <= i < o.len() implies #[trigger] steps(b[i], o[i], a[i], p[i]) by {
        if i < o1.len() {
            assert(steps(b1[i], o1[i], a1[i], p1[i]));
        } else {
            let k = i - o1.len();
            assert(steps(b2[k], o2[k], a2[k], p2[k]));
        }
    }
    assert forall|i: int| 0 <= i < o.len() - 1 implies agrees(#[trigger] a[i], b[i + 1]) by {
        if i < o1.len() - 1 {
            assert(agrees(a1[i], b1[i + 1]));
        } else if i == o1.len() - 1 {
            assert(a[i] == mid);
            assert(b[i + 1] == b2[0]);
        } else {
            let k = i - o1.len();
            assert(agrees(a2[k], b2[k + 1]));
        }
    }
}

/// The initial EXAMINE never rings: it only records the baseline token.
pub proof fn law_seed_never_rings(
    pre: CarillonImapWatch,
    status: MailboxStatus,
    post: CarillonImapWatch,
    progress: Option<CarillonImapWatchProgress>,
)
    requires
        pre.phase() == WatchPhase::ExamineSeed,
        CarillonImapWatch::advance_post(pre, StepOutcome::Examined(status), post, progress),
    ensures
        progress is None,
        post.seen() == Some(state::status_token(status, pre.condstore())),
{
}

/// A watch that has ended stays ended: every further resume answers a clean
/// end and changes nothing observable.
pub proof fn law_ended_stays_ended(
    pre: CarillonImapWatch,
    input: Option<Seq<u8>>,
    post: CarillonImapWatch,
    progress: CarillonImapWatchProgress,
)
    requires
        pre.phase() == WatchPhase::Ended,
        CarillonImapWatch::resume_post(pre, input, post, progress),
    ensures
        post.phase() == WatchPhase::Ended,
        is_clean_end(progress),
{
}

/// The shutdown the watch acts on when its IDLE ends is the flag as loaded
/// then: every IDLE end in a resume was decided on a load of the watch's flag
/// made once the IDLE ended, and one that saw the flag set ends the watch
/// cleanly.
pub proof fn law_idle_end_follows_flag(
    pre: CarillonImapWatch,
    input: Option<Seq<u8>>,
    post: CarillonImapWatch,
    progress: CarillonImapWatchProgress,
    befores: Seq<CarillonImapWatch>,
    outcomes: Seq<StepOutcome>,
    afters: Seq<CarillonImapWatch>,
    progresses: Seq<Option<CarillonImapWatchProgress>>,
    feeds: Seq<StepFeed>,
    i: int,
    shutdown: bool,
)
    requires
        resume_ran(pre, input, post, progress, befores, outcomes, afters, progresses, feeds),
        0 <= i < outcomes.len(),
        outcomes[i] == (StepOutcome::IdleEnded { shutdown }),
    ensures
        loaded(&pre.shutdown_flag(), shutdown),
        shutdown ==> afters[i].phase() == WatchPhase::Ended && (progresses[i] matches Some(p) && is_clean_end(p)),
{
    assert(ends_on_load(&pre.shutdown_flag(), outcomes[i]));
    assert(steps(befores[i], outcomes[i], afters[i], progresses[i]));
}

/// After authentication the watch goes on to the seeding EXAMINE exactly when
/// some capability of the server's list, wherever it stands in the list, is
/// IDLE, and refuses the server (without IDLE it cannot watch) exactly when
/// none is; it tracks HIGHESTMODSEQ exactly when some capability is
/// CONDSTORE or QRESYNC.
pub proof fn law_watch_needs_idle(
    pre: CarillonImapWatch,
    caps: Seq<Capability<'static>>,
    kinds: Vec<CapabilityKind>,
    post: CarillonImapWatch,
    progress: Option<CarillonImapWatchProgress>,
)
    requires
        classifies(caps, kinds@),
        CarillonImapWatch::advance_post(pre, StepOutcome::Authenticated(kinds), post, progress),
    ensures
        forall|i: int| 0 <= i < caps.len() ==> kind_of(caps[i], #[trigger] kinds@[i]),
        post.phase() == WatchPhase::ExamineSeed <==> exists|i: int|
            0 <= i < caps.len() && #[trigger] kinds@[i] == CapabilityKind::Idle,
        (progress matches Some(p) && is_imap_failure(p, no_idle_message())) <==> forall|i: int|
            0 <= i < caps.len() ==> #[trigger] kinds@[i] != CapabilityKind::Idle,
        post.phase() == WatchPhase::ExamineSeed ==> (post.condstore() <==> exists|i: int|
            0 <= i < caps.len() && (#[trigger] kinds@[i] == CapabilityKind::CondStore || kinds@[i]
                == CapabilityKind::QResync)),
{
    if exists|i: int| 0 <= i < caps.len() && #[trigger] kinds@[i] == CapabilityKind::Idle {
        let i = choose|i: int| 0 <= i < caps.len() && #[trigger] kinds@[i] == CapabilityKind::Idle;
        assert(kinds@.contains(kinds@[i]));
    } else {
        assert(!kinds@.contains(CapabilityKind::Idle));
    }
    assert(tracks_mod_seq(kinds@) <==> exists|i: int|
        0 <= i < caps.len() && (#[trigger] kinds@[i] == CapabilityKind::CondStore || kinds@[i]
            == CapabilityKind::QResync));
}

/// The LOGIN exchange the watch builds for a password credential asks the
/// server for its capabilities when the LOGIN reply volunteers none (its
/// `ensure_capabilities` option is set), sends no ID, and carries the
/// backend's login and the password.
pub proof fn law_login_asks_capabilities(
    pre: CarillonImapWatch,
    post: CarillonImapWatch,
    progress: Option<CarillonImapWatchProgress>,
)
    requires
        !pre.uses_bearer(),
        !coroutines::has_nul(pre.login()),
        !coroutines::has_nul(pre.secret()),
        CarillonImapWatch::advance_post(pre, StepOutcome::Greeted, post, progress),
    ensures
        post.phase() == WatchPhase::AuthLogin,
        progress is None,
        post.login_request() matches Some(r) && r.ensure_capabilities && !r.identify && r.user@ == pre.login()
            && r.password@ == pre.secret(),
{
}

/// The OAUTHBEARER exchange the watch builds for a bearer credential asks the
/// server for its capabilities when the authentication reply volunteers none
/// (its `ensure_capabilities` option is set), sends the initial response with
/// the command, sends no ID, and carries the login, host, port and token.
pub proof fn law_oauth_asks_capabilities(
    pre: CarillonImapWatch,
    post: CarillonImapWatch,
    progress: Option<CarillonImapWatchProgress>,
)
    requires
        pre.uses_bearer(),
        CarillonImapWatch::advance_post(pre, StepOutcome::Greeted, post, progress),
    ensures
        post.phase() == WatchPhase::AuthOauth,
        progress is None,
        post.oauth_request() matches Some(r) && r.ensure_capabilities && r.initial_request && !r.identify
            && r.user@ == pre.login() && r.host@ == pre.host() && r.port == pre.port() && r.token@
            == pre.secret(),
{
}

/// The EXAMINE parameters for a server with or without CONDSTORE support.
pub fn examine_parameters(condstore: bool) -> (parameters: Vec<ExamineParameter>)
    ensures
        parameters@ == examine_parameters_for(condstore),
{
    let mut parameters: Vec<ExamineParameter> = Vec::new();
    if condstore {
        parameters.push(ExamineParameter::CondStore);
    }
    parameters
}

/// Whether the bytes before `end` could be the inside of a literal
/// announcement: scans back over an optional `+` and then digits, and looks
/// for the `{` (or the chunk's start) before them.
fn opens_announcement(bytes: &[u8], end: usize) -> (found: bool)
    requires
        end <= bytes.len(),
    ensures
        found == coroutines::announcement_inside(bytes@, end as int),
{
    let ghost e = end as int;
    let mut j: usize = end;
    if j > 0 && bytes[j - 1] == 43u8 {
        j = j - 1;
    }
    while j > 0 && 48u8 <= bytes[j - 1] && bytes[j - 1] <= 57u8
        invariant
            j <= end <= bytes.len(),
            forall|k: int| j <= k < e ==> #[trigger] coroutines::announcement_byte(bytes@, k, e),
            j < end ==> bytes@[e - 1] != 43u8 || j <= end - 1,
            (j == end && end > 0) ==> bytes@[e - 1] != 43u8,
        decreases j,
    {
        j = j - 1;
    }
    let found = j == 0 || (bytes[j - 1] == 123u8 && j < end && 48u8 <= bytes[j] && bytes[j] <= 57u8);
    proof {
        if found {
            assert(coroutines::opens_at(bytes@, j as int, e));
        } else {
            assert forall|start: int| !coroutines::opens_at(bytes@, start, e) by {
                if 0 <= start <= e {
                    if start <= j - 1 {
                        if coroutines::opens_at(bytes@, start, e) {
                            assert(coroutines::announcement_byte(bytes@, j - 1, e));
                        }
                    } else {
                        assert(start >= j);
                        if start > j {
                            assert(coroutines::announcement_byte(bytes@, start - 1, e));
                        }
                    }
                }
            }
        }
    }
    found
}

/// Whether a chunk of server bytes could close a literal announcement: a `}`
/// that ends the chunk or stands right before a CR or an LF, after what could
/// be the inside of a `{n}` or `{n+}`.
pub fn may_close_literal(bytes: &[u8]) -> (found: bool)
    ensures
        found == coroutines::closes_literal_announcement(bytes@),
{
    let mut i: usize = 0;
    while i < bytes.len()
        invariant
            i <= bytes.len(),
            forall|j: int| 0 <= j < i ==> !#[trigger] coroutines::closes_at(bytes@, j),
        decreases bytes.len() - i,
    {
        if bytes[i] == 125u8 && (i + 1 == bytes.len() || bytes[i + 1] == 13u8 || bytes[i + 1] == 10u8) {
            if opens_announcement(bytes, i) {
                assert(coroutines::closes_at(bytes@, i as int));
                return true;
            }
        }
        assert(!coroutines::closes_at(bytes@, i as int));
        i = i + 1;
    }
    false
}

/// The step named in the message of a failure in each phase.
fn failure_context_str(phase: WatchPhase) -> (context: &'static str)
    ensures
        context@ == failure_context(phase),
{
    match phase {
        WatchPhase::Greeting => "greeting",
        WatchPhase::AuthLogin => "login",
        WatchPhase::AuthOauth => "oauthbearer",
        WatchPhase::ExamineSeed => "examine",
        WatchPhase::ExamineDiff => "examine",
        WatchPhase::Idle => "idle",
        _ => {
            proof {
                reveal_strlit("");
            }
            ""
        },
    }
}

/// `context: detail`.
pub fn contextual(context: &str, detail: String) -> (message: String)
    ensures
        message@ == contextual_message(context@, detail@),
{
    let mut message = String::from_str(context);
    message.append(": ");
    message.append(detail.as_str());
    message
}

/// Ends the watch with a contextual IMAP error: `context: err`.
pub fn done_err(context: &str, err: String) -> (progress: CarillonImapWatchProgress)
    ensures
        is_imap_failure(progress, contextual_message(context@, err@)),
{
    CarillonImapWatchProgress::Done(Err(CarillonWatchError::Imap(contextual(context, err))))
}

/// Ends the watch with an IMAP error carrying `message`.
fn imap_failure(message: String) -> (progress: CarillonImapWatchProgress)
    ensures
        is_imap_failure(progress, message@),
{
    CarillonImapWatchProgress::Done(Err(CarillonWatchError::Imap(message)))
}

/// Whether a capability list contains a capability.
fn has_capability(caps: &Vec<CapabilityKind>, wanted: CapabilityKind) -> (found: bool)
    ensures
        found == advertises(caps@, wanted),
{
    let mut i: usize = 0;
    while i < caps.len()
        invariant
            i <= caps.len(),
            forall|j: int| 0 <= j < i ==> caps@[j] != wanted,
        decreases caps.len() - i,
    {
        if caps[i] == wanted {
            assert(caps@[i as int] == wanted);
            return true;
        }
        i = i + 1;
    }
    false
}

} // verus!
