//! Deciding one IDLE round for a driver that owns the stream.
//!
//! io-imap coroutines are I/O-free: they yield reads and writes and let the
//! caller own the socket. A driver (async or blocking) runs one IDLE round by
//! asking [`ImapIdleRound::resume`] what to do, doing it, and reporting what a
//! read gave through [`ImapIdleRound::on_read`]. The round waits for untagged
//! server data (or the periodic refresh timeout), then ends IDLE cleanly; a
//! set shutdown flag winds it down cleanly (sending DONE) before it ends.

use std::sync::atomic::AtomicBool;
use std::sync::Arc;

use io_imap::codec::fragmentizer::Fragmentizer;
use vstd::prelude::*;

use crate::imap::contextual;
use crate::imap::coroutines::{
    bytes_view, flag_is_set, idle_answer, idle_new, idle_resume, lemma_loaded, loaded, request_wind_down,
    wind_down_requested, Answer, IdleExchange, IdleStep, ImapStream,
};
use crate::imap::fed_since;

verus! {

/// Drop and reconnect an idle connection after this many seconds with no
/// server traffic, well under the RFC 2177 cap on an IDLE.
pub const IDLE_REFRESH_SECS: u64 = 900;

/// Per-read scratch buffer size, in bytes. IDLE never fetches bodies.
pub const READ_BUF: usize = 8192;

/// Most internal transitions one resume makes before it gives up. Only an
/// IDLE event asks nothing of the driver, and it asks the IDLE to wind down,
/// after which the IDLE writes DONE; io-imap takes a whole read into one
/// event. The bound only turns an IDLE that never asks for I/O into an error
/// instead of a hang.
pub const ROUND_STEP_BOUND: u32 = 64;

/// A single IDLE round's outcome.
#[derive(Clone, Copy, Debug, PartialEq, Eq, Structural)]
pub enum IdleOutcome {
    /// The server sent untagged data: something changed, go read the state.
    Data,
    /// The periodic refresh timer fired with no data: reconnect.
    Refresh,
    /// Shutdown was requested.
    Shutdown,
}

/// What the driver must do next in an IDLE round.
#[derive(Debug)]
pub enum IdleAction {
    /// Write these bytes to the stream, then resume with no input.
    Write(Vec<u8>),
    /// Read from the stream; with `refresh_timer`, give up after
    /// [`IDLE_REFRESH_SECS`] and report [`ReadResult::TimedOut`].
    Read { refresh_timer: bool },
    /// The round is over with this outcome.
    Finish(IdleOutcome),
    /// The round failed; the text says why.
    Fail(String),
}

/// What one read of the driver gave.
pub enum ReadResult {
    /// This many bytes (more than zero) arrived; resume with them.
    Received(usize),
    /// The peer closed the connection.
    Closed,
    /// The read failed; the text is the I/O error, displayed.
    Failed(String),
    /// The refresh timer fired before any byte arrived.
    TimedOut,
}

/// Whether the round has an event pending to report, and so is winding IDLE
/// down before it says [`IdleOutcome::Data`].
pub open spec fn spec_idle_decide(draining: bool, step: IdleStep, shutdown: bool) -> (bool, Option<IdleActionKind>) {
    match step {
        IdleStep::Event => if draining || !shutdown { (true, None) } else { (false, None) },
        IdleStep::WantsWrite(_) => (draining, Some(IdleActionKind::Write)),
        IdleStep::WantsRead => (draining, Some(IdleActionKind::Read { refresh_timer: !draining })),
        IdleStep::Complete => (draining, Some(IdleActionKind::Finish(
            if shutdown { IdleOutcome::Shutdown } else if draining { IdleOutcome::Data } else { IdleOutcome::Refresh },
        ))),
        IdleStep::Failed(_) => (draining, Some(IdleActionKind::Fail)),
    }
}

/// The kind of an [`IdleAction`], without its payload.
#[derive(Clone, Copy, Debug, PartialEq, Eq, Structural)]
pub enum IdleActionKind {
    Write,
    Read { refresh_timer: bool },
    Finish(IdleOutcome),
    Fail,
}

/// The kind of an action.
pub open spec fn action_kind(action: IdleAction) -> IdleActionKind {
    match action {
        IdleAction::Write(_) => IdleActionKind::Write,
        IdleAction::Read { refresh_timer } => IdleActionKind::Read { refresh_timer },
        IdleAction::Finish(outcome) => IdleActionKind::Finish(outcome),
        IdleAction::Fail(_) => IdleActionKind::Fail,
    }
}

/// Decides what one answer of the IDLE coroutine means for the round.
///
/// `draining` says whether untagged data was already seen (and IDLE is being
/// wound down to report it); `shutdown` whether a shutdown was requested by
/// the time of the answer. Returns whether the round is draining afterwards
/// and, when the round cannot continue on its own, what the driver must do.
pub fn idle_decide(draining: bool, step: IdleStep, shutdown: bool) -> (decision: (bool, Option<IdleAction>))
    ensures
        decision.0 == spec_idle_decide(draining, step, shutdown).0,
        match decision.1 {
            Some(action) => spec_idle_decide(draining, step, shutdown).1 == Some(action_kind(action)),
            None => spec_idle_decide(draining, step, shutdown).1 is None,
        },
        step matches IdleStep::WantsWrite(bytes) ==> (decision.1 matches Some(IdleAction::Write(b)) && b@ == bytes@),
        step matches IdleStep::Failed(err) ==> (decision.1 matches Some(IdleAction::Fail(e)) && e@ == err@),
{
    match step {
        IdleStep::Event => {
            if draining || !shutdown {
                (true, None)
            } else {
                (false, None)
            }
        },
        IdleStep::WantsWrite(bytes) => (draining, Some(IdleAction::Write(bytes))),
        IdleStep::WantsRead => (draining, Some(IdleAction::Read { refresh_timer: !draining })),
        IdleStep::Complete => {
            let outcome = if shutdown {
                IdleOutcome::Shutdown
            } else if draining {
                IdleOutcome::Data
            } else {
                IdleOutcome::Refresh
            };
            (draining, Some(IdleAction::Finish(outcome)))
        },
        IdleStep::Failed(err) => (draining, Some(IdleAction::Fail(err))),
    }
}

/// A requested shutdown never ends a round as [`IdleOutcome::Data`]: once the
/// flag is seen at the end, the round reports [`IdleOutcome::Shutdown`]; and
/// a round reports data only after it saw an event and wound IDLE down.
pub proof fn law_idle_outcomes(draining: bool, step: IdleStep, shutdown: bool)
    ensures
        spec_idle_decide(draining, step, shutdown).1 == Some(IdleActionKind::Finish(IdleOutcome::Data))
            ==> draining && !shutdown,
        shutdown ==> spec_idle_decide(draining, step, shutdown).1 != Some(
            IdleActionKind::Finish(IdleOutcome::Data),
        ),
        step is Complete && shutdown ==> spec_idle_decide(draining, step, shutdown).1 == Some(
            IdleActionKind::Finish(IdleOutcome::Shutdown),
        ),
{
}

/// The shutdown a round decides on is the flag as loaded after the IDLE
/// answered: when the IDLE completes, the round finishes as
/// [`IdleOutcome::Shutdown`] exactly when that load saw the flag set, whether
/// it was winding down to report data or not.
pub proof fn law_flag_at_completion_decides(
    draining: bool,
    after: bool,
    action: IdleAction,
    last: Option<Answer>,
    steps: Seq<IdleStep>,
    shutdowns: Seq<bool>,
    states: Seq<bool>,
    feeds: Seq<RoundFeed>,
    flag: &Arc<AtomicBool>,
)
    requires
        round_ran(draining, after, action, last, steps, shutdowns, states, feeds, flag),
        steps.last() is Complete,
    ensures
        loaded(flag, shutdowns.last()),
        shutdowns.last() ==> (action matches IdleAction::Finish(outcome) && outcome == IdleOutcome::Shutdown),
        !shutdowns.last() ==> (action matches IdleAction::Finish(outcome) && outcome != IdleOutcome::Shutdown),
{
    let n = steps.len() - 1;
    assert(spec_idle_decide(states[n], steps[n], shutdowns[n]).1 is Some);
}

/// The failure a round reports when the coroutine keeps answering without
/// asking for I/O for [`ROUND_STEP_BOUND`] steps.
pub open spec fn no_progress_message() -> Seq<char> {
    "IDLE made no progress"@
}

/// Whether step `i` of a round's run was decided from the state the last
/// step left: `states[i + 1]` is what [`idle_decide`] makes of `states[i]`,
/// the answer `steps[i]` and the flag read `shutdowns[i]`.
pub open spec fn decides(steps: Seq<IdleStep>, shutdowns: Seq<bool>, states: Seq<bool>, i: int) -> bool {
    states[i + 1] == spec_idle_decide(states[i], steps[i], shutdowns[i]).0
}

/// Whether the sequences are a run of round decisions from `draining`.
pub open spec fn idle_run(draining: bool, steps: Seq<IdleStep>, shutdowns: Seq<bool>, states: Seq<bool>) -> bool {
    &&& shutdowns.len() == steps.len()
    &&& states.len() == steps.len() + 1
    &&& states[0] == draining
    &&& forall|i: int| 0 <= i < steps.len() ==> #[trigger] decides(steps, shutdowns, states, i)
}

/// What one step of a round recorded of the wind-down: whether a shutdown
/// was seen before resuming the IDLE, whether it was resumed with its
/// wind-down requested, and whether, held afterwards, its wind-down is
/// requested.
pub type RoundFeed = (bool, bool, bool);

/// Whether a step's record fits its answer: a shutdown seen asked the IDLE
/// to wind down before resuming it, and untagged data asked it to wind down
/// afterwards.
pub open spec fn round_fed(feed: RoundFeed, step: IdleStep) -> bool {
    &&& feed.0 ==> feed.1
    &&& step is Event ==> feed.2
}

/// Whether `seen`, what a step saw of a shutdown before resuming the IDLE,
/// is a load of `flag` made then, as it is while the round is not winding
/// down; a round winding down looks no more.
pub open spec fn looked(flag: &Arc<AtomicBool>, draining: bool, seen: bool) -> bool {
    if draining {
        !seen
    } else {
        loaded(flag, seen)
    }
}

/// The logged answer when an IDLE was resumed, else nothing.
pub open spec fn answer_if(resumed: bool, logged: Option<Answer>) -> Option<Answer> {
    if resumed {
        logged
    } else {
        None
    }
}

/// Whether one resume of a round from `draining` to `after` that answered
/// `action` was the run given: it decided at least one answer, each on a load
/// of the shutdown `flag` made after the answer came and as the record says
/// of the wind-down; when the IDLE was resumed, what each step saw before
/// resuming it is as [`looked`] says; every answer but the last asked nothing
/// of the driver, the last answer is `last` (what the IDLE answered, as
/// logged, when one was resumed), and either the last one asked `action`, or
/// [`ROUND_STEP_BOUND`] answers asked nothing and the round gave up.
pub open spec fn round_ran(
    draining: bool,
    after: bool,
    action: IdleAction,
    last: Option<Answer>,
    steps: Seq<IdleStep>,
    shutdowns: Seq<bool>,
    states: Seq<bool>,
    feeds: Seq<RoundFeed>,
    flag: &Arc<AtomicBool>,
) -> bool {
    let n = steps.len() as int;
    &&& n > 0
    &&& idle_run(draining, steps, shutdowns, states)
    &&& forall|i: int| 0 <= i < n ==> loaded(flag, #[trigger] shutdowns[i])
    &&& last is Some ==> forall|i: int| 0 <= i < n ==> looked(flag, states[i], (#[trigger] feeds[i]).0)
    &&& feeds.len() == n
    &&& forall|i: int| 0 <= i < n ==> round_fed(#[trigger] feeds[i], steps[i])
    &&& last is Some ==> last == Some(idle_answer(steps[n - 1]))
    &&& after == states[n]
    &&& forall|i: int| 0 <= i < n - 1 ==> (#[trigger] spec_idle_decide(states[i], steps[i], shutdowns[i])).1 is None
    &&& {
        ||| spec_idle_decide(states[n - 1], steps[n - 1], shutdowns[n - 1]).1 == Some(action_kind(action))
        ||| {
            &&& n == ROUND_STEP_BOUND
            &&& spec_idle_decide(states[n - 1], steps[n - 1], shutdowns[n - 1]).1 is None
            &&& action matches IdleAction::Fail(m) && m@ == no_progress_message()
        }
    }
}

/// One IDLE round over a caller-owned stream.
pub struct ImapIdleRound {
    idle: Option<IdleExchange>,
    draining: bool,
}

impl ImapIdleRound {
    /// Whether untagged data was seen and IDLE is being wound down to report it.
    pub closed spec fn draining(&self) -> bool {
        self.draining
    }

    /// Starts a round, unless a shutdown is already requested (then there is
    /// nothing to do and the round's outcome is [`IdleOutcome::Shutdown`]).
    ///
    /// Whether the flag is seen set is a load of an atomic that another thread
    /// may store to at any time; [`begin`](Self::begin) decides on what it saw.
    pub fn start(shutdown: &Arc<AtomicBool>) -> (round: Result<Self, IdleOutcome>)
        ensures
            exists|seen: bool| loaded(shutdown, seen) && (round is Err <==> seen),
            round matches Ok(r) ==> !r.draining() && r.running(),
            round matches Err(outcome) ==> outcome == IdleOutcome::Shutdown,
    {
        let seen = flag_is_set(shutdown);
        proof {
            lemma_loaded(shutdown, seen);
        }
        Self::begin(seen)
    }

    /// Starts a round given whether a shutdown was seen requested: no round
    /// (the outcome is [`IdleOutcome::Shutdown`]) exactly when it was, else a
    /// fresh round that has seen no event yet.
    pub fn begin(shutdown_requested: bool) -> (round: Result<Self, IdleOutcome>)
        ensures
            round is Err <==> shutdown_requested,
            round matches Ok(r) ==> !r.draining() && r.running(),
            round matches Err(outcome) ==> outcome == IdleOutcome::Shutdown,
    {
        if shutdown_requested {
            return Err(IdleOutcome::Shutdown);
        }
        Ok(ImapIdleRound { idle: Some(idle_new()), draining: false })
    }

    /// Whether the round still holds its IDLE.
    pub closed spec fn running(&self) -> bool {
        self.idle is Some
    }

    /// Advances the round, returning what the driver must do. Pass the bytes
    /// of a [`ReadResult::Received`] as `input`; otherwise pass `None`. A set
    /// `shutdown` winds IDLE down (DONE) before the round ends. While the
    /// round holds its IDLE, the IDLE is resumed on `stream`: first with
    /// `input`, then with nothing, as the stream's log shows.
    pub fn resume(
        &mut self,
        stream: &mut ImapStream,
        input: Option<&[u8]>,
        shutdown: &Arc<AtomicBool>,
    ) -> (action: IdleAction)
        ensures
            old(self).draining() ==> final(self).draining(),
            action matches IdleAction::Read { refresh_timer } ==> refresh_timer == !final(self).draining(),
            action matches IdleAction::Finish(IdleOutcome::Data) ==> final(self).draining(),
            action matches IdleAction::Finish(IdleOutcome::Refresh) ==> !final(self).draining(),
            old(self).running() ==> final(stream).fed().len() > old(stream).fed().len() && fed_since(
                old(stream).fed(),
                bytes_view(input),
                final(stream).fed(),
                (final(stream).fed().len() - old(stream).fed().len()) as nat,
            ),
            !old(self).running() ==> final(stream).fed() == old(stream).fed() && (action matches IdleAction::Fail(m)
                && m@ == "IDLE already finished"@),
            exists|steps: Seq<IdleStep>, shutdowns: Seq<bool>, states: Seq<bool>, feeds: Seq<RoundFeed>|
                #[trigger] round_ran(
                    old(self).draining(),
                    final(self).draining(),
                    action,
                    answer_if(old(self).running(), final(stream).last_answer()),
                    steps,
                    shutdowns,
                    states,
                    feeds,
                    shutdown,
                ),
    {
        let mut pending = input;
        let mut budget: u32 = ROUND_STEP_BOUND;
        let ghost mut steps: Seq<IdleStep> = Seq::empty();
        let ghost mut shutdowns: Seq<bool> = Seq::empty();
        let ghost mut states: Seq<bool> = seq![self.draining];
        let ghost mut feeds: Seq<RoundFeed> = Seq::empty();
        let ghost input0 = bytes_view(input);
        let ghost fed0 = stream.fed();
        let ghost running0 = self.running();
        assert(fed0.subrange(0, fed0.len() as int) =~= fed0);
        loop
            invariant
                old(self).draining() ==> self.draining(),
                steps.len() == ROUND_STEP_BOUND - budget,
                idle_run(old(self).draining(), steps, shutdowns, states),
                states.last() == self.draining(),
                feeds.len() == steps.len(),
                forall|i: int| 0 <= i < steps.len() ==> round_fed(#[trigger] feeds[i], steps[i]),
                steps.len() == 0 ==> bytes_view(pending) == input0,
                input0 == bytes_view(input),
                fed0 == old(stream).fed(),
                running0 == old(self).running(),
                steps.len() > 0 ==> pending is None,
                steps.len() == 0 ==> self.running() == running0 && stream.fed() == fed0,
                steps.len() > 0 ==> running0 && self.running(),
                running0 ==> fed_since(fed0, input0, stream.fed(), steps.len()),
                steps.len() > 0 ==> stream.last_answer() == Some(idle_answer(steps.last())),
                forall|i: int| 0 <= i < steps.len() ==> (#[trigger] spec_idle_decide(states[i], steps[i], shutdowns[i])).1 is None,
                forall|i: int| 0 <= i < shutdowns.len() ==> loaded(shutdown, #[trigger] shutdowns[i]),
                running0 ==> forall|i: int| 0 <= i < feeds.len() ==> looked(shutdown, states[i], (#[trigger] feeds[i]).0),
            decreases budget,
        {
            if budget == 0 {
                let action = IdleAction::Fail(String::from_str("IDLE made no progress"));
                assert(round_ran(old(self).draining(), self.draining(), action, stream.last_answer(), steps, shutdowns, states, feeds, shutdown));
                return action;
            }
            budget = budget - 1;
            let ghost mut feed: RoundFeed = (false, false, false);
            let ghost fed_before = stream.fed();
            let step = match self.idle.take() {
                Some(idle) => {
                    let mut idle = idle;
                    let seen = if self.draining {
                        false
                    } else {
                        let loaded_now = flag_is_set(shutdown);
                        proof {
                            lemma_loaded(shutdown, loaded_now);
                        }
                        loaded_now
                    };
                    if seen {
                        request_wind_down(&mut idle.done);
                    }
                    stream.leave_greeting();
                    let (back, step) = idle_resume(idle, stream, pending.take());
                    let ghost winding = stream.last_winding();
                    let mut back = back;
                    if let IdleStep::Event = step {
                        if let Some(held) = &mut back {
                            request_wind_down(&mut held.done);
                        }
                    }
                    proof {
                        let after = back is Some && wind_down_requested(back->0.done);
                        feed = (seen, winding, after);
                    }
                    self.idle = back;
                    step
                },
                None => IdleStep::Failed(String::from_str("IDLE already finished")),
            };
            let shutdown_now = flag_is_set(shutdown);
            proof {
                lemma_loaded(shutdown, shutdown_now);
            }
            let ghost answer = step;
            let ghost before = self.draining;
            let (draining, action) = idle_decide(self.draining, step, shutdown_now);
            self.draining = draining;
            proof {
                let ghost (s0, d0, t0, f0) = (steps, shutdowns, states, feeds);
                feeds = feeds.push(feed);
                assert forall|i: int| 0 <= i < feeds.len() implies round_fed(#[trigger] feeds[i], s0.push(answer)[i]) by {
                    if i < f0.len() {
                        assert(feeds[i] == f0[i]);
                        assert(s0.push(answer)[i] == s0[i]);
                    }
                }
                steps = steps.push(answer);
                shutdowns = shutdowns.push(shutdown_now);
                assert forall|i: int| 0 <= i < shutdowns.len() implies loaded(shutdown, #[trigger] shutdowns[i]) by {
                    if i < d0.len() {
                        assert(shutdowns[i] == d0[i]);
                    }
                }
                states = states.push(draining);
                if running0 {
                    assert forall|i: int| 0 <= i < feeds.len() implies looked(shutdown, states[i], (#[trigger] feeds[i]).0) by {
                        if i < f0.len() {
                            assert(feeds[i] == f0[i]);
                            assert(states[i] == t0[i]);
                        }
                    }
                }
                assert forall|i: int| 0 <= i < steps.len() implies #[trigger] decides(steps, shutdowns, states, i) by {
                    if i < s0.len() {
                        assert(decides(s0, d0, t0, i));
                    }
                }
                if running0 {
                    assert(stream.fed() == fed_before.push(if s0.len() == 0 { input0 } else { None }));
                    assert(stream.fed().subrange(0, fed0.len() as int) =~= fed0);
                }
            }
            match action {
                Some(action) => {
                    assert(round_ran(
                        old(self).draining(),
                        self.draining(),
                        action,
                        answer_if(running0, stream.last_answer()),
                        steps,
                        shutdowns,
                        states,
                        feeds,
                        shutdown,
                    ));
                    return action;
                },
                None => {
                    assert(forall|i: int| 0 <= i < steps.len() ==> (#[trigger] spec_idle_decide(states[i], steps[i], shutdowns[i])).1 is None) by {
                        assert forall|i: int| 0 <= i < steps.len() implies (#[trigger] spec_idle_decide(states[i], steps[i], shutdowns[i])).1 is None by {
                            if i < steps.len() - 1 {
                                assert(states[i] == states.drop_last()[i]);
                            }
                        }
                    }
                },
            }
        }
    }

    /// What a read means for the round: bytes continue it (resume with them);
    /// a closed connection or a failed read fails it; the refresh timer ends
    /// it as [`IdleOutcome::Refresh`].
    pub fn on_read(&self, read: ReadResult) -> (action: Option<IdleAction>)
        ensures
            read is Received ==> action is None,
            read is Closed ==> (action matches Some(IdleAction::Fail(m)) && m@ == "connection closed by peer"@),
            read matches ReadResult::Failed(err) ==> (action matches Some(IdleAction::Fail(m)) && m@ == "read failed"@ + ": "@ + err@),
            read is TimedOut ==> (action matches Some(IdleAction::Finish(IdleOutcome::Refresh))),
    {
        match read {
            ReadResult::Received(_) => None,
            ReadResult::Closed => Some(IdleAction::Fail(String::from_str("connection closed by peer"))),
            ReadResult::Failed(err) => Some(IdleAction::Fail(contextual("read failed", err))),
            ReadResult::TimedOut => Some(IdleAction::Finish(IdleOutcome::Refresh)),
        }
    }
}

} // verus!
