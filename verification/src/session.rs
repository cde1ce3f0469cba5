//! The lifecycle of one analysis submission: a state machine with a
//! single-flight guard, driven by user intents and by polls of the relay.

use vstd::prelude::*;

use std::sync::mpsc::Receiver;
use std::sync::mpsc::Sender;

use crate::backend::{error_message, spec_error_message};
use crate::bridge::{AnalysisOutcome, PollOutcome, SpecPollOutcome, oneshot, try_take};
use crate::model::{AnalysisRequest, AnalysisResult, SpecRequest, SpecResult};
use crate::text::{dec_digits, push_decimal};

verus! {

/// Where one submission stands. `Completed` and `Failed` are display
/// states, not terminal ones: a new submission may start from either.
#[derive(Debug)]
pub enum SessionState {
    Idle,
    Pending(AnalysisRequest),
    Completed(AnalysisResult),
    Failed(String),
}

/// Mathematical model of a `SessionState`.
pub enum SpecState {
    Idle,
    Pending(SpecRequest),
    Completed(SpecResult),
    Failed(Seq<char>),
}

impl View for SessionState {
    type V = SpecState;

    open spec fn view(&self) -> SpecState {
        match self {
            SessionState::Idle => SpecState::Idle,
            SessionState::Pending(q) => SpecState::Pending(q@),
            SessionState::Completed(a) => SpecState::Completed(a@),
            SessionState::Failed(m) => SpecState::Failed(m@),
        }
    }
}

/// Mathematical model of an `AnalysisSession`: the state, the status line
/// that mirrors it, and whether a relay handle is held.
pub struct SpecSession {
    pub state: SpecState,
    pub status: Seq<char>,
    pub inflight: bool,
}

/// The status line each state displays.
pub open spec fn status_text(state: SpecState) -> Seq<char> {
    match state {
        SpecState::Idle => "ready."@,
        SpecState::Pending(_) => "analyzing..."@,
        SpecState::Completed(a) => "analysis complete: "@ + dec_digits(a.flags.len())
            + " flag(s) found."@,
        SpecState::Failed(m) => "analysis failed: "@ + m,
    }
}

impl SpecSession {
    /// A relay handle is held exactly while a submission is pending, and
    /// the status line always mirrors the state.
    pub open spec fn wf(self) -> bool {
        &&& self.inflight <==> self.state is Pending
        &&& self.status == status_text(self.state)
    }
}

/// The session as it is first constructed.
pub open spec fn spec_init() -> SpecSession {
    SpecSession { state: SpecState::Idle, status: status_text(SpecState::Idle), inflight: false }
}

/// What `submit` does: nothing while a submission is pending or when the
/// content is empty; otherwise any prior result is dropped and this content
/// becomes the pending request.
pub open spec fn spec_submit(s: SpecSession, content: Seq<char>) -> SpecSession {
    if s.state is Pending || content.len() == 0 {
        s
    } else {
        let state = SpecState::Pending(SpecRequest { content, mode: None });
        SpecSession { state, status: status_text(state), inflight: true }
    }
}

/// What `clear` does: drop a completed or failed display state back to
/// idle; a pending submission is left alone.
pub open spec fn spec_clear(s: SpecSession) -> SpecSession {
    if s.state is Pending {
        s
    } else {
        spec_init()
    }
}

/// The session after a failure with this message.
pub open spec fn spec_failed(m: Seq<char>) -> SpecSession {
    SpecSession { state: SpecState::Failed(m), status: status_text(SpecState::Failed(m)), inflight: false }
}

/// What one poll outcome does to a pending session: emptiness changes
/// nothing, a delivered result completes or fails the submission, and a
/// disconnected relay fails it with a fixed message. A session that is not
/// pending is never changed.
pub open spec fn spec_on_outcome(s: SpecSession, oc: SpecPollOutcome) -> SpecSession {
    if !(s.state is Pending) {
        s
    } else {
        match oc {
            SpecPollOutcome::Empty => s,
            SpecPollOutcome::Delivered(Ok(a)) => SpecSession {
                state: SpecState::Completed(a),
                status: status_text(SpecState::Completed(a)),
                inflight: false,
            },
            SpecPollOutcome::Delivered(Err(e)) => spec_failed(spec_error_message(e)),
            SpecPollOutcome::Disconnected => spec_failed("background task interrupted"@),
        }
    }
}

/// Single-flight: while a submission is pending, a further `submit` is a
/// no-op — the session is left exactly as it was, so at most one transition
/// into `Pending` can happen before a matching completion or failure.
pub proof fn lemma_single_flight(s: SpecSession, content: Seq<char>)
    requires
        s.state is Pending,
    ensures
        spec_submit(s, content) == s,
{
}

/// A whole sequence of submit calls, folded over the session in order.
pub open spec fn spec_submit_all(s: SpecSession, contents: Seq<Seq<char>>) -> SpecSession
    decreases contents.len(),
{
    if contents.len() == 0 {
        s
    } else {
        spec_submit_all(spec_submit(s, contents[0]), contents.drop_first())
    }
}

/// Single-flight over whole call sequences: once a submission is pending,
/// no sequence of further submit calls moves the session at all — only a
/// delivered completion or failure can.
pub proof fn lemma_single_flight_sequence(s: SpecSession, contents: Seq<Seq<char>>)
    requires
        s.state is Pending,
    ensures
        spec_submit_all(s, contents) == s,
    decreases contents.len(),
{
    if contents.len() > 0 {
        lemma_single_flight(s, contents[0]);
        lemma_single_flight_sequence(s, contents.drop_first());
    }
}

/// Empty-input guard: submitting empty content changes nothing, so it never
/// produces a transition into `Pending`.
pub proof fn lemma_empty_submit(s: SpecSession, content: Seq<char>)
    requires
        content.len() == 0,
    ensures
        spec_submit(s, content) == s,
{
}

/// A pending submission only ever stays pending (with the same request) or
/// moves to `Completed` or `Failed`; no poll outcome re-enters `Idle` or
/// starts a different request.
pub proof fn lemma_pending_exit(s: SpecSession, oc: SpecPollOutcome)
    requires
        s.state is Pending,
    ensures
        spec_on_outcome(s, oc) == s || spec_on_outcome(s, oc).state is Completed
            || spec_on_outcome(s, oc).state is Failed,
{
}

/// The lifecycle record of the one analysed module's submissions.
pub struct AnalysisSession {
    state: SessionState,
    status: String,
    inflight: Option<Receiver<AnalysisOutcome>>,
}

impl View for AnalysisSession {
    type V = SpecSession;

    closed spec fn view(&self) -> SpecSession {
        SpecSession {
            state: self.state@,
            status: self.status@,
            inflight: self.inflight is Some,
        }
    }
}

impl AnalysisSession {
    /// A fresh session: idle, no relay handle.
    pub fn new() -> (s: AnalysisSession)
        ensures
            s@ == spec_init(),
            s@.wf(),
    {
        AnalysisSession {
            state: SessionState::Idle,
            status: String::from_str("ready."),
            inflight: None,
        }
    }

    /// Where the submission stands, for rendering.
    pub fn state(&self) -> (r: &SessionState)
        ensures
            r@ == self@.state,
    {
        &self.state
    }

    /// The status line, for rendering.
    pub fn status(&self) -> (r: &String)
        ensures
            r@ == self@.status,
    {
        &self.status
    }

    /// Whether a submission is outstanding; while it is, `submit` is
    /// unavailable and the caller keeps polling.
    pub fn is_pending(&self) -> (b: bool)
        requires
            self@.wf(),
        ensures
            b == (self@.state is Pending),
    {
        self.inflight.is_some()
    }

    /// Start one submission. While another is pending, or when the content
    /// is empty, this is a no-op and nothing is returned. Otherwise the
    /// session becomes pending and the caller receives the request to carry
    /// to the backend and the sending half its worker must deliver into.
    pub fn submit(&mut self, content: &str) -> (r: Option<
        (AnalysisRequest, Sender<AnalysisOutcome>),
    >)
        requires
            old(self)@.wf(),
        ensures
            final(self)@.wf(),
            final(self)@ == spec_submit(old(self)@, content@),
            r is Some <==> !(old(self)@.state is Pending) && content@.len() > 0,
            r matches Some(p) ==> p.0@ == (SpecRequest { content: content@, mode: None }),
    {
        if content.is_empty() {
            return None;
        }
        match &self.state {
            SessionState::Pending(_) => { return None; },
            _ => {},
        }
        let request = AnalysisRequest { content: content.to_owned(), mode: None };
        let stored = AnalysisRequest { content: content.to_owned(), mode: None };
        let (tx, rx) = oneshot();
        self.state = SessionState::Pending(stored);
        self.status = String::from_str("analyzing...");
        self.inflight = Some(rx);
        Some((request, tx))
    }

    /// Drop a completed or failed display state back to idle. A pending
    /// submission is left alone.
    pub fn clear(&mut self)
        requires
            old(self)@.wf(),
        ensures
            final(self)@.wf(),
            final(self)@ == spec_clear(old(self)@),
    {
        match &self.state {
            SessionState::Pending(_) => {},
            _ => {
                self.state = SessionState::Idle;
                self.status = String::from_str("ready.");
                self.inflight = None;
            },
        }
    }

    /// Apply one poll outcome to the session; exact for every outcome.
    /// Returns whether the submission is still outstanding, in which case
    /// the caller must poll again on a later tick.
    pub fn on_outcome(&mut self, outcome: PollOutcome) -> (again: bool)
        requires
            old(self)@.wf(),
        ensures
            final(self)@.wf(),
            final(self)@ == spec_on_outcome(old(self)@, outcome@),
            again == (final(self)@.state is Pending),
    {
        match &self.state {
            SessionState::Pending(_) => {},
            _ => { return false; },
        }
        match outcome {
            PollOutcome::Empty => true,
            PollOutcome::Delivered(res) => {
                self.inflight = None;
                match res {
                    Ok(result) => {
                        let mut status = String::from_str("analysis complete: ");
                        push_decimal(&mut status, result.flags.len() as u64);
                        status.append(" flag(s) found.");
                        proof {
                            assert(status@ =~= status_text(SpecState::Completed(result@)));
                        }
                        self.status = status;
                        self.state = SessionState::Completed(result);
                        false
                    },
                    Err(e) => {
                        let message = error_message(&e);
                        self.fail_with(message);
                        false
                    },
                }
            },
            PollOutcome::Disconnected => {
                self.inflight = None;
                self.fail_with(String::from_str("background task interrupted"));
                false
            },
        }
    }

    /// Poll the relay once; never blocks. Without an outstanding submission
    /// this changes nothing. Otherwise the session moves exactly as
    /// `spec_on_outcome` says for whatever the relay held. Returns whether
    /// the caller must poll again on a later tick.
    pub fn poll(&mut self) -> (again: bool)
        requires
            old(self)@.wf(),
        ensures
            final(self)@.wf(),
            again == (final(self)@.state is Pending),
            !(old(self)@.state is Pending) ==> final(self)@ == old(self)@,
            exists|oc: SpecPollOutcome| final(self)@ == spec_on_outcome(old(self)@, oc),
    {
        let outcome = match &self.inflight {
            None => {
                proof {
                    assert(self@ == spec_on_outcome(self@, SpecPollOutcome::Empty));
                }
                return false;
            },
            Some(rx) => try_take(rx),
        };
        self.on_outcome(outcome)
    }

    // Sets the failed state and its mirrored status line.
    fn fail_with(&mut self, message: String)
        ensures
            final(self)@ == (SpecSession {
                state: SpecState::Failed(message@),
                status: status_text(SpecState::Failed(message@)),
                inflight: old(self)@.inflight,
            }),
    {
        let mut status = String::from_str("analysis failed: ");
        status.append(message.as_str());
        proof {
            assert(status@ =~= status_text(SpecState::Failed(message@)));
        }
        self.status = status;
        self.state = SessionState::Failed(message);
    }
}

} // verus!
