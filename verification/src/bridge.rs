//! The relay between a worker and the rendering loop: a one-shot channel
//! whose receiving half is polled without ever blocking.
//!
//! The worker itself is spawned by the surrounding program; this module only
//! creates the channel pair and reads its receiving half.

use vstd::prelude::*;

use std::sync::mpsc::Receiver;
use std::sync::mpsc::Sender;

use crate::model::{AnalysisError, AnalysisResult, SpecError, SpecResult, outcome_view};

verus! {

/// What one submission's worker delivers: the backend's result or the error.
pub type AnalysisOutcome = Result<AnalysisResult, AnalysisError>;

#[verifier::external_type_specification]
#[verifier::external_body]
#[verifier::reject_recursive_types(T)]
pub struct ExSender<T>(Sender<T>);

#[verifier::external_type_specification]
#[verifier::external_body]
#[verifier::reject_recursive_types(T)]
pub struct ExReceiver<T>(Receiver<T>);

/// One poll of the receiving half, as plain values.
pub enum PollOutcome {
    /// Nothing delivered yet; the caller must poll again on a later tick.
    Empty,
    /// The worker's single outcome, consumed from the channel.
    Delivered(AnalysisOutcome),
    /// The worker terminated without sending anything.
    Disconnected,
}

/// Mathematical model of a `PollOutcome`.
pub enum SpecPollOutcome {
    Empty,
    Delivered(Result<SpecResult, SpecError>),
    Disconnected,
}

impl View for PollOutcome {
    type V = SpecPollOutcome;

    open spec fn view(&self) -> SpecPollOutcome {
        match self {
            PollOutcome::Empty => SpecPollOutcome::Empty,
            PollOutcome::Delivered(r) => SpecPollOutcome::Delivered(outcome_view(*r)),
            PollOutcome::Disconnected => SpecPollOutcome::Disconnected,
        }
    }
}

/// Relies on `std::sync::mpsc::channel`: a fresh asynchronous channel pair.
/// Which value later comes out of the receiver depends on what the holder
/// of the sender does, so nothing is promised here.
#[verifier::external_body]
pub(crate) fn oneshot() -> (Sender<AnalysisOutcome>, Receiver<AnalysisOutcome>) {
    std::sync::mpsc::channel()
}

/// Relies on `std::sync::mpsc::Receiver::try_recv`: it never blocks, and
/// returns a value, emptiness, or disconnection. When a value arrives
/// depends on the worker, so nothing is promised of the outcome.
#[verifier::external_body]
pub(crate) fn try_take(rx: &Receiver<AnalysisOutcome>) -> PollOutcome {
    match rx.try_recv() {
        Ok(v) => PollOutcome::Delivered(v),
        Err(std::sync::mpsc::TryRecvError::Empty) => PollOutcome::Empty,
        Err(std::sync::mpsc::TryRecvError::Disconnected) => PollOutcome::Disconnected,
    }
}

} // verus!
