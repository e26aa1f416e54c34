//! Decisions of the input wait: what to do with each return of the
//! readiness wait.
use std::sync::atomic::AtomicUsize;
use vstd::prelude::*;
use crate::error::{interrupted, is_interrupted_code, TermError};
use crate::signal::{get_last_signal, signal_kind, Signal};

verus! {

/// What the input wait does next.
#[derive(Clone, Copy, Debug, PartialEq, Eq, Structural)]
pub enum WaitAction {
    /// Return this answer: `true` when input or a signal is there.
    Finish(bool),
    /// Run the resume handshake, then return `true`.
    ResumeAndFinish,
    /// Wait again with what is left of the timeout.
    Retry,
    /// Return this error.
    Fail(TermError),
}

/// The action after the wait was interrupted and the relay reported `last`.
pub open spec fn signal_action(last: Option<Signal>) -> WaitAction {
    match last {
        Some(Signal::Continue) => WaitAction::ResumeAndFinish,
        Some(_) => WaitAction::Finish(true),
        None => WaitAction::Retry,
    }
}

/// The action for a readiness wait that returned `outcome` (the number of
/// ready descriptors, or an OS error code), when no signal is consulted.
pub open spec fn outcome_action(outcome: Result<i32, i32>) -> WaitAction {
    match outcome {
        Ok(n) => WaitAction::Finish(n == 1),
        Err(code) => WaitAction::Fail(TermError::Io(code)),
    }
}

/// Chooses what to do after an interrupted wait, given the recorded signal.
pub fn interrupted_action(last: Option<Signal>) -> (r: WaitAction)
    ensures
        r == signal_action(last),
{
    match last {
        Some(Signal::Continue) => WaitAction::ResumeAndFinish,
        Some(_) => WaitAction::Finish(true),
        None => WaitAction::Retry,
    }
}

/// Chooses what to do after one return of the readiness wait. On an
/// interrupted call the relay in `slot` is read (not cleared).
pub fn wait_step(outcome: Result<i32, i32>, slot: &AtomicUsize) -> (r: WaitAction)
    ensures
        match outcome {
            Err(code) if is_interrupted_code(code) =>
                exists|raw: usize| r == signal_action(signal_kind(raw)),
            _ => r == outcome_action(outcome),
        },
{
    match outcome {
        Ok(n) => WaitAction::Finish(n == 1),
        Err(code) => {
            if interrupted(code) {
                let last = get_last_signal(slot);
                interrupted_action(last)
            } else {
                WaitAction::Fail(TermError::Io(code))
            }
        },
    }
}

/// A wait that finds the timeout spent, with nothing ready, answers `false`.
pub proof fn lemma_expired_wait_is_false()
    ensures
        outcome_action(Ok(0)) == WaitAction::Finish(false),
{
}

/// A Continue delivered during the wait leads to the resume handshake and
/// an answer of `true`; any other recorded signal to `true` at once.
pub proof fn lemma_signal_ends_wait(kind: Signal)
    ensures
        kind == Signal::Continue ==> signal_action(Some(kind)) == WaitAction::ResumeAndFinish,
        kind != Signal::Continue ==> signal_action(Some(kind)) == WaitAction::Finish(true),
{
}

} // verus!
