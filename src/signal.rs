//! Job-control signals and the single-slot relay that carries the last one
//! from the signal handler to ordinary code.
use std::sync::atomic::{AtomicUsize, Ordering};
use vstd::prelude::*;

verus! {

/// A job-control signal that the terminal reports to its caller.
#[derive(Clone, Copy, Debug, PartialEq, Eq, Structural)]
pub enum Signal {
    Continue,
    Interrupt,
    Suspend,
    Quit,
}

/// A set of signal kinds.
#[derive(Clone, Copy, Debug, PartialEq, Eq, Structural)]
pub struct SignalSet {
    pub cont: bool,
    pub interrupt: bool,
    pub suspend: bool,
    pub quit: bool,
}

impl SignalSet {
    /// Whether the set holds `kind`.
    pub open spec fn has(&self, kind: Signal) -> bool {
        match kind {
            Signal::Continue => self.cont,
            Signal::Interrupt => self.interrupt,
            Signal::Suspend => self.suspend,
            Signal::Quit => self.quit,
        }
    }

    /// The empty set.
    pub fn new() -> (r: SignalSet)
        ensures
            forall|k: Signal| !r.has(k),
    {
        SignalSet { cont: false, interrupt: false, suspend: false, quit: false }
    }

    /// Tells whether the set holds `kind`.
    pub fn contains(&self, kind: Signal) -> (r: bool)
        ensures
            r == self.has(kind),
    {
        match kind {
            Signal::Continue => self.cont,
            Signal::Interrupt => self.interrupt,
            Signal::Suspend => self.suspend,
            Signal::Quit => self.quit,
        }
    }

    /// Adds `kind` to the set.
    pub fn insert(&mut self, kind: Signal)
        ensures
            final(self).has(kind),
            forall|k: Signal| k != kind ==> final(self).has(k) == old(self).has(k),
    {
        match kind {
            Signal::Continue => self.cont = true,
            Signal::Interrupt => self.interrupt = true,
            Signal::Suspend => self.suspend = true,
            Signal::Quit => self.quit = true,
        }
    }
}

/// The signals whose handler a raw-mode preparation installs: none when
/// signals are not caught; else Continue and Interrupt always, Suspend and
/// Quit when they are to be reported.
pub open spec fn caught_by(catch_signals: bool, reported: SignalSet, kind: Signal) -> bool {
    catch_signals && match kind {
        Signal::Continue | Signal::Interrupt => true,
        _ => reported.has(kind),
    }
}

/// The set of signals whose disposition a preparation changes.
pub fn signals_to_catch(catch_signals: bool, reported: &SignalSet) -> (r: SignalSet)
    ensures
        forall|k: Signal| r.has(k) == caught_by(catch_signals, *reported, k),
{
    if catch_signals {
        SignalSet { cont: true, interrupt: true, suspend: reported.suspend, quit: reported.quit }
    } else {
        SignalSet::new()
    }
}

/// Value of the relay slot when no signal has been recorded.
pub const NO_SIGNAL: usize = usize::MAX;

/// The raw number that the operating system gives to a signal kind.
pub uninterp spec fn signal_number(kind: Signal) -> i32;

/// Relies on nix's `Signal` enum, whose discriminants are libc's signal
/// numbers: gives the number of `SIGCONT`, `SIGINT`, `SIGTSTP` or `SIGQUIT`.
#[verifier::external_body]
fn raw_signal_number(kind: Signal) -> (r: i32)
    ensures
        r == signal_number(kind),
{
    match kind {
        Signal::Continue => nix::sys::signal::Signal::SIGCONT as i32,
        Signal::Interrupt => nix::sys::signal::Signal::SIGINT as i32,
        Signal::Suspend => nix::sys::signal::Signal::SIGTSTP as i32,
        Signal::Quit => nix::sys::signal::Signal::SIGQUIT as i32,
    }
}

/// The signal kind that a raw slot value stands for: none for the sentinel
/// and for any number that is not one of the four job-control signals.
/// The number is read as a C `int`, as the handler received it.
pub open spec fn signal_kind(raw: usize) -> Option<Signal> {
    if raw == NO_SIGNAL {
        None
    } else if raw as i32 == signal_number(Signal::Continue) {
        Some(Signal::Continue)
    } else if raw as i32 == signal_number(Signal::Interrupt) {
        Some(Signal::Interrupt)
    } else if raw as i32 == signal_number(Signal::Suspend) {
        Some(Signal::Suspend)
    } else if raw as i32 == signal_number(Signal::Quit) {
        Some(Signal::Quit)
    } else {
        None
    }
}

/// Translates a raw slot value into a signal kind.
pub fn conv_signal(n: usize) -> (r: Option<Signal>)
    ensures
        r == signal_kind(n),
{
    if n == NO_SIGNAL {
        return None;
    }
    let c = n as i32;
    if c == raw_signal_number(Signal::Continue) {
        Some(Signal::Continue)
    } else if c == raw_signal_number(Signal::Interrupt) {
        Some(Signal::Interrupt)
    } else if c == raw_signal_number(Signal::Suspend) {
        Some(Signal::Suspend)
    } else if c == raw_signal_number(Signal::Quit) {
        Some(Signal::Quit)
    } else {
        None
    }
}

/// The raw number of a signal kind, as the slot records it.
pub fn signal_to_raw(kind: Signal) -> (r: usize)
    ensures
        signal_number(kind) >= 0 ==> r == signal_number(kind) as usize,
{
    let c = raw_signal_number(kind);
    c as usize
}

/// Reads the slot without clearing it.
pub fn get_raw_signal(slot: &AtomicUsize) -> usize {
    slot.load(Ordering::Relaxed)
}

/// Records a raw signal number; a single store, as the handler context
/// allows no locking and no allocation.
pub fn set_raw_signal(slot: &AtomicUsize, sig: usize) {
    slot.store(sig, Ordering::Relaxed);
}

/// Marks the slot as holding no signal.
pub fn clear_signal(slot: &AtomicUsize) {
    slot.store(NO_SIGNAL, Ordering::Relaxed);
}

/// The signal recorded in the slot, left in place. The handler may write
/// the slot at any moment, so the result is the kind of some raw value.
pub fn get_last_signal(slot: &AtomicUsize) -> (r: Option<Signal>)
    ensures
        exists|raw: usize| r == signal_kind(raw),
{
    let raw = get_raw_signal(slot);
    conv_signal(raw)
}

/// The signal recorded in the slot; the slot is swapped back to the sentinel.
pub fn take_last_signal(slot: &AtomicUsize) -> (r: Option<Signal>)
    ensures
        exists|raw: usize| r == signal_kind(raw),
{
    let raw = slot.swap(NO_SIGNAL, Ordering::Relaxed);
    conv_signal(raw)
}

/// What the slot holds after a take, and what the take returned.
pub open spec fn take_step(raw: usize) -> (Option<Signal>, usize) {
    (signal_kind(raw), NO_SIGNAL)
}

/// Taking twice with nothing delivered in between: the first take reports
/// the recorded kind, the second reports none.
pub proof fn lemma_take_twice(raw: usize)
    ensures
        take_step(raw).0 == signal_kind(raw),
        take_step(take_step(raw).1).0 == None::<Signal>,
        take_step(take_step(raw).1).1 == NO_SIGNAL,
{
}

/// What a read returns, and what the slot holds after it.
pub open spec fn get_step(raw: usize) -> (Option<Signal>, usize) {
    (signal_kind(raw), raw)
}

/// Reading leaves the slot as it is, so a second read with no take or
/// delivery in between reports the same kind as the first.
pub proof fn lemma_get_idempotent(raw: usize)
    ensures
        get_step(raw).1 == raw,
        get_step(get_step(raw).1).0 == get_step(raw).0,
{
}

} // verus!
