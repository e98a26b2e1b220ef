//! The bridge by which any thread asks the event loop for one more tick.
//!
//! The bridge is a channel with room for a single signal. A wake that finds
//! the signal already waiting adds nothing. On its own side the event loop
//! keeps a latch: however many wakes reach it before it runs a tick, they
//! ask for one tick.

use crate::channel::{
    bounded, clone_sender, receiver_capacity, sender_capacity, try_recv, try_send,
};
use crate::message::{LogEntry, SendFailure};
use crossbeam_channel::{Receiver, Sender};
use vstd::prelude::*;

verus! {

/// How a wake went.
#[derive(Clone, Copy, Debug, PartialEq, Eq, Structural)]
pub enum WakeOutcome {
    /// The signal was left for the event loop.
    Signalled,
    /// A signal was waiting already; this wake is covered by it.
    Coalesced,
    /// The event loop listens no more.
    Undelivered,
}

/// What a wake comes to, given how leaving the signal went.
pub fn wake_outcome(sent: Result<(), SendFailure>) -> (r: WakeOutcome)
    ensures
        r == match sent {
            Ok(_) => WakeOutcome::Signalled,
            Err(SendFailure::Full) => WakeOutcome::Coalesced,
            Err(SendFailure::Disconnected) => WakeOutcome::Undelivered,
        },
{
    match sent {
        Ok(_) => WakeOutcome::Signalled,
        Err(SendFailure::Full) => WakeOutcome::Coalesced,
        Err(SendFailure::Disconnected) => WakeOutcome::Undelivered,
    }
}

/// What to log of a wake: nothing unless it could not be delivered. The
/// thread that woke goes on either way.
pub fn wake_report(outcome: WakeOutcome) -> (r: Option<LogEntry>)
    ensures
        r == if outcome == WakeOutcome::Undelivered {
            Some(LogEntry::WakeFailed)
        } else {
            None
        },
{
    match outcome {
        WakeOutcome::Undelivered => Some(LogEntry::WakeFailed),
        _ => None,
    }
}

/// What a wake comes to at the event loop, the latch being `pending` when
/// the wake arrives: the first wake asks for a tick, and every further one
/// is covered by it.
pub open spec fn latch_outcome(pending: bool) -> WakeOutcome {
    if pending {
        WakeOutcome::Coalesced
    } else {
        WakeOutcome::Signalled
    }
}

/// How many of `n` wakes in a row ask for a tick, the latch being `pending`
/// when the first arrives.
pub open spec fn ticks_asked(pending: bool, n: nat) -> nat
    decreases n,
{
    if n == 0 {
        0
    } else {
        let first: nat = if latch_outcome(pending) == WakeOutcome::Signalled {
            1
        } else {
            0
        };
        first + ticks_asked(true, (n - 1) as nat)
    }
}

/// The event loop's note of the wakes that reached it: whether a tick is
/// owed. Only the event-loop thread holds it.
#[derive(Debug)]
pub struct WakeLatch {
    pending: bool,
}

impl View for WakeLatch {
    type V = bool;

    closed spec fn view(&self) -> bool {
        self.pending
    }
}

impl WakeLatch {
    /// A latch with no tick owed.
    pub fn new() -> (r: WakeLatch)
        ensures
            !r@,
    {
        WakeLatch { pending: false }
    }

    /// Whether a tick is owed.
    pub fn is_pending(&self) -> (r: bool)
        ensures
            r == self@,
    {
        self.pending
    }

    /// Notes a wake. A tick is owed from now on; the result says whether
    /// this wake asked for it or found it owed already.
    pub fn wake(&mut self) -> (r: WakeOutcome)
        ensures
            final(self)@,
            r == latch_outcome(old(self)@),
    {
        let outcome = if self.pending {
            WakeOutcome::Coalesced
        } else {
            WakeOutcome::Signalled
        };
        self.pending = true;
        outcome
    }

    /// Takes the owed tick, if one is owed, and says whether one was. After
    /// it none is owed.
    pub fn take(&mut self) -> (owed: bool)
        ensures
            owed == old(self)@,
            !final(self)@,
    {
        let owed = self.pending;
        self.pending = false;
        owed
    }
}

/// However many wakes reach the event loop before it runs a tick, exactly
/// one of them asks for a tick, the first, and none does where a tick was
/// owed already.
pub proof fn lemma_wakes_ask_for_one_tick(n: nat)
    ensures
        ticks_asked(true, n) == 0,
        n > 0 ==> ticks_asked(false, n) == 1,
    decreases n,
{
    if n > 0 {
        lemma_wakes_ask_for_one_tick((n - 1) as nat);
    }
}

/// The capability to wake the event loop. Any thread may hold one and use
/// it at any time; a wake never blocks.
pub struct Waker {
    signal: Sender<()>,
}

/// The event loop's end of the bridge.
pub struct WakeListener {
    signal: Receiver<()>,
}

/// A new bridge: the waker for the engine's threads and the listener for
/// the event loop, each an end of a channel with room for a single signal.
pub fn wake_channel() -> (ends: (Waker, WakeListener))
    ensures
        ends.0.room() == Some(1usize),
        ends.1.room() == Some(1usize),
{
    let (sender, receiver) = bounded(1);
    (Waker { signal: sender }, WakeListener { signal: receiver })
}

impl Waker {
    /// How many signals the bridge can hold, `None` if any number.
    pub closed spec fn room(&self) -> Option<usize> {
        sender_capacity(self.signal)
    }

    /// Asks the event loop for one more tick.
    pub fn wake(&self) -> (r: WakeOutcome) {
        wake_outcome(try_send(&self.signal, ()))
    }

    /// Another waker for the same event loop: it is equal to this one, an
    /// end of the same bridge.
    pub fn clone_box(&self) -> (r: Box<Waker>)
        ensures
            *r == *self,
    {
        Box::new(Waker { signal: clone_sender(&self.signal) })
    }
}

impl WakeListener {
    /// How many signals the bridge can hold, `None` if any number.
    pub closed spec fn room(&self) -> Option<usize> {
        receiver_capacity(self.signal)
    }

    /// The channel end beneath the listener.
    pub closed spec fn receiver(&self) -> Receiver<()> {
        self.signal
    }

    /// Gives up the listener for the channel end beneath it, on which the
    /// event loop's side can wait for the next signal.
    pub fn into_receiver(self) -> (r: Receiver<()>)
        ensures
            r == self.receiver(),
    {
        self.signal
    }

    /// Takes the waiting signal, if there is one, and says whether a tick
    /// was asked for.
    pub fn take(&self) -> (asked: bool) {
        try_recv(&self.signal).is_some()
    }
}

} // verus!
