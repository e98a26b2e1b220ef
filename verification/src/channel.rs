//! The queues between the engine's threads and the coordinator. They are
//! `crossbeam_channel` channels; what is said of them here is taken on
//! trust.

use crate::message::SendFailure;
use crossbeam_channel::{Receiver, Sender, TrySendError};
use vstd::prelude::*;

verus! {

/// `crossbeam_channel::Sender`, carried through as it is.
#[verifier::external_type_specification]
#[verifier::external_body]
#[verifier::reject_recursive_types(T)]
pub struct ExSender<T>(Sender<T>);

/// `crossbeam_channel::Receiver`, carried through as it is.
#[verifier::external_type_specification]
#[verifier::external_body]
#[verifier::reject_recursive_types(T)]
pub struct ExReceiver<T>(Receiver<T>);

/// `crossbeam_channel::unbounded`: a new channel that holds any number of
/// messages. Nothing is claimed of the two ends.
#[verifier::external_body]
pub(crate) fn unbounded<T>() -> (ends: (Sender<T>, Receiver<T>)) {
    crossbeam_channel::unbounded()
}

/// The capacity that the channel of a sending end was made with: what
/// `Sender::capacity` returns for it, `None` for a channel without a bound.
/// It never changes while the channel lives.
pub uninterp spec fn sender_capacity(sender: Sender<()>) -> Option<usize>;

/// The capacity that the channel of a receiving end was made with: what
/// `Receiver::capacity` returns for it.
pub uninterp spec fn receiver_capacity(receiver: Receiver<()>) -> Option<usize>;

/// `crossbeam_channel::bounded`: a new channel that holds at most `cap`
/// messages, so that both of its ends report the capacity `cap`. The
/// function panics on a capacity too large for its bookkeeping, which a
/// capacity of at most 1024 never is. Nothing else is claimed of the two
/// ends.
#[verifier::external_body]
pub(crate) fn bounded(cap: usize) -> (ends: (Sender<()>, Receiver<()>))
    requires
        cap <= 1024,
    ensures
        sender_capacity(ends.0) == Some(cap),
        receiver_capacity(ends.1) == Some(cap),
{
    crossbeam_channel::bounded(cap)
}

/// `Sender::try_send`: puts the message into the channel without waiting,
/// or says why it could not. Which of the three happens depends on the
/// other threads, so nothing is claimed of the result.
#[verifier::external_body]
pub(crate) fn try_send<T>(sender: &Sender<T>, msg: T) -> (sent: Result<(), SendFailure>) {
    match sender.try_send(msg) {
        Ok(()) => Ok(()),
        Err(TrySendError::Full(_)) => Err(SendFailure::Full),
        Err(TrySendError::Disconnected(_)) => Err(SendFailure::Disconnected),
    }
}

/// `Receiver::try_recv`: takes the oldest message that waits in the
/// channel, without ever blocking; `None` where none waits or nobody sends
/// any more. Whether one waits depends on the other threads, so nothing is
/// claimed of the result.
#[verifier::external_body]
pub(crate) fn try_recv<T>(receiver: &Receiver<T>) -> (msg: Option<T>) {
    receiver.try_recv().ok()
}

/// `Receiver::len`: the number of messages that wait in the channel at the
/// moment of the call. Other threads change it, so nothing is claimed of the
/// result.
#[verifier::external_body]
pub(crate) fn waiting<T>(receiver: &Receiver<T>) -> (n: usize) {
    receiver.len()
}

/// `Sender::clone`: another sending end of the same channel. The copy is
/// made of the same flavor and the same pointer to the shared channel as the
/// end it was made from, so the two values are equal.
#[verifier::external_body]
pub(crate) fn clone_sender<T>(sender: &Sender<T>) -> (copy: Sender<T>)
    ensures
        copy == *sender,
{
    sender.clone()
}

/// Takes the messages that wait in the channel, oldest first, and never
/// more than waited when the call began: what arrives meanwhile is left for
/// the next call, so a busy sender cannot hold the caller up.
pub fn drain<T>(receiver: &Receiver<T>) -> (msgs: Vec<T>) {
    let mut msgs: Vec<T> = Vec::new();
    let limit = waiting(receiver);
    let mut taken: usize = 0;
    while taken < limit
        invariant
            taken <= limit,
        decreases limit - taken,
    {
        match try_recv(receiver) {
            Some(msg) => {
                msgs.push(msg);
                taken = taken + 1;
            },
            None => {
                break ;
            },
        }
    }
    msgs
}

} // verus!
