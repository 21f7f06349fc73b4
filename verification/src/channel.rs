//! The bounded queue between a publisher and the holder of its stream.

use vstd::prelude::*;
use tokio::sync::mpsc::{Receiver, Sender};

verus! {

/// `tokio::sync::mpsc::Sender`, the sending side of a bounded queue. Verus sees nothing inside.
#[verifier::external_type_specification]
#[verifier::external_body]
#[verifier::reject_recursive_types(T)]
pub struct ExSender<T>(Sender<T>);

/// `tokio::sync::mpsc::Receiver`, the receiving side of a bounded queue. Verus sees nothing
/// inside.
#[verifier::external_type_specification]
#[verifier::external_body]
#[verifier::reject_recursive_types(T)]
pub struct ExReceiver<T>(Receiver<T>);

/// What became of a message that was offered to a queue.
#[derive(Debug, PartialEq, Eq)]
pub enum Attempt<M> {
    /// The queue took it.
    Sent,
    /// The queue is full; the message comes back.
    Full(M),
    /// The receiving side is gone; the message comes back.
    Closed(M),
}

/// The largest capacity that a queue can have.
pub open spec fn max_capacity() -> int {
    (usize::MAX as int) / 8
}

/// Calls `tokio::sync::mpsc::channel`, which makes a queue of capacity `buffer` and hands out
/// its two sides.
///
/// Trusted: nothing is claimed of the result. The call panics on a capacity of zero and on
/// one above `usize::MAX >> 3`, so both are left out.
#[verifier::external_body]
pub(crate) fn open_queue<M>(buffer: usize) -> (sides: (Sender<M>, Receiver<M>))
    requires
        1 <= buffer <= max_capacity(),
{
    tokio::sync::mpsc::channel(buffer)
}

/// Calls `tokio::sync::mpsc::Sender::try_send`, which puts `message` on the queue if there is
/// room and the receiving side is alive, and returns at once either way.
///
/// Trusted: a message that was not taken comes back as it was given. Which of the three
/// outcomes occurs depends on what the holder of the other side has done.
#[verifier::external_body]
pub(crate) fn offer<M>(sender: &Sender<M>, message: M) -> (attempt: Attempt<M>)
    ensures
        attempt matches Attempt::Full(returned) ==> returned == message,
        attempt matches Attempt::Closed(returned) ==> returned == message,
{
    match sender.try_send(message) {
        Ok(()) => Attempt::Sent,
        Err(tokio::sync::mpsc::error::TrySendError::Full(message)) => Attempt::Full(message),
        Err(tokio::sync::mpsc::error::TrySendError::Closed(message)) => Attempt::Closed(message),
    }
}

} // verus!
