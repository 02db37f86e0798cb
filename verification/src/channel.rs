//! The bounded channel between capture and consumption.

use tokio::sync::mpsc::error::TrySendError;
use tokio::sync::mpsc::{Receiver, Sender};
use vstd::prelude::*;

verus! {

/// The producing end of a tokio `mpsc` channel, carried as an opaque value.
#[verifier::external_type_specification]
#[verifier::external_body]
#[verifier::reject_recursive_types(T)]
pub struct ExSender<T>(Sender<T>);

/// The consuming end of a tokio `mpsc` channel, carried as an opaque value.
#[verifier::external_type_specification]
#[verifier::external_body]
#[verifier::reject_recursive_types(T)]
pub struct ExReceiver<T>(Receiver<T>);

/// Largest number of messages a channel can be opened for: an eighth of the
/// largest `usize`, rounded down.
pub const MAX_CAPACITY: usize = usize::MAX / 8;

/// What became of a message offered to the channel without waiting.
#[derive(Clone, Copy, Debug, PartialEq, Eq, Structural)]
pub enum SendOutcome {
    /// The message is in the channel.
    Sent,
    /// The channel held as many messages as it has room for.
    Full,
    /// The consuming end is gone.
    Closed,
}

/// Tells whether a channel can be opened for `capacity` messages.
pub open spec fn capacity_admissible(capacity: usize) -> bool {
    0 < capacity <= MAX_CAPACITY
}

/// `tokio::sync::mpsc::channel` panics for a capacity of zero and for one above
/// its semaphore's limit, which is `usize::MAX` shifted right by three bits;
/// those are excluded here. Nothing is claimed of the two ends it returns.
pub assume_specification<T>[ tokio::sync::mpsc::channel::<T> ](buffer: usize) -> (ends: (
    Sender<T>,
    Receiver<T>,
))
    requires
        capacity_admissible(buffer),
;

/// Calls `Sender::try_send`, which returns at once, and reports which of its
/// three results came back. Which one it is depends on what the other end has
/// done so far, so nothing is claimed of it.
#[verifier::external_body]
pub(crate) fn try_send<T>(sender: &Sender<T>, message: T) -> (outcome: SendOutcome) {
    match sender.try_send(message) {
        Ok(()) => SendOutcome::Sent,
        Err(TrySendError::Full(_)) => SendOutcome::Full,
        Err(TrySendError::Closed(_)) => SendOutcome::Closed,
    }
}

} // verus!
