//! The advisory "item available" channel of a queue.
//!
//! The channel is tokio's bounded mpsc channel. It lives behind shared
//! handles whose contents change under `&self`, so nothing is claimed about
//! what it holds: the queue's data path never depends on it.

use std::sync::Arc;
use vstd::prelude::*;

verus! {

#[verifier::external_type_specification]
#[verifier::external_body]
#[verifier::reject_recursive_types(T)]
pub struct ExSender<T>(tokio::sync::mpsc::Sender<T>);

#[verifier::external_type_specification]
#[verifier::external_body]
#[verifier::reject_recursive_types(T)]
pub struct ExReceiver<T>(tokio::sync::mpsc::Receiver<T>);

#[verifier::external_type_specification]
#[verifier::external_body]
#[verifier::reject_recursive_types(T)]
pub struct ExMutex<T: ?Sized>(tokio::sync::Mutex<T>);

/// The handle that subscribers share: the receiving end of the channel.
pub type Subscription<T> = Arc<tokio::sync::Mutex<tokio::sync::mpsc::Receiver<T>>>;

/// How many notifications the channel buffers before it drops new ones.
pub const SUBSCRIPTION_BUFFER: usize = 100;

/// `tokio::sync::mpsc::channel`: a fresh bounded channel. The call panics on
/// a buffer of zero and on one above the most permits that tokio's semaphore
/// holds, `usize::MAX >> 3`; the precondition rules out both. Nothing is
/// claimed of the two ends.
#[verifier::external_body]
pub(crate) fn open_channel<T>(buffer: usize) -> (ends: (
    tokio::sync::mpsc::Sender<T>,
    tokio::sync::mpsc::Receiver<T>,
))
    requires
        0 < buffer <= usize::MAX >> 3,
{
    tokio::sync::mpsc::channel(buffer)
}

/// `tokio::sync::Mutex::new`: wraps the receiving end for sharing. Nothing is
/// claimed of the result.
#[verifier::external_body]
pub(crate) fn guard_receiver<T>(
    receiver: tokio::sync::mpsc::Receiver<T>,
) -> tokio::sync::Mutex<tokio::sync::mpsc::Receiver<T>> {
    tokio::sync::Mutex::new(receiver)
}

/// `tokio::sync::mpsc::Sender::try_send`: hands the item to the channel if it
/// has room and a receiver is left, and drops it otherwise. The call never
/// waits and its outcome is discarded, so nothing is claimed.
#[verifier::external_body]
pub(crate) fn offer<T>(sender: &tokio::sync::mpsc::Sender<T>, item: T) {
    let _ = sender.try_send(item);
}

} // verus!
