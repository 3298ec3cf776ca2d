//! [`Await`] for some types of `std::sync`, and what the rest of the library
//! needs of its channels.
//!
//! The channels and the barrier are not verified here. Their types are opaque,
//! and of their functions only what is written down below is taken for
//! granted. What a channel delivers depends on what other threads do with its
//! other half, so nearly nothing is claimed of it: only that a value which
//! could not be sent comes back as it was.
use vstd::prelude::*;
use std::sync::mpsc::{Receiver, RecvError, SendError, Sender, SyncSender, TrySendError};
use std::sync::{Barrier, BarrierWaitResult};
use crate::Await;

verus! {

/// The receiving half of a channel of `std::sync::mpsc`, opaque to the verifier.
#[verifier::external_type_specification]
#[verifier::external_body]
#[verifier::reject_recursive_types(T)]
pub struct ExReceiver<T>(Receiver<T>);

/// The sending half of an unbounded channel of `std::sync::mpsc`, opaque to
/// the verifier.
#[verifier::external_type_specification]
#[verifier::external_body]
#[verifier::reject_recursive_types(T)]
pub struct ExSender<T>(Sender<T>);

/// The sending half of a bounded channel of `std::sync::mpsc`, opaque to the
/// verifier.
#[verifier::external_type_specification]
#[verifier::external_body]
#[verifier::reject_recursive_types(T)]
pub struct ExSyncSender<T>(SyncSender<T>);

/// The error of `Receiver::recv`: every sender is gone and nothing is left to
/// receive.
#[verifier::external_type_specification]
#[verifier::external_body]
pub struct ExRecvError(RecvError);

/// A barrier of `std::sync`, opaque to the verifier.
#[verifier::external_type_specification]
#[verifier::external_body]
pub struct ExBarrier(Barrier);

/// What `Barrier::wait` returns, opaque to the verifier.
#[verifier::external_type_specification]
#[verifier::external_body]
pub struct ExBarrierWaitResult(BarrierWaitResult);

/// `std::sync::mpsc::channel` makes the two halves of a channel without a
/// bound. Nothing is claimed of them.
pub assume_specification<T>[ std::sync::mpsc::channel::<T> ]() -> (halves: (Sender<T>, Receiver<T>));

/// `std::sync::mpsc::sync_channel` makes the two halves of a channel that
/// buffers up to `bound` values. Nothing is claimed of them.
pub assume_specification<T>[ std::sync::mpsc::sync_channel::<T> ](bound: usize) -> (halves: (
    SyncSender<T>,
    Receiver<T>,
));

/// `Sender::clone` makes another handle to the sending half of the same
/// channel. Nothing is claimed of it.
pub assume_specification<T>[ <Sender<T> as Clone>::clone ](tx: &Sender<T>) -> (other: Sender<T>);

/// `SyncSender::clone` makes another handle to the sending half of the same
/// channel. Nothing is claimed of it.
pub assume_specification<T>[ <SyncSender<T> as Clone>::clone ](tx: &SyncSender<T>) -> (other:
    SyncSender<T>);

/// `Receiver::recv` blocks until a value arrives or every sender is gone.
/// Which of the two happens, and which value arrives, is decided by the other
/// threads: nothing is claimed of the result.
pub assume_specification<T>[ Receiver::<T>::recv ](rx: &Receiver<T>) -> (received: Result<
    T,
    RecvError,
>);

/// `Barrier::wait` blocks until all threads of the barrier have arrived.
/// Which of them is told that it leads is not determined: nothing is claimed
/// of the result.
pub assume_specification[ Barrier::wait ](barrier: &Barrier) -> (arrived: BarrierWaitResult);

/// `Sender::send` puts `value` into the channel and never blocks. It fails
/// only when the receiver is gone, and then its error carries the value that
/// was to be sent, which is what comes back here; `None` says that the value
/// was sent.
#[verifier::external_body]
pub(crate) fn send<T>(tx: &Sender<T>, value: T) -> (back: Option<T>)
    ensures
        back matches Some(v) ==> v == value,
{
    match tx.send(value) {
        Ok(()) => None,
        Err(SendError(v)) => Some(v),
    }
}

/// What became of a value that was offered to a bounded channel without
/// waiting.
pub enum Offer<T> {
    /// The channel took the value.
    Taken,
    /// The buffer was full; the value comes back.
    Full(T),
    /// The receiver is gone; the value comes back.
    Disconnected(T),
}

impl<T> Offer<T> {
    /// The value that comes back to the sender, if the channel did not take
    /// it.
    pub fn handed_back(self) -> (back: Option<T>)
        ensures
            back == match self {
                Offer::Taken => None,
                Offer::Full(value) => Some(value),
                Offer::Disconnected(value) => Some(value),
            },
    {
        match self {
            Offer::Taken => None,
            Offer::Full(value) => Some(value),
            Offer::Disconnected(value) => Some(value),
        }
    }
}

/// `SyncSender::try_send` offers `value` to the channel and never blocks.
/// Whether the channel takes it depends on the other threads; when it does
/// not, the error carries the value that was offered, and so does the result
/// here.
#[verifier::external_body]
pub(crate) fn offer<T>(tx: &SyncSender<T>, value: T) -> (offer: Offer<T>)
    ensures
        match offer {
            Offer::Taken => true,
            Offer::Full(back) => back == value,
            Offer::Disconnected(back) => back == value,
        },
{
    match tx.try_send(value) {
        Ok(()) => Offer::Taken,
        Err(TrySendError::Full(back)) => Offer::Full(back),
        Err(TrySendError::Disconnected(back)) => Offer::Disconnected(back),
    }
}

/// A receiver is awaited by blocking on it until a value arrives or every
/// sender is gone. It may yield any result.
impl<T> Await<Result<T, RecvError>> for Receiver<T> {
    open spec fn awaitable(&self) -> bool {
        true
    }

    open spec fn yields(&self, value: Result<T, RecvError>) -> bool {
        true
    }

    fn force(self) -> (value: Result<T, RecvError>) {
        self.recv()
    }
}

/// A borrowed receiver is awaited like an owned one, and can be awaited again.
impl<'a, T> Await<Result<T, RecvError>> for &'a Receiver<T> {
    open spec fn awaitable(&self) -> bool {
        true
    }

    open spec fn yields(&self, value: Result<T, RecvError>) -> bool {
        true
    }

    fn force(self) -> (value: Result<T, RecvError>) {
        self.recv()
    }
}

/// A barrier is awaited by waiting at it until all its threads have arrived.
/// It may yield any result.
impl<'a> Await<BarrierWaitResult> for &'a Barrier {
    open spec fn awaitable(&self) -> bool {
        true
    }

    open spec fn yields(&self, value: BarrierWaitResult) -> bool {
        true
    }

    fn force(self) -> (value: BarrierWaitResult) {
        self.wait()
    }
}

} // verus!
