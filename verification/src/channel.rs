//! The queues that carry commands, replies and notifications between threads.
//!
//! The queues are `flume` channels. What is in a channel at any moment depends
//! on what other threads have sent and taken, so nothing is claimed here about
//! what a call returns: callers are verified for every outcome.

use vstd::prelude::*;

verus! {

/// The sending end of a `flume` channel, carried as an opaque value.
#[verifier::external_type_specification]
#[verifier::external_body]
#[verifier::reject_recursive_types(T)]
pub struct ExSender<T>(flume::Sender<T>);

/// The receiving end of a `flume` channel, carried as an opaque value.
#[verifier::external_type_specification]
#[verifier::external_body]
#[verifier::reject_recursive_types(T)]
pub struct ExReceiver<T>(flume::Receiver<T>);

/// What one poll of a queue found.
pub enum Polled<T> {
    /// A message was waiting; it has been taken off the queue.
    Ready(T),
    /// Nothing was waiting.
    Empty,
    /// Nothing was waiting, and nothing will come: every sender is gone.
    Disconnected,
}

/// Calls `flume::unbounded`, which makes a channel without a limit on the
/// messages it holds and returns its two ends. Nothing is claimed of them.
#[verifier::external_body]
pub(crate) fn unbounded<T>() -> (ends: (flume::Sender<T>, flume::Receiver<T>)) {
    flume::unbounded()
}

/// Calls `flume::bounded`, which makes a channel that holds at most `cap`
/// messages and returns its two ends. Nothing is claimed of them.
#[verifier::external_body]
pub(crate) fn bounded<T>(cap: usize) -> (ends: (flume::Sender<T>, flume::Receiver<T>)) {
    flume::bounded(cap)
}

/// Calls `flume::Sender::send` and returns whether it took the message. It
/// fails when every receiver is gone; on a channel that is full it waits for
/// room. Nothing is claimed of the result.
#[verifier::external_body]
pub(crate) fn send<T>(tx: &flume::Sender<T>, msg: T) -> (delivered: bool) {
    tx.send(msg).is_ok()
}

/// Calls `flume::Receiver::try_recv`, which never waits, and tells its three
/// outcomes apart. Nothing is claimed of which one comes.
#[verifier::external_body]
pub(crate) fn try_recv<T>(rx: &flume::Receiver<T>) -> (polled: Polled<T>) {
    match rx.try_recv() {
        Ok(msg) => Polled::Ready(msg),
        Err(flume::TryRecvError::Empty) => Polled::Empty,
        Err(flume::TryRecvError::Disconnected) => Polled::Disconnected,
    }
}

/// Calls `flume::Receiver::recv`, which waits until a message arrives or every
/// sender is gone, and returns the message if there was one. Nothing is
/// claimed of the result.
#[verifier::external_body]
pub(crate) fn recv<T>(rx: &flume::Receiver<T>) -> (msg: Option<T>) {
    rx.recv().ok()
}

} // verus!
