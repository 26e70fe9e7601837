//! The one-way message queues the workers communicate over: thin trusted
//! declarations of std's mpsc channel ends.  Nothing is assumed of delivery;
//! every contract of the workers speaks only of the values they compute and
//! the order in which they hand them to a queue.

use vstd::prelude::*;

verus! {

#[verifier::external_type_specification]
#[verifier::external_body]
#[verifier::reject_recursive_types(T)]
pub struct ExSender<T>(std::sync::mpsc::Sender<T>);

#[verifier::external_type_specification]
#[verifier::external_body]
#[verifier::reject_recursive_types(T)]
pub struct ExReceiver<T>(std::sync::mpsc::Receiver<T>);

/// Relies on std mpsc Sender::send: true means the receiving end was still
/// alive when the value was queued.
#[verifier::external_body]
pub fn channel_send<T>(tx: &std::sync::mpsc::Sender<T>, value: T) -> (ok: bool) {
    tx.send(value).is_ok()
}

/// Relies on std mpsc Receiver::recv: blocks for the next value; None once
/// every sender is dropped and the queue has drained.
#[verifier::external_body]
pub fn channel_recv<T>(rx: &std::sync::mpsc::Receiver<T>) -> (r: Option<T>) {
    rx.recv().ok()
}

} // verus!
