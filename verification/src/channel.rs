//! Bounded channels from the `futures` crate, declared for use by the
//! verified core.
//!
//! The sender end is what the core holds on to: the broadcast side uses the
//! non-blocking send as its liveness probe, so a full buffer and a dropped
//! receiver look the same and lead to the same eviction. Nothing is assumed
//! about when a send succeeds.

use vstd::prelude::*;

verus! {

#[verifier::external_type_specification]
#[verifier::external_body]
#[verifier::reject_recursive_types(T)]
/// The sender half of a bounded `futures` channel.
pub struct ExSender<T>(futures::channel::mpsc::Sender<T>);

#[verifier::external_type_specification]
#[verifier::external_body]
#[verifier::reject_recursive_types(T)]
/// The receiver half of a bounded `futures` channel.
pub struct ExReceiver<T>(futures::channel::mpsc::Receiver<T>);

/// Relies on `futures::channel::mpsc::channel`: a fresh bounded sender and
/// receiver pair with the given buffer capacity.
#[verifier::external_body]
pub fn channel_new<T>(capacity: usize) -> (futures::channel::mpsc::Sender<T>,
    futures::channel::mpsc::Receiver<T>) {
    futures::channel::mpsc::channel(capacity)
}

/// Relies on `futures::channel::mpsc::Sender::try_send`: the value is
/// delivered exactly when the result is `true`; the call fails when the
/// buffer is full or the receiver is gone, and nothing is assumed about
/// which outcome occurs.
#[verifier::external_body]
pub fn sender_try_send<T>(tx: &mut futures::channel::mpsc::Sender<T>, value: T) -> bool {
    tx.try_send(value).is_ok()
}

/// Relies on `futures::channel::mpsc::Sender::clone`: another sender for the
/// same channel.
#[verifier::external_body]
pub fn sender_clone<T>(tx: &futures::channel::mpsc::Sender<T>) -> futures::channel::mpsc::Sender<
    T,
> {
    tx.clone()
}

} // verus!
