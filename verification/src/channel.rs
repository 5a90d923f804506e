//! The one-shot delivery channel between a [`crate::Sender`] and its
//! [`crate::Promise`], carried by `std::sync::mpsc`.
//!
//! Everything here is trusted: what a receive yields depends on what another
//! thread did and when, so none of these items promises a particular outcome.
use vstd::prelude::*;

verus! {

/// The sending half of a `std::sync::mpsc` channel, carried opaquely.
#[verifier::external_type_specification]
#[verifier::external_body]
#[verifier::reject_recursive_types(T)]
pub struct ExMpscSender<T>(std::sync::mpsc::Sender<T>);

/// The receiving half of a `std::sync::mpsc` channel, carried opaquely.
#[verifier::external_type_specification]
#[verifier::external_body]
#[verifier::reject_recursive_types(T)]
pub struct ExMpscReceiver<T>(std::sync::mpsc::Receiver<T>);

/// What one attempt to take the promised value out of the channel gave.
pub enum RecvOutcome<T> {
    /// A value was waiting and has been taken.
    Received(T),
    /// No value yet, and the sender is still alive.
    Empty,
    /// The sender was dropped without sending a value.
    Disconnected,
}

/// Calls `std::sync::mpsc::channel`, which creates a connected sender and
/// receiver. Nothing is claimed of the pair: the contracts of this crate do
/// not track which receiver a sender is connected to.
#[verifier::external_body]
pub(crate) fn new_channel<T>() -> (std::sync::mpsc::Sender<T>, std::sync::mpsc::Receiver<T>) {
    std::sync::mpsc::channel()
}

/// Calls `std::sync::mpsc::Sender::send`, and reports whether it returned
/// `Ok`. Whether it does depends on whether the receiver is still alive,
/// which another thread decides, so nothing is claimed of the result.
#[verifier::external_body]
pub(crate) fn channel_send<T>(tx: &std::sync::mpsc::Sender<T>, value: T) -> (delivered: bool) {
    tx.send(value).is_ok()
}

/// Calls `std::sync::mpsc::Receiver::try_recv`, which never blocks, and tells
/// its three outcomes apart. Which outcome comes depends on the sending
/// thread, so nothing is claimed of it.
#[verifier::external_body]
pub(crate) fn channel_try_recv<T>(rx: &std::sync::mpsc::Receiver<T>) -> (outcome: RecvOutcome<T>) {
    match rx.try_recv() {
        Ok(value) => RecvOutcome::Received(value),
        Err(std::sync::mpsc::TryRecvError::Empty) => RecvOutcome::Empty,
        Err(std::sync::mpsc::TryRecvError::Disconnected) => RecvOutcome::Disconnected,
    }
}

/// Calls `std::sync::mpsc::Receiver::recv`, which blocks until a value
/// arrives (`Some`) or the sender is dropped (`None`). It does not return
/// while the sender lives and sends nothing. The one claim, from the
/// documentation of `recv`, is that it never reports an empty channel.
#[verifier::external_body]
pub(crate) fn channel_recv<T>(rx: &std::sync::mpsc::Receiver<T>) -> (outcome: RecvOutcome<T>)
    ensures
        !(outcome is Empty),
{
    match rx.recv() {
        Ok(value) => RecvOutcome::Received(value),
        Err(std::sync::mpsc::RecvError) => RecvOutcome::Disconnected,
    }
}

/// Evidence of one non-blocking look into a channel, and of what it gave.
/// Only [`peek`] makes one, so holding one shows that the channel was
/// looked into.
pub struct Peeked<T> {
    outcome: Ghost<RecvOutcome<T>>,
}

impl<T> Peeked<T> {
    /// What the look into the channel gave.
    pub closed spec fn outcome(&self) -> RecvOutcome<T> {
        self.outcome@
    }
}

/// Evidence of one blocking wait on a channel, and of what it gave. Only
/// [`wait`] makes one.
pub struct Waited<T> {
    outcome: Ghost<RecvOutcome<T>>,
}

impl<T> Waited<T> {
    /// What the wait on the channel gave.
    pub closed spec fn outcome(&self) -> RecvOutcome<T> {
        self.outcome@
    }
}

/// Looks into the channel once without blocking; gives what it found and
/// the evidence of the look.
pub(crate) fn peek<T>(rx: &std::sync::mpsc::Receiver<T>) -> (found: (RecvOutcome<T>, Peeked<T>))
    ensures
        found.1.outcome() == found.0,
{
    let outcome = channel_try_recv(rx);
    let witness = Peeked { outcome: Ghost(outcome) };
    (outcome, witness)
}

/// Waits on the channel until a value arrives or the sender is gone; gives
/// what came and the evidence of the wait.
pub(crate) fn wait<T>(rx: &std::sync::mpsc::Receiver<T>) -> (came: (RecvOutcome<T>, Waited<T>))
    ensures
        came.1.outcome() == came.0,
        !(came.0 is Empty),
{
    let outcome = channel_recv(rx);
    let witness = Waited { outcome: Ghost(outcome) };
    (outcome, witness)
}

} // verus!
