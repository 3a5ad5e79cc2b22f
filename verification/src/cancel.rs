//! The cancellation protocol: a worker is handed the receiving end of a
//! channel of its own, polls it without blocking before each blocking wait,
//! and stops on a stop request or when the sending end is gone.

use crate::common::KillSwitch;
use std::sync::mpsc::{Receiver, Sender};
use vstd::prelude::*;

verus! {

#[verifier::external_type_specification]
#[verifier::external_body]
#[verifier::reject_recursive_types(T)]
pub struct ExSender<T>(Sender<T>);

#[verifier::external_type_specification]
#[verifier::external_body]
#[verifier::reject_recursive_types(T)]
pub struct ExReceiver<T>(Receiver<T>);

/// `std::sync::mpsc::channel`: a new channel, as its sending and its
/// receiving end. Nothing is claimed of them.
pub assume_specification<T>[ std::sync::mpsc::channel::<T> ]() -> (ends: (Sender<T>, Receiver<T>));

/// `Sender::send`, with whether the value was taken: it is not once the
/// receiving end is gone. Nothing is claimed of the outcome.
#[verifier::external_body]
fn deliver(tx: &Sender<KillSwitch>, signal: KillSwitch) -> (delivered: bool) {
    tx.send(signal).is_ok()
}

/// What a worker finds when it polls its cancellation channel.
#[derive(Clone, Copy, Debug, PartialEq, Eq, Structural)]
pub enum KillPoll {
    /// A signal was waiting.
    Signal(KillSwitch),
    /// Nothing was waiting.
    Empty,
    /// The sending end is gone.
    Disconnected,
}

/// Whether a poll ends the worker: a stop request does, and so does the loss
/// of the sending end.
pub open spec fn stops(poll: KillPoll) -> bool {
    poll == KillPoll::Signal(KillSwitch::ON) || poll == KillPoll::Disconnected
}

/// Whether a poll ends the worker.
pub fn must_stop(poll: KillPoll) -> (r: bool)
    ensures
        r == stops(poll),
{
    match poll {
        KillPoll::Signal(KillSwitch::ON) => true,
        KillPoll::Disconnected => true,
        KillPoll::Signal(KillSwitch::OFF) => false,
        KillPoll::Empty => false,
    }
}

/// The signal that asks a worker to stop: the one on which its poll ends it.
pub fn stop_signal() -> (signal: KillSwitch)
    ensures
        signal == KillSwitch::ON,
        stops(KillPoll::Signal(signal)),
{
    KillSwitch::ON
}

/// What became of a stop request.
#[derive(Clone, Copy, Debug, PartialEq, Eq, Structural)]
pub enum StopOutcome {
    /// The request is in the worker's channel.
    Sent,
    /// The worker had already ended.
    WorkerGone,
    /// No worker was ever given a channel.
    NotSpawned,
}

/// Sends the stop signal through a worker's cancellation channel, where there
/// is one. A request that cannot be sent is reported and is no error.
pub fn request_stop(kill_tx: &Option<Sender<KillSwitch>>) -> (outcome: StopOutcome)
    ensures
        (outcome == StopOutcome::NotSpawned) == (kill_tx is None),
{
    match kill_tx {
        Some(tx) => {
            if deliver(tx, stop_signal()) {
                StopOutcome::Sent
            } else {
                StopOutcome::WorkerGone
            }
        },
        None => StopOutcome::NotSpawned,
    }
}

} // verus!
