use vstd::prelude::*;

use crate::timer::{TimerCommand, TimerEvent};

verus! {

#[verifier::external_type_specification]
#[verifier::external_body]
#[verifier::reject_recursive_types(T)]
pub struct ExSender<T>(std::sync::mpsc::Sender<T>);

#[verifier::external_type_specification]
#[verifier::external_body]
#[verifier::reject_recursive_types(T)]
pub struct ExReceiver<T>(std::sync::mpsc::Receiver<T>);

/// The caller's ends of a running timer's two channels: commands go in,
/// snapshots come out.
pub struct TimerHandle {
    pub cmd_tx: std::sync::mpsc::Sender<TimerCommand>,
    pub evt_rx: std::sync::mpsc::Receiver<TimerEvent>,
}

/// What one non-blocking look at the event channel found.
#[derive(Clone, Copy, Debug, PartialEq, Eq, Structural)]
pub enum EventPoll {
    /// A snapshot was waiting.
    Received(TimerEvent),
    /// Nothing was waiting.
    Empty,
    /// The runner has ended and dropped its end.
    Disconnected,
}

/// Relies on `std::sync::mpsc::Sender::send`, which hands the command over
/// without blocking. Whether the runner is still there to take it is up to the
/// other thread, so nothing is promised; a failed send is ignored.
#[verifier::external_body]
pub(crate) fn send_command(tx: &std::sync::mpsc::Sender<TimerCommand>, cmd: TimerCommand) {
    let _ = tx.send(cmd);
}

/// Relies on `std::sync::mpsc::Receiver::try_recv`, which never blocks. What it
/// finds depends on the runner thread, so nothing is promised of it.
#[verifier::external_body]
pub(crate) fn try_receive(rx: &std::sync::mpsc::Receiver<TimerEvent>) -> (r: EventPoll) {
    match rx.try_recv() {
        Ok(evt) => EventPoll::Received(evt),
        Err(std::sync::mpsc::TryRecvError::Empty) => EventPoll::Empty,
        Err(std::sync::mpsc::TryRecvError::Disconnected) => EventPoll::Disconnected,
    }
}

} // verus!
