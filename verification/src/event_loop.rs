//! The completion-reporting channel: the one legitimate cross-thread path
//! for "a task finished".
//!
//! The execution runtime sends task events into a channel; a dedicated
//! consumer loop receives them and awaits the completion each one names.
//! The channel endpoints here wrap the standard in-process channel; the
//! decision of what to do with each received event is `completion_action`.

use crate::runtime::RuntimeJoinHandle;
use crate::BronzeError;
use vstd::prelude::*;

verus! {

/// The lifecycle events a dispatched task reports.
pub enum TaskEvent {
    /// The task was accepted and waits for a worker.
    TaskPending,
    /// The task is running; its completion is observed through the handle.
    TaskRunning(RuntimeJoinHandle<()>),
    /// The task finished.
    TaskFinished,
}

/// The sending end of an event channel.
pub trait EventSender<T>: Send + Sized {
    /// Sends one event; fails when the receiving end is gone.
    fn send(&self, value: T) -> Result<(), BronzeError>;

    /// A second handle onto the same channel.
    fn clone_new(&self) -> Self;
}

/// The receiving end of an event channel.
pub trait EventReceiver<T> {
    /// The next event, or nothing once every sender is gone.
    fn recv(&mut self) -> Option<T>;
}

#[verifier::external_type_specification]
#[verifier::external_body]
#[verifier::reject_recursive_types(T)]
pub struct ExMpscSender<T>(std::sync::mpsc::Sender<T>);

#[verifier::external_type_specification]
#[verifier::external_body]
#[verifier::reject_recursive_types(T)]
pub struct ExMpscReceiver<T>(std::sync::mpsc::Receiver<T>);

/// The standard-channel sending end.
#[verifier::reject_recursive_types(T)]
pub struct StdEventSender<T> {
    sender: std::sync::mpsc::Sender<T>,
}

/// The standard-channel receiving end.
#[verifier::reject_recursive_types(T)]
pub struct StdEventReceiver<T> {
    recv: std::sync::mpsc::Receiver<T>,
}

/// Relies on std's `mpsc::channel`: a connected sender/receiver pair.
#[verifier::external_body]
pub fn std_event_channel<T>() -> (StdEventSender<T>, StdEventReceiver<T>) {
    let (tx, rx) = std::sync::mpsc::channel();
    (StdEventSender { sender: tx }, StdEventReceiver { recv: rx })
}

/// Relies on std's `mpsc::Sender::send`: delivery to the queue, succeeding
/// exactly when the receiver is still there.
#[verifier::external_body]
fn mpsc_send<T: Send>(sender: &std::sync::mpsc::Sender<T>, value: T) -> bool {
    sender.send(value).is_ok()
}

/// Relies on std's `mpsc::Sender::clone`: another handle onto the same queue.
#[verifier::external_body]
fn mpsc_clone<T>(sender: &std::sync::mpsc::Sender<T>) -> std::sync::mpsc::Sender<T> {
    sender.clone()
}

/// Relies on std's `mpsc::Receiver::recv`: blocks for the next event; `None`
/// once every sender is gone.
#[verifier::external_body]
fn mpsc_recv<T>(recv: &std::sync::mpsc::Receiver<T>) -> Option<T> {
    recv.recv().ok()
}

impl<T: Send + 'static> EventSender<T> for StdEventSender<T> {
    fn send(&self, value: T) -> Result<(), BronzeError> {
        if mpsc_send(&self.sender, value) {
            Ok(())
        } else {
            Err(BronzeError::ChannelClosed)
        }
    }

    fn clone_new(&self) -> Self {
        StdEventSender { sender: mpsc_clone(&self.sender) }
    }
}

impl<T> EventReceiver<T> for StdEventReceiver<T> {
    fn recv(&mut self) -> Option<T> {
        mpsc_recv(&self.recv)
    }
}

/// What the completion loop does with one received event: an asynchronous
/// completion ticket is awaited; everything else is already complete and is
/// dropped. A failing task never escalates out of the loop.
pub fn completion_action(event: &TaskEvent) -> (r: Option<u64>)
    ensures
        r == match *event {
            TaskEvent::TaskRunning(RuntimeJoinHandle::AsyncTicket(t)) => Some(t),
            _ => None::<u64>,
        },
{
    match event {
        TaskEvent::TaskRunning(RuntimeJoinHandle::AsyncTicket(t)) => Some(*t),
        TaskEvent::TaskRunning(_) => None,
        TaskEvent::TaskPending => None,
        TaskEvent::TaskFinished => None,
    }
}

} // verus!
