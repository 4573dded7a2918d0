//! The hand-off between the service manager's callback thread and the async
//! consumer: each callback becomes one control event pushed into a FIFO
//! queue, and the callback thread blocks until that event's acknowledgment
//! slot is filled.

use vstd::prelude::*;

use crate::channels;
use crate::control::{AckResult, ControlRequest};
use crate::event::ServiceEvent;

verus! {

/// Failure code acknowledged when the hand-off queue's consumer was gone
/// before the event could be enqueued: the async side has already exited.
pub const HANDOFF_LOST: u32 = 128;

/// Failure code acknowledged when the event was enqueued but its reply slot
/// was dropped before an acknowledgment was written into it.
pub const REPLY_LOST: u32 = 127;

/// Owns the producing half of the hand-off queue that carries control events
/// from the operating-system callback thread to the async consumer.
pub struct EventBridge {
    event_tx: tokio::sync::mpsc::UnboundedSender<ServiceEvent>,
}

impl EventBridge {
    /// Makes the bridge and hands back the consuming half of its queue. The
    /// consumer pulls the events, one per `accept` call ever made, in strict
    /// arrival order; the queue ends only when the bridge is dropped.
    pub fn new() -> (EventBridge, tokio::sync::mpsc::UnboundedReceiver<ServiceEvent>) {
        let (event_tx, event_rx) = channels::event_channel();
        (EventBridge { event_tx }, event_rx)
    }

    /// Turns what the reply slot yielded into the acknowledgment handed to
    /// the service manager: the value the consumer wrote when there is one,
    /// and `Failure(REPLY_LOST)` when the slot was dropped unwritten.
    pub fn reply_to_ack(reply: Option<AckResult>) -> (ack: AckResult)
        ensures
            reply matches Some(written) ==> ack == written,
            reply is None ==> ack == AckResult::Failure(REPLY_LOST),
    {
        match reply {
            Some(written) => written,
            None => AckResult::Failure(REPLY_LOST),
        }
    }

    /// Called synchronously on the service manager's callback thread: makes a
    /// fresh event with a fresh reply slot, enqueues it, and blocks until the
    /// consumer fills the slot. When the consumer is already gone the call
    /// resolves at once with `Failure(HANDOFF_LOST)` instead of hanging; when
    /// the slot is dropped unwritten it resolves with `Failure(REPLY_LOST)`;
    /// otherwise the acknowledgment is exactly the value the consumer wrote,
    /// per `reply_to_ack`.
    pub fn accept(&self, control: ControlRequest) -> AckResult {
        let (completion_tx, completion_rx) = channels::reply_channel();
        let event = ServiceEvent::new(control, completion_tx);
        match channels::send_event(&self.event_tx, event) {
            Ok(()) => Self::reply_to_ack(channels::recv_reply(completion_rx)),
            Err(_) => AckResult::Failure(HANDOFF_LOST),
        }
    }
}

} // verus!
