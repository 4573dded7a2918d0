//! The control event: one request from the service manager paired with the
//! write-once slot its acknowledgment must be sent through.

use vstd::prelude::*;

use crate::channels;
use crate::control::{AckResult, ControlRequest};

verus! {

/// One control request paired with its single-use acknowledgment slot.
///
/// The bridge makes exactly one of these per callback from the service
/// manager, whose thread then blocks on the slot's reading half. The
/// consumer must write exactly one acknowledgment into the slot: at most
/// one, because `complete` takes the event by value and the slot's writing
/// half — never cloned — goes into the send and is dropped with it; and at
/// least one on every consumer path, or the callback thread stays blocked
/// for good.
pub struct ServiceEvent {
    service_control: ControlRequest,
    completion_tx: std::sync::mpsc::Sender<AckResult>,
}

impl ServiceEvent {
    /// The request this event carries.
    pub closed spec fn request(self) -> ControlRequest {
        self.service_control
    }

    /// The writing half of the reply slot this event's acknowledgment goes
    /// through.
    pub closed spec fn slot(self) -> std::sync::mpsc::Sender<AckResult> {
        self.completion_tx
    }

    /// Pairs a control request with the reply slot made for it: the event
    /// stores the very writing half it is handed, so the acknowledgment it
    /// is completed with reaches the reading half that waits on that slot.
    pub fn new(
        service_control: ControlRequest,
        completion_tx: std::sync::mpsc::Sender<AckResult>,
    ) -> (event: ServiceEvent)
        ensures
            event.request() == service_control,
            event.slot() == completion_tx,
    {
        ServiceEvent { service_control, completion_tx }
    }

    /// Returns the carried request; side-effect free, callable any number
    /// of times.
    pub fn service_control(&self) -> (request: ControlRequest)
        ensures
            request == self.request(),
    {
        self.service_control
    }

    /// Writes `result` into the reply slot, consuming the event, so the slot
    /// can never be written twice. Returns whether the waiting side was still
    /// there to receive it; a lost acknowledgment is no error here, but the
    /// caller should diagnose it.
    pub fn complete(self, result: AckResult) -> (delivered: bool) {
        channels::send_reply(self.completion_tx, result).is_ok()
    }
}

} // verus!
