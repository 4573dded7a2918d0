//! The trusted boundary to the runtime primitives the bridge is built on:
//! std's mpsc channel for the per-event reply slot (its blocking receive
//! cannot panic, which the callback thread's wait must not), tokio's
//! unbounded channel for the hand-off queue, tokio's task join handle, and
//! tokio-util's cancellation token. Everything verified about the crate
//! rests on the contracts stated here, each backed by the named function
//! of the outside crate or of std.

use vstd::prelude::*;

use crate::control::AckResult;
use crate::event::ServiceEvent;

verus! {

#[verifier::external_type_specification]
#[verifier::external_body]
#[verifier::reject_recursive_types(T)]
pub struct ExReplySender<T>(std::sync::mpsc::Sender<T>);

#[verifier::external_type_specification]
#[verifier::external_body]
#[verifier::reject_recursive_types(T)]
pub struct ExReplyReceiver<T>(std::sync::mpsc::Receiver<T>);

#[verifier::external_type_specification]
#[verifier::external_body]
#[verifier::reject_recursive_types(T)]
pub struct ExUnboundedSender<T>(tokio::sync::mpsc::UnboundedSender<T>);

#[verifier::external_type_specification]
#[verifier::external_body]
#[verifier::reject_recursive_types(T)]
pub struct ExUnboundedReceiver<T>(tokio::sync::mpsc::UnboundedReceiver<T>);

#[verifier::external_type_specification]
#[verifier::external_body]
#[verifier::reject_recursive_types(T)]
pub struct ExJoinHandle<T>(tokio::task::JoinHandle<T>);

#[verifier::external_type_specification]
#[verifier::external_body]
pub struct ExCancellationToken(tokio_util::sync::CancellationToken);

#[verifier::external_type_specification]
#[verifier::external_body]
pub struct ExJoinError(tokio::task::JoinError);

/// Relies on std::sync::mpsc::channel: makes a fresh reply slot, as a paired
/// writing and reading half. The slot is made single-use by ownership: the
/// writing half is never cloned, and the one send it carries consumes the
/// event that holds it.
#[verifier::external_body]
pub(crate) fn reply_channel() -> (
    std::sync::mpsc::Sender<AckResult>,
    std::sync::mpsc::Receiver<AckResult>,
) {
    std::sync::mpsc::channel()
}

/// Relies on std::sync::mpsc::Sender::send: writes the value for the reading
/// half to pick up; it never blocks and never panics. When the reading half
/// is already gone the same value comes back as the error. The writing half
/// is taken by value and dropped here, so nothing can write the slot again.
#[verifier::external_body]
pub(crate) fn send_reply(
    slot: std::sync::mpsc::Sender<AckResult>,
    ack: AckResult,
) -> (r: Result<(), AckResult>)
    ensures
        r matches Err(a) ==> a == ack,
{
    slot.send(ack).map_err(|e| e.0)
}

/// Relies on std::sync::mpsc::Receiver::recv: parks the calling thread until
/// a value arrives (returned as `Some`) or every writing half is dropped
/// without sending one (`None`). It never panics, whatever thread calls it —
/// a true thread-blocking wait, meant for the callback thread, which has no
/// cooperative scheduler of its own.
#[verifier::external_body]
pub(crate) fn recv_reply(slot: std::sync::mpsc::Receiver<AckResult>) -> Option<AckResult> {
    slot.recv().ok()
}

/// Relies on tokio::sync::mpsc::unbounded_channel: makes the hand-off queue
/// that carries control events to the consumer in arrival order, as a paired
/// sending and receiving half.
#[verifier::external_body]
pub(crate) fn event_channel() -> (
    tokio::sync::mpsc::UnboundedSender<ServiceEvent>,
    tokio::sync::mpsc::UnboundedReceiver<ServiceEvent>,
) {
    tokio::sync::mpsc::unbounded_channel()
}

/// Relies on tokio::sync::mpsc::UnboundedSender::send: enqueues the event
/// without waiting (the queue is unbounded). When the receiving half is
/// closed the same event comes back as the error.
#[verifier::external_body]
pub(crate) fn send_event(
    queue: &tokio::sync::mpsc::UnboundedSender<ServiceEvent>,
    event: ServiceEvent,
) -> (r: Result<(), ServiceEvent>)
    ensures
        r matches Err(e) ==> e == event,
{
    queue.send(event).map_err(|e| e.0)
}

/// Relies on tokio_util::sync::CancellationToken::cancel: raises the shutdown
/// signal that this token and every clone of it observe.
#[verifier::external_body]
pub(crate) fn cancel_token(token: &tokio_util::sync::CancellationToken) {
    token.cancel();
}

} // verus!
