//! The control requests the service manager delivers and the acknowledgments
//! it expects back.

use vstd::prelude::*;

verus! {

/// A lifecycle command delivered by the host operating system's service
/// manager. The set of codes is defined by the host; anything the service
/// does not specifically handle is passed through opaquely as `Other`.
#[derive(Clone, Copy, Debug, PartialEq, Eq, Structural)]
pub enum ControlRequest {
    /// Report current status; must never disturb the running service.
    Interrogate,
    /// Shut the service down gracefully.
    Stop,
    /// A control code the service does not recognize, carried unchanged.
    Other(u32),
}

/// The synchronous acknowledgment the service manager receives for one
/// control request. Written exactly once per event.
#[derive(Clone, Copy, Debug, PartialEq, Eq, Structural)]
pub enum AckResult {
    /// The request was understood and handled.
    Accepted,
    /// The request is not one this service implements.
    NotSupported,
    /// Handling failed; the code says why.
    Failure(u32),
}

} // verus!
