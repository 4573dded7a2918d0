//! A bridge between an operating system's service manager and an
//! asynchronously scheduled server task.
//!
//! The service manager delivers lifecycle control requests (interrogate,
//! stop, and an open set of other codes) synchronously, on a thread of its
//! own, and waits for an acknowledgment before it delivers the next one.
//! The server work, by contrast, runs cooperatively on an async scheduler
//! and must be shut down gracefully. This crate holds the pieces that make
//! those two worlds meet: the control-event representation with its
//! write-once acknowledgment slot, the hand-off queue that carries events
//! from the callback thread to the async consumer, and the lifecycle state
//! machine that interprets each event and decides when the server must be
//! drained before a stop is acknowledged.

pub mod bridge;
pub mod channels;
pub mod control;
pub mod event;
pub mod lifecycle;
pub mod service;
