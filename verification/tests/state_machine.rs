use std::sync::atomic::{AtomicUsize, Ordering};
use std::sync::Arc;

use service_handler::control::{AckResult, ControlRequest};
use service_handler::event::ServiceEvent;
use service_handler::lifecycle::{Lifecycle, LifecycleState, RespondOutcome, DRAIN_FAILED};
use tokio_util::sync::CancellationToken;

fn runtime() -> tokio::runtime::Runtime {
    tokio::runtime::Builder::new_multi_thread().build().unwrap()
}

#[test]
fn stop_twice_accepted_drained_once() {
    let rt = runtime();
    rt.block_on(async {
        let mut machine = Lifecycle::new();
        assert!(machine.well_formed());
        assert_eq!(machine.current_state(), LifecycleState::Starting);

        let token = CancellationToken::new();
        let drains = Arc::new(AtomicUsize::new(0));
        let drains_in_task = drains.clone();
        let task_token = token.clone();
        let server = tokio::spawn(async move {
            task_token.cancelled().await;
            drains_in_task.fetch_add(1, Ordering::SeqCst);
        });
        machine.on_started(token, server);
        assert!(machine.well_formed());
        assert_eq!(machine.current_state(), LifecycleState::Running);

        let (first_tx, first_rx) = std::sync::mpsc::channel();
        let first_stop = ServiceEvent::new(ControlRequest::Stop, first_tx);
        match machine.respond(first_stop) {
            RespondOutcome::Drain(event, handle) => {
                let drain_ok = handle.await.is_ok();
                let (ack, delivered) = machine.resolve_drain(event, drain_ok);
                assert!(delivered);
                assert_eq!(ack, AckResult::Accepted);
            }
            RespondOutcome::Done(..) => panic!("the first stop must drain the server"),
        }
        assert_eq!(first_rx.recv().unwrap(), AckResult::Accepted);
        assert_eq!(machine.current_state(), LifecycleState::Stopped);

        let (second_tx, second_rx) = std::sync::mpsc::channel();
        let second_stop = ServiceEvent::new(ControlRequest::Stop, second_tx);
        match machine.respond(second_stop) {
            RespondOutcome::Done(ack, delivered) => {
                assert!(delivered);
                assert_eq!(ack, AckResult::Accepted);
            }
            RespondOutcome::Drain(..) => panic!("a repeated stop must not drain again"),
        }
        assert_eq!(second_rx.recv().unwrap(), AckResult::Accepted);
        assert_eq!(machine.current_state(), LifecycleState::Stopped);
        assert_eq!(drains.load(Ordering::SeqCst), 1);
        assert!(machine.is_stopped());
    });
}

#[test]
fn interrogate_any_number_never_disturbs() {
    let rt = runtime();
    rt.block_on(async {
        let mut machine = Lifecycle::new();
        let token = CancellationToken::new();
        let task_token = token.clone();
        let server = tokio::spawn(async move {
            task_token.cancelled().await;
        });
        machine.on_started(token, server);

        for _ in 0..5 {
            let (reply_tx, reply_rx) = std::sync::mpsc::channel();
            let event = ServiceEvent::new(ControlRequest::Interrogate, reply_tx);
            match machine.respond(event) {
                RespondOutcome::Done(ack, delivered) => {
                    assert!(delivered);
                    assert_eq!(ack, AckResult::Accepted);
                }
                RespondOutcome::Drain(..) => panic!("an interrogate must never drain"),
            }
            assert_eq!(reply_rx.recv().unwrap(), AckResult::Accepted);
            assert_eq!(machine.current_state(), LifecycleState::Running);
            assert!(machine.well_formed());
        }

        // The server handle was never touched: a stop still drains cleanly.
        let (stop_tx, stop_rx) = std::sync::mpsc::channel();
        let stop = ServiceEvent::new(ControlRequest::Stop, stop_tx);
        match machine.respond(stop) {
            RespondOutcome::Drain(event, handle) => {
                let drain_ok = handle.await.is_ok();
                assert!(drain_ok);
                let (ack, _) = machine.resolve_drain(event, drain_ok);
                assert_eq!(ack, AckResult::Accepted);
            }
            RespondOutcome::Done(..) => panic!("stop while running must drain"),
        }
        assert_eq!(stop_rx.recv().unwrap(), AckResult::Accepted);
    });
}

#[test]
fn unrecognized_code_not_supported_state_unchanged() {
    let rt = runtime();
    rt.block_on(async {
        let mut machine = Lifecycle::new();
        let token = CancellationToken::new();
        let task_token = token.clone();
        let server = tokio::spawn(async move {
            task_token.cancelled().await;
        });
        machine.on_started(token, server);

        let (reply_tx, reply_rx) = std::sync::mpsc::channel();
        let event = ServiceEvent::new(ControlRequest::Other(200), reply_tx);
        match machine.respond(event) {
            RespondOutcome::Done(ack, delivered) => {
                assert!(delivered);
                assert_eq!(ack, AckResult::NotSupported);
            }
            RespondOutcome::Drain(..) => panic!("an unrecognized code must never drain"),
        }
        assert_eq!(reply_rx.recv().unwrap(), AckResult::NotSupported);
        assert_eq!(machine.current_state(), LifecycleState::Running);

        // Still running: a stop afterwards drains as usual.
        let (stop_tx, stop_rx) = std::sync::mpsc::channel();
        let stop = ServiceEvent::new(ControlRequest::Stop, stop_tx);
        match machine.respond(stop) {
            RespondOutcome::Drain(event, handle) => {
                let drain_ok = handle.await.is_ok();
                let (ack, _) = machine.resolve_drain(event, drain_ok);
                assert_eq!(ack, AckResult::Accepted);
            }
            RespondOutcome::Done(..) => panic!("stop while running must drain"),
        }
        assert_eq!(stop_rx.recv().unwrap(), AckResult::Accepted);
    });
}

#[test]
fn failed_drain_still_acknowledges() {
    let rt = runtime();
    rt.block_on(async {
        let mut machine = Lifecycle::new();
        let token = CancellationToken::new();
        let task_token = token.clone();
        let server = tokio::spawn(async move {
            task_token.cancelled().await;
            panic!("server task crashed during shutdown");
        });
        machine.on_started(token, server);

        let (reply_tx, reply_rx) = std::sync::mpsc::channel();
        let stop = ServiceEvent::new(ControlRequest::Stop, reply_tx);
        match machine.respond(stop) {
            RespondOutcome::Drain(event, handle) => {
                let drain_ok = handle.await.is_ok();
                assert!(!drain_ok);
                let (ack, delivered) = machine.resolve_drain(event, drain_ok);
                assert!(delivered);
                assert_eq!(ack, AckResult::Failure(DRAIN_FAILED));
            }
            RespondOutcome::Done(..) => panic!("stop while running must drain"),
        }
        // The acknowledgment slot was completed even though the drain failed.
        assert_eq!(reply_rx.recv().unwrap(), AckResult::Failure(DRAIN_FAILED));
        assert_eq!(machine.current_state(), LifecycleState::Stopped);
    });
}
