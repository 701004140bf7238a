//! The admission state machine and the shutdown coordinator.

use identicon_server::admission::{
    accept, has_timed_out, release, AdmissionConfig, AdmissionDecision, AdmissionState,
};
use identicon_server::errors::{classify, AppError};
use identicon_server::shutdown::{
    accept_allowed, shutdown_step, LifecycleEvent, LifecyclePhase, ShutdownState,
};

fn small_stack() -> AdmissionConfig {
    AdmissionConfig { concurrency_cap: 2, queue_ceiling: 1, timeout_ms: 5000 }
}

#[test]
fn arrivals_beyond_both_ceilings_are_shed() {
    let cfg = small_stack();
    let mut s = AdmissionState { in_flight: 0, queued: 0 };
    let mut decisions = Vec::new();
    for _ in 0..4 {
        let (next, d) = accept(&cfg, &s);
        s = next;
        decisions.push(d);
    }
    assert_eq!(
        decisions,
        vec![
            AdmissionDecision::Dispatch,
            AdmissionDecision::Dispatch,
            AdmissionDecision::Enqueue,
            AdmissionDecision::Shed,
        ]
    );
    assert_eq!(s, AdmissionState { in_flight: 2, queued: 1 });
}

#[test]
fn shed_request_is_answered_overloaded() {
    let cfg = AdmissionConfig { concurrency_cap: 1, queue_ceiling: 0, timeout_ms: 5000 };
    let full = AdmissionState { in_flight: 1, queued: 0 };
    let (unchanged, d) = accept(&cfg, &full);
    assert_eq!(d, AdmissionDecision::Shed);
    assert_eq!(unchanged, full);
    let (status, message) = classify(&AppError::Overloaded);
    assert_eq!(status, 503);
    assert_eq!(message, "service is overloaded, try again later");
}

#[test]
fn release_frees_a_slot_and_promotes_the_queue() {
    let cfg = small_stack();
    let s = AdmissionState { in_flight: 2, queued: 1 };
    let after = release(&cfg, &s);
    assert_eq!(after, AdmissionState { in_flight: 2, queued: 0 });
    let empty_queue = release(&cfg, &after);
    assert_eq!(empty_queue, AdmissionState { in_flight: 1, queued: 0 });
    let (_, d) = accept(&cfg, &empty_queue);
    assert_eq!(d, AdmissionDecision::Dispatch);
}

#[test]
fn recommended_stack_matches_deployment() {
    let cfg = AdmissionConfig::recommended();
    assert_eq!(cfg.concurrency_cap, 1024);
    assert_eq!(cfg.queue_ceiling, 0);
    assert_eq!(cfg.timeout_ms, 10_000);
}

#[test]
fn timeout_is_reached_exactly_at_the_budget() {
    let cfg = small_stack();
    assert!(!has_timed_out(&cfg, 0));
    assert!(!has_timed_out(&cfg, 4999));
    assert!(has_timed_out(&cfg, 5000));
    assert!(has_timed_out(&cfg, u64::MAX));
    let (status, message) = classify(&AppError::TimedOut);
    assert_eq!(status, 408);
    assert_eq!(message, "request timed out");
}

#[test]
fn shutdown_drains_before_stopping() {
    let mut s = ShutdownState { phase: LifecyclePhase::Running, in_flight: 0 };
    assert!(accept_allowed(&s));
    s = shutdown_step(&s, LifecycleEvent::RequestStarted);
    s = shutdown_step(&s, LifecycleEvent::RequestStarted);
    assert_eq!(s.in_flight, 2);
    s = shutdown_step(&s, LifecycleEvent::Signal);
    assert_eq!(s.phase, LifecyclePhase::ShuttingDown);
    assert!(!accept_allowed(&s));
    s = shutdown_step(&s, LifecycleEvent::RequestStarted);
    assert_eq!(s.in_flight, 2);
    s = shutdown_step(&s, LifecycleEvent::RequestFinished);
    assert_eq!(s.phase, LifecyclePhase::ShuttingDown);
    s = shutdown_step(&s, LifecycleEvent::RequestFinished);
    assert_eq!(s, ShutdownState { phase: LifecyclePhase::Stopped, in_flight: 0 });
}

#[test]
fn idle_shutdown_stops_at_once() {
    let s = ShutdownState { phase: LifecyclePhase::Running, in_flight: 0 };
    let stopped = shutdown_step(&s, LifecycleEvent::Signal);
    assert_eq!(stopped.phase, LifecyclePhase::Stopped);
    let still = shutdown_step(&stopped, LifecycleEvent::Signal);
    assert_eq!(still, stopped);
}
