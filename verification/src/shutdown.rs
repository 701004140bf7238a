//! Graceful shutdown coordination: `Running -> ShuttingDown -> Stopped`.
//!
//! A termination signal stops the intake of new connections; requests
//! already in flight run on to completion, each still under its own timeout
//! budget, and the process stops once the last of them has finished. There
//! is no forced mid-request cancellation beyond what the timeout already
//! enforces.

use vstd::prelude::*;

verus! {

/// Where the process is in its life.
#[derive(Clone, Copy, Debug, PartialEq, Eq, Structural)]
pub enum LifecyclePhase {
    /// Accepting connections and serving.
    Running,
    /// A termination signal arrived: no new connections, draining what is
    /// in flight.
    ShuttingDown,
    /// Drained; the process exits.
    Stopped,
}

/// What the coordinator watches for.
#[derive(Clone, Copy, Debug, PartialEq, Eq, Structural)]
pub enum LifecycleEvent {
    /// An external interrupt or termination signal.
    Signal,
    /// A request was accepted into the pipeline.
    RequestStarted,
    /// A request left the pipeline, on any exit path.
    RequestFinished,
}

/// The coordinator's whole state: the phase and how many requests are still
/// inside the pipeline.
#[derive(Clone, Copy, Debug, PartialEq, Eq, Structural)]
pub struct ShutdownState {
    pub phase: LifecyclePhase,
    pub in_flight: u64,
}

/// How far along its life a phase is; the phase only ever moves forward.
pub open spec fn spec_phase_rank(p: LifecyclePhase) -> int {
    match p {
        LifecyclePhase::Running => 0,
        LifecyclePhase::ShuttingDown => 1,
        LifecyclePhase::Stopped => 2,
    }
}

/// The coordinator's invariant: a stopped process has nothing in flight.
pub open spec fn spec_shutdown_wf(s: ShutdownState) -> bool {
    s.phase is Stopped ==> s.in_flight == 0
}

/// One step of the coordinator.
///
/// A signal ends the running phase: straight to `Stopped` when nothing is
/// in flight, else to `ShuttingDown` until the drain completes. A request
/// starts only while running; a request finishing while shutting down
/// completes the drain when it is the last one. Every other combination
/// changes nothing.
pub open spec fn spec_shutdown_step(s: ShutdownState, e: LifecycleEvent) -> ShutdownState {
    match e {
        LifecycleEvent::Signal => if s.phase is Running {
            if s.in_flight == 0 {
                ShutdownState { phase: LifecyclePhase::Stopped, ..s }
            } else {
                ShutdownState { phase: LifecyclePhase::ShuttingDown, ..s }
            }
        } else {
            s
        },
        LifecycleEvent::RequestStarted => if s.phase is Running && s.in_flight < u64::MAX {
            ShutdownState { in_flight: (s.in_flight + 1) as u64, ..s }
        } else {
            s
        },
        LifecycleEvent::RequestFinished => if s.in_flight >= 1 {
            if s.phase is ShuttingDown && s.in_flight == 1 {
                ShutdownState { phase: LifecyclePhase::Stopped, in_flight: 0 }
            } else {
                ShutdownState { in_flight: (s.in_flight - 1) as u64, ..s }
            }
        } else {
            s
        },
    }
}

/// Whether new connections may still be accepted: only while running.
pub fn accept_allowed(s: &ShutdownState) -> (r: bool)
    ensures
        r == (s.phase is Running),
{
    match s.phase {
        LifecyclePhase::Running => true,
        LifecyclePhase::ShuttingDown => false,
        LifecyclePhase::Stopped => false,
    }
}

/// Advances the coordinator by one observed event.
pub fn shutdown_step(s: &ShutdownState, e: LifecycleEvent) -> (r: ShutdownState)
    ensures
        r == spec_shutdown_step(*s, e),
{
    match e {
        LifecycleEvent::Signal => {
            if matches!(s.phase, LifecyclePhase::Running) {
                if s.in_flight == 0 {
                    ShutdownState { phase: LifecyclePhase::Stopped, in_flight: s.in_flight }
                } else {
                    ShutdownState { phase: LifecyclePhase::ShuttingDown, in_flight: s.in_flight }
                }
            } else {
                *s
            }
        },
        LifecycleEvent::RequestStarted => {
            if matches!(s.phase, LifecyclePhase::Running) && s.in_flight < u64::MAX {
                ShutdownState { phase: s.phase, in_flight: s.in_flight + 1 }
            } else {
                *s
            }
        },
        LifecycleEvent::RequestFinished => {
            if s.in_flight >= 1 {
                if matches!(s.phase, LifecyclePhase::ShuttingDown) && s.in_flight == 1 {
                    ShutdownState { phase: LifecyclePhase::Stopped, in_flight: 0 }
                } else {
                    ShutdownState { phase: s.phase, in_flight: s.in_flight - 1 }
                }
            } else {
                *s
            }
        },
    }
}

/// The phase never moves backwards: once shutting down, never running
/// again; once stopped, stopped for good.
pub proof fn lemma_phase_monotone(s: ShutdownState, e: LifecycleEvent)
    ensures
        spec_phase_rank(spec_shutdown_step(s, e).phase) >= spec_phase_rank(s.phase),
{
}

/// Every step preserves the invariant, and a stopped coordinator never
/// changes again.
pub proof fn lemma_shutdown_preserved(s: ShutdownState, e: LifecycleEvent)
    requires
        spec_shutdown_wf(s),
    ensures
        spec_shutdown_wf(spec_shutdown_step(s, e)),
        s.phase is Stopped ==> spec_shutdown_step(s, e) == s,
{
}

/// After a signal, intake is closed: whatever phase the signal found, the
/// coordinator no longer accepts new connections, and no later event
/// reopens intake.
pub proof fn lemma_no_intake_after_signal(s: ShutdownState, e: LifecycleEvent)
    ensures
        !(spec_shutdown_step(s, LifecycleEvent::Signal).phase is Running),
        !(s.phase is Running) ==> !(spec_shutdown_step(s, e).phase is Running),
{
}

} // verus!
