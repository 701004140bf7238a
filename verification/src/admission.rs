//! The admission policy of the middleware stack: load shedding, concurrency
//! limiting, and the request timeout, as one small state machine.
//!
//! Every inbound request passes, in this order: load-shed check, concurrency
//! slot, timeout clock, dispatch. The only shared mutable state is the pair
//! of counters below; the host updates them under mutual exclusion and asks
//! [`accept`] and [`release`] for every transition, so the decisions
//! themselves carry no concurrency.

use vstd::prelude::*;

verus! {

/// The configured ceilings of the admission stack, fixed at startup.
#[derive(Clone, Copy, Debug, PartialEq, Eq, Structural)]
pub struct AdmissionConfig {
    /// How many requests may be inside the dispatch stage at once.
    pub concurrency_cap: u64,
    /// How many more may wait for a slot before load shedding rejects
    /// instead of queueing.
    pub queue_ceiling: u64,
    /// The wall-clock budget of each admitted request, in milliseconds.
    pub timeout_ms: u64,
}

/// The two shared counters of the stack.
#[derive(Clone, Copy, Debug, PartialEq, Eq, Structural)]
pub struct AdmissionState {
    /// Requests currently inside the dispatch stage.
    pub in_flight: u64,
    /// Requests holding a queue slot while they wait for dispatch.
    pub queued: u64,
}

/// What the stack does with one arriving request.
#[derive(Clone, Copy, Debug, PartialEq, Eq, Structural)]
pub enum AdmissionDecision {
    /// A concurrency slot was free: the request enters dispatch now.
    Dispatch,
    /// Dispatch is full but the queue is not: the request waits.
    Enqueue,
    /// Queue and dispatch are both full: the request is shed at once, and
    /// is answered with the overloaded error.
    Shed,
}

impl AdmissionConfig {
    /// The stack the service is deployed with: 1024 requests in dispatch,
    /// no waiting room beyond them, ten seconds per request.
    pub fn recommended() -> (r: Self)
        ensures
            r == (AdmissionConfig { concurrency_cap: 1024u64, queue_ceiling: 0u64, timeout_ms: 10000u64 }),
    {
        AdmissionConfig { concurrency_cap: 1024, queue_ceiling: 0, timeout_ms: 10000 }
    }
}

/// The counters never pass their ceilings.
pub open spec fn spec_admission_wf(cfg: AdmissionConfig, s: AdmissionState) -> bool {
    s.in_flight <= cfg.concurrency_cap && s.queued <= cfg.queue_ceiling
}

/// One arriving request: a free dispatch slot admits it, else a free queue
/// slot holds it, else it is shed with the state unchanged.
pub open spec fn spec_accept(cfg: AdmissionConfig, s: AdmissionState) -> (
    AdmissionState,
    AdmissionDecision,
) {
    if s.in_flight < cfg.concurrency_cap {
        (AdmissionState { in_flight: (s.in_flight + 1) as u64, ..s }, AdmissionDecision::Dispatch)
    } else if s.queued < cfg.queue_ceiling {
        (AdmissionState { queued: (s.queued + 1) as u64, ..s }, AdmissionDecision::Enqueue)
    } else {
        (s, AdmissionDecision::Shed)
    }
}

/// One request leaving the dispatch stage: its slot frees, and the longest
/// waiting queued request, if any, takes it at once.
pub open spec fn spec_release(cfg: AdmissionConfig, s: AdmissionState) -> AdmissionState
    recommends
        s.in_flight >= 1,
{
    if s.queued >= 1 {
        AdmissionState { in_flight: s.in_flight, queued: (s.queued - 1) as u64 }
    } else {
        AdmissionState { in_flight: (s.in_flight - 1) as u64, queued: s.queued }
    }
}

/// Decides what happens to one arriving request and advances the counters.
pub fn accept(cfg: &AdmissionConfig, s: &AdmissionState) -> (r: (AdmissionState, AdmissionDecision))
    ensures
        r == spec_accept(*cfg, *s),
{
    if s.in_flight < cfg.concurrency_cap {
        (AdmissionState { in_flight: s.in_flight + 1, queued: s.queued }, AdmissionDecision::Dispatch)
    } else if s.queued < cfg.queue_ceiling {
        (AdmissionState { in_flight: s.in_flight, queued: s.queued + 1 }, AdmissionDecision::Enqueue)
    } else {
        (*s, AdmissionDecision::Shed)
    }
}

/// Advances the counters when a dispatched request finishes (on any exit
/// path: success, error, or timeout — each request releases exactly once).
pub fn release(cfg: &AdmissionConfig, s: &AdmissionState) -> (r: AdmissionState)
    requires
        s.in_flight >= 1,
    ensures
        r == spec_release(*cfg, *s),
{
    if s.queued >= 1 {
        AdmissionState { in_flight: s.in_flight, queued: s.queued - 1 }
    } else {
        AdmissionState { in_flight: s.in_flight - 1, queued: s.queued }
    }
}

/// Whether a request's wall clock has run out: the budget is spent once the
/// elapsed time reaches it. On expiry only the observation of the result is
/// abandoned; the underlying work is not guaranteed to stop.
pub fn has_timed_out(cfg: &AdmissionConfig, elapsed_ms: u64) -> (r: bool)
    ensures
        r == (elapsed_ms >= cfg.timeout_ms),
{
    elapsed_ms >= cfg.timeout_ms
}

/// Admission and release keep both counters within their ceilings.
pub proof fn lemma_admission_preserves_wf(cfg: AdmissionConfig, s: AdmissionState)
    requires
        spec_admission_wf(cfg, s),
    ensures
        spec_admission_wf(cfg, spec_accept(cfg, s).0),
        s.in_flight >= 1 ==> spec_admission_wf(cfg, spec_release(cfg, s)),
{
}

/// A full stack sheds: when the dispatch stage and the queue are both at
/// their ceilings, an arriving request is rejected and changes nothing.
pub proof fn lemma_full_stack_sheds(cfg: AdmissionConfig, s: AdmissionState)
    requires
        s.in_flight == cfg.concurrency_cap,
        s.queued == cfg.queue_ceiling,
    ensures
        spec_accept(cfg, s) == (s, AdmissionDecision::Shed),
{
}

/// The counters after `n` arrivals into an initially empty stack with no
/// releases in between, and how many of those arrivals were shed.
pub open spec fn spec_run_arrivals(cfg: AdmissionConfig, n: nat) -> (AdmissionState, nat)
    decreases n,
{
    if n == 0 {
        (AdmissionState { in_flight: 0, queued: 0 }, 0)
    } else {
        let (s, shed) = spec_run_arrivals(cfg, (n - 1) as nat);
        let (s2, d) = spec_accept(cfg, s);
        (s2, if d is Shed { shed + 1 } else { shed })
    }
}

/// Overload is answered with shedding: out of more arrivals than the
/// concurrency cap and queue ceiling together can hold, with no request
/// finishing in between, every arrival beyond the two ceilings — at least
/// one — is shed.
pub proof fn lemma_overload_sheds(cfg: AdmissionConfig, n: nat)
    requires
        n > cfg.concurrency_cap + cfg.queue_ceiling,
    ensures
        spec_run_arrivals(cfg, n).1 == n - (cfg.concurrency_cap + cfg.queue_ceiling),
        spec_run_arrivals(cfg, n).1 >= 1,
{
    lemma_run_arrivals_shape(cfg, n);
}

/// After `n` arrivals into an empty stack the dispatch stage holds the first
/// arrivals up to its cap, the queue the next up to its ceiling, and exactly
/// the rest were shed.
proof fn lemma_run_arrivals_shape(cfg: AdmissionConfig, n: nat)
    ensures
        spec_run_arrivals(cfg, n).0.in_flight == if n <= cfg.concurrency_cap {
            n as int
        } else {
            cfg.concurrency_cap as int
        },
        spec_run_arrivals(cfg, n).0.queued == if n <= cfg.concurrency_cap {
            0
        } else if n - cfg.concurrency_cap <= cfg.queue_ceiling {
            n - cfg.concurrency_cap
        } else {
            cfg.queue_ceiling as int
        },
        spec_run_arrivals(cfg, n).1 == if n <= cfg.concurrency_cap + cfg.queue_ceiling {
            0
        } else {
            n - cfg.concurrency_cap - cfg.queue_ceiling
        },
    decreases n,
{
    if n > 0 {
        lemma_run_arrivals_shape(cfg, (n - 1) as nat);
    }
}

} // verus!
