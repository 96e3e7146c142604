//! Monitor-loop decisions: whether a new probing attempt may start, and how
//! long to pause after a successful one so that attempts are paced to
//! roughly one per interval.
//!
//! The caller runs the loop: it watches the cancellation signal, calls the
//! prober and sleeps; whether to go on and for how long to pause is decided
//! here. A probe error of any kind ends the loop and is propagated
//! unchanged by the caller.
use vstd::prelude::*;

verus! {

/// What the monitor loop does at the top of an iteration.
#[derive(Debug, PartialEq, Eq, Clone, Copy)]
pub enum MonitorDecision {
    /// Cancellation was observed: return without starting a new attempt.
    Stop,
    /// No cancellation: start the next probing attempt.
    Probe,
}

/// Decides the top of one monitor iteration: a cancellation signal already
/// observed stops the loop before any new attempt; otherwise the next
/// attempt starts. An attempt in flight is never interrupted, since the
/// signal is only consulted here.
pub fn monitor_decision(cancel_requested: bool) -> (d: MonitorDecision)
    ensures
        d == (if cancel_requested {
            MonitorDecision::Stop
        } else {
            MonitorDecision::Probe
        }),
{
    if cancel_requested {
        MonitorDecision::Stop
    } else {
        MonitorDecision::Probe
    }
}

/// How long to pause after a successful attempt: the remainder of the
/// interval if the attempt took less than it, nothing otherwise.
pub fn pause_before_next_attempt(interval_millis: u64, elapsed_millis: u64) -> (r: Option<u64>)
    ensures
        r == (if elapsed_millis < interval_millis {
            Some((interval_millis - elapsed_millis) as u64)
        } else {
            None::<u64>
        }),
{
    if elapsed_millis < interval_millis {
        Some(interval_millis - elapsed_millis)
    } else {
        None
    }
}

} // verus!