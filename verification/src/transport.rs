//! Transport decisions: a send is retried a bounded number of times on one
//! specific transient OS condition, with a fixed pause between attempts, and
//! given up on any other failure at once.
//!
//! The caller owns the raw socket: it performs each send attempt and the
//! pauses, and hands the outcome of every attempt in; which attempt may be
//! retried and which error is surfaced is decided here.
use crate::Error;
use vstd::prelude::*;

verus! {

/// How many times one packet is handed to the OS before the transient
/// condition is given up on.
pub const SEND_RETRY_ATTEMPTS: u32 = 10;

/// Milliseconds to pause between two send attempts.
pub const SEND_RETRY_PAUSE_MILLIS: u64 = 1000;

/// The raw OS error code of the one transient condition worth retrying:
/// the send buffer is temporarily exhausted.
pub const TRANSIENT_SEND_ERROR_CODE: i32 = 10065;

/// What one attempt to hand a packet to the OS produced.
#[derive(Debug, PartialEq, Eq, Clone, Copy)]
pub enum SendAttemptOutcome {
    /// The OS accepted the packet.
    Delivered,
    /// The OS refused it, with this raw error code if it supplied one.
    Failed(Option<i32>),
}

/// What the caller must do after one send attempt.
#[derive(Debug, PartialEq, Eq)]
pub enum SendDecision {
    /// The packet was handed off: the send is over, successfully.
    Accepted,
    /// Pause for [`SEND_RETRY_PAUSE_MILLIS`], then attempt again.
    Retry,
    /// The send failed for good, with this error.
    GiveUp(Error),
}

/// Whether a raw OS error code names the transient send-buffer-exhausted
/// condition that the transport retries.
pub open spec fn is_transient_send_error(code: Option<i32>) -> bool {
    code == Some(TRANSIENT_SEND_ERROR_CODE)
}

/// The transport's whole retry rule. `attempts_made` counts the attempts
/// already made, the outcome being that of attempt number
/// `attempts_made + 1`: success ends the send at once, whatever the count;
/// a non-transient failure is given up without retry; a transient failure
/// is retried until the budget of [`SEND_RETRY_ATTEMPTS`] attempts is spent.
pub open spec fn send_decision(attempts_made: u32, outcome: SendAttemptOutcome) -> SendDecision {
    match outcome {
        SendAttemptOutcome::Delivered => SendDecision::Accepted,
        SendAttemptOutcome::Failed(code) => {
            if !is_transient_send_error(code) {
                SendDecision::GiveUp(Error::WriteError(code))
            } else if attempts_made + 1 < SEND_RETRY_ATTEMPTS {
                SendDecision::Retry
            } else {
                SendDecision::GiveUp(Error::WriteError(code))
            }
        },
    }
}

/// Classifies a raw OS error code: true exactly for the retryable transient
/// condition, false for every fatal one.
pub fn classify_send_error(code: Option<i32>) -> (r: bool)
    ensures
        r == is_transient_send_error(code),
{
    match code {
        Some(value) => value == TRANSIENT_SEND_ERROR_CODE,
        None => false,
    }
}

/// One step of the send-with-retry phase: takes the outcome of the attempt
/// just made and answers whether the send is over, failed, or to be retried
/// after a pause.
pub fn send_step(attempts_made: u32, outcome: SendAttemptOutcome) -> (d: SendDecision)
    requires
        attempts_made < SEND_RETRY_ATTEMPTS,
    ensures
        d == send_decision(attempts_made, outcome),
{
    match outcome {
        SendAttemptOutcome::Delivered => SendDecision::Accepted,
        SendAttemptOutcome::Failed(code) => {
            if !classify_send_error(code) {
                SendDecision::GiveUp(Error::WriteError(code))
            } else if attempts_made + 1 < SEND_RETRY_ATTEMPTS {
                SendDecision::Retry
            } else {
                SendDecision::GiveUp(Error::WriteError(code))
            }
        },
    }
}

/// Law: while the transient condition persists, every attempt but the last
/// is followed by another try, and the attempt that spends the retry budget
/// ends the send with [`Error::WriteError`]; so a persistent condition
/// yields the error after exactly [`SEND_RETRY_ATTEMPTS`] attempts.
pub proof fn lemma_retry_budget_exhaustion(attempts_made: u32, code: Option<i32>)
    requires
        attempts_made < SEND_RETRY_ATTEMPTS,
        is_transient_send_error(code),
    ensures
        attempts_made + 1 < SEND_RETRY_ATTEMPTS ==> send_decision(
            attempts_made,
            SendAttemptOutcome::Failed(code),
        ) == SendDecision::Retry,
        attempts_made + 1 == SEND_RETRY_ATTEMPTS ==> send_decision(
            attempts_made,
            SendAttemptOutcome::Failed(code),
        ) == SendDecision::GiveUp(Error::WriteError(code)),
{
}

/// Law: any send failure other than the transient condition is given up at
/// once, with [`Error::WriteError`] and no retry, whatever the attempt count.
pub proof fn lemma_fatal_send_error_no_retry(attempts_made: u32, code: Option<i32>)
    requires
        attempts_made < SEND_RETRY_ATTEMPTS,
        !is_transient_send_error(code),
    ensures
        send_decision(attempts_made, SendAttemptOutcome::Failed(code)) == SendDecision::GiveUp(
            Error::WriteError(code),
        ),
{
}

} // verus!