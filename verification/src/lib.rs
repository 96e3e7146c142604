//! Network-reachability prober: builds and validates ICMPv4 echo packets,
//! matches echo replies to outstanding requests, and decides the outcome of a
//! probing attempt under a deadline.
use vstd::prelude::*;

pub mod codec;
pub mod monitor;
pub mod prober;
pub mod transport;

verus! {

/// The error taxonomy of the prober. Each I/O variant carries the raw OS
/// error code of the failing call, when the OS supplied one.
#[derive(Debug, Clone, Copy, PartialEq, Eq)]
pub enum Error {
    /// The raw socket could not be created or configured.
    OpenError(Option<i32>),
    /// A read from the raw socket failed with an unexpected OS error.
    ReadError(Option<i32>),
    /// A send failed irrecoverably: a non-transient OS error, or the retry
    /// budget for the transient condition was exhausted.
    WriteError(Option<i32>),
    /// The deadline elapsed with no matching reply.
    TimeoutError,
}

} // verus!

