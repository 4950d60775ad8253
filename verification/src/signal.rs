//! The sample clock and the error that generators and operators report.
use vstd::prelude::*;

verus! {

/// Number of samples that represent one second of signal.
pub const SAMPLE_RATE: u32 = 10000;

/// Why a generator or an operator refused its input.
#[derive(Clone, Copy, Debug, PartialEq, Eq, Structural)]
pub enum SignalError {
    /// A parameter lies outside the domain on which the operation is defined.
    InvalidParameter,
}

} // verus!
