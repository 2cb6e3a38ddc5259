//! The ways a call on the wheel can fail.

use vstd::prelude::*;

verus! {

/// Why a setup call or a spin was refused.
///
/// Each kind is reported as it is: nothing is retried, and a call that
/// fails has changed nothing.
#[derive(Debug, Clone, Copy, PartialEq, Eq, Structural)]
pub enum WheelError {
    /// A spin was asked for before any configuration was stored.
    Uninitialized,
    /// A setup call found a configuration already stored.
    AlreadyInitialized,
    /// A setup call was given other than eight multipliers.
    InvalidMultiplierCount,
    /// The entropy anchor could not be read.
    EntropySourceUnavailable,
}

} // verus!
