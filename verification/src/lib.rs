//! An eight-position wheel of payout multipliers.
//!
//! An operator sets the eight multipliers once. Each spin then derives a
//! position from the Keccak-256 digest of the requester's identity, an
//! entropy anchor and a caller-supplied seed, and reports the multiplier
//! found at that position together with the digest, so that anyone can
//! recompute the outcome.

pub mod config;
pub mod digest;
pub mod entropy;
pub mod error;
pub mod outcome;
pub mod wheel;

pub use config::Config;
pub use error::WheelError;
pub use outcome::SpinResult;
pub use wheel::{initialize, spin, Initialize, Spin};
