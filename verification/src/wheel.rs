//! The two operations of the wheel: setting it up, and spinning it.
//!
//! Each operation works on a context: what the calling environment supplies
//! for the call. The caller of a spin chooses the seed and nothing else.

use vstd::prelude::*;

use crate::config::Config;
use crate::digest::{keccak256, keccak256_digest};
use crate::entropy::{assemble_entropy, entropy_buffer};
use crate::error::WheelError;
use crate::outcome::{outcome_of, record_determined_by_view, settle, Outcome, SpinResult};

verus! {

/// The context of a setup call: the place where the configuration is kept.
#[derive(Debug, Clone, Copy, PartialEq, Eq)]
pub struct Initialize {
    /// The stored configuration; `None` until a setup call has succeeded.
    pub config: Option<Config>,
}

impl View for Initialize {
    type V = Option<Seq<u16>>;

    /// The multipliers that are stored, if any are.
    open spec fn view(&self) -> Option<Seq<u16>> {
        match self.config {
            Some(config) => Some(config@),
            None => None,
        }
    }
}

/// The context of a spin.
#[derive(Debug, Clone, Copy, PartialEq, Eq)]
pub struct Spin {
    /// The requester's identifier.
    pub player: [u8; 32],
    /// The stored configuration, if there is one.
    pub config: Option<Config>,
    /// The entropy anchor, a timestamp or a sequence counter that the
    /// requester does not choose; `None` if it could not be read.
    pub anchor: Option<u64>,
}

/// A spin's context as mathematical values.
pub struct SpinView {
    pub player: Seq<u8>,
    pub multipliers: Option<Seq<u16>>,
    pub anchor: Option<u64>,
}

impl View for Spin {
    type V = SpinView;

    open spec fn view(&self) -> SpinView {
        SpinView {
            player: self.player@,
            multipliers: match self.config {
                Some(config) => Some(config@),
                None => None,
            },
            anchor: self.anchor,
        }
    }
}

/// What a spin returns, as mathematical values.
///
/// A spin needs a stored configuration first and a readable anchor second.
/// Given both, its outcome is settled by the digest of the entropy buffer.
pub open spec fn spin_outcome(ctx: SpinView, seed: u64) -> Result<Outcome, WheelError> {
    match (ctx.multipliers, ctx.anchor) {
        (None, _) => Err(WheelError::Uninitialized),
        (Some(_), None) => Err(WheelError::EntropySourceUnavailable),
        (Some(multipliers), Some(anchor)) => Ok(
            outcome_of(multipliers, ctx.player, keccak256(entropy_buffer(ctx.player, anchor, seed))),
        ),
    }
}

/// A spin's return value as mathematical values.
pub open spec fn returned(result: Result<SpinResult, WheelError>) -> Result<Outcome, WheelError> {
    match result {
        Ok(record) => Ok(record@),
        Err(error) => Err(error),
    }
}

/// Stores the eight multipliers, once.
///
/// A context that already holds a configuration keeps it, whatever is
/// offered. An empty one takes exactly eight multipliers, in the order given.
pub fn initialize(ctx: &mut Initialize, multipliers: &[u16]) -> (result: Result<(), WheelError>)
    ensures
        old(ctx).config is Some ==> result == Err::<(), WheelError>(
            WheelError::AlreadyInitialized,
        ) && *final(ctx) == *old(ctx),
        old(ctx).config is None && multipliers@.len() != 8 ==> result == Err::<(), WheelError>(
            WheelError::InvalidMultiplierCount,
        ) && *final(ctx) == *old(ctx),
        old(ctx).config is None && multipliers@.len() == 8 ==> result is Ok && final(ctx)@ == Some(
            multipliers@,
        ),
{
    if ctx.config.is_some() {
        return Err(WheelError::AlreadyInitialized);
    }
    match Config::from_slice(multipliers) {
        Ok(config) => {
            ctx.config = Some(config);
            Ok(())
        },
        Err(error) => Err(error),
    }
}

/// Spins the wheel for the context's requester with the caller's seed.
///
/// The context comes back as it was handed over, whether the spin succeeds
/// or fails: a spin reads the configuration and never writes it.
pub fn spin(ctx: &mut Spin, seed: u64) -> (result: Result<SpinResult, WheelError>)
    ensures
        *final(ctx) == *old(ctx),
        returned(result) == spin_outcome(old(ctx)@, seed),
{
    let config = match ctx.config {
        Some(config) => config,
        None => {
            return Err(WheelError::Uninitialized);
        },
    };
    let anchor = match ctx.anchor {
        Some(anchor) => anchor,
        None => {
            return Err(WheelError::EntropySourceUnavailable);
        },
    };
    let buffer = assemble_entropy(&ctx.player, anchor, seed);
    let digest = keccak256_digest(buffer.as_slice());
    Ok(settle(&config, ctx.player, digest))
}

/// A spin is a function of its context and seed: two spins with the same
/// requester, configuration, anchor and seed return the same thing, be it a
/// record (digest, position and multiplier alike) or an error.
pub proof fn spin_is_deterministic(
    first: Spin,
    second: Spin,
    seed: u64,
    once: Result<SpinResult, WheelError>,
    again: Result<SpinResult, WheelError>,
)
    requires
        first@ == second@,
        returned(once) == spin_outcome(first@, seed),
        returned(again) == spin_outcome(second@, seed),
    ensures
        once == again,
{
    if once is Ok {
        record_determined_by_view(once->Ok_0, again->Ok_0);
    }
}

/// A spin succeeds exactly when a configuration is stored and the anchor
/// could be read. Without a configuration it fails as uninitialized and
/// yields no record, whatever else the context holds.
pub proof fn spin_needs_configuration(ctx: SpinView, seed: u64)
    ensures
        ctx.multipliers is None <==> spin_outcome(ctx, seed) == Err::<Outcome, WheelError>(
            WheelError::Uninitialized,
        ),
        ctx.multipliers is Some && ctx.anchor is None <==> spin_outcome(ctx, seed) == Err::<
            Outcome,
            WheelError,
        >(WheelError::EntropySourceUnavailable),
        ctx.multipliers is Some && ctx.anchor is Some <==> spin_outcome(ctx, seed) is Ok,
{
}

/// Every record that a spin yields names a position of the wheel, the one
/// its digest selects, and the multiplier that the stored configuration
/// holds at that position.
pub proof fn multiplier_is_configured(ctx: SpinView, seed: u64)
    ensures
        spin_outcome(ctx, seed) matches Ok(outcome) ==> (ctx.multipliers matches Some(multipliers)
            && outcome.is_drawn_from(multipliers)),
{
}

} // verus!
