//! From a digest to an outcome: reduction, lookup and the result record.

use vstd::prelude::*;
use vstd::relations::injective_on;
use vstd::set_lib::{lemma_int_range, lemma_map_size, set_int_range};

use crate::config::Config;

verus! {

/// The record of one spin.
///
/// It holds the whole digest, so that the position and the multiplier can be
/// recomputed by anyone who hashes the same bytes.
#[derive(Debug, Clone, Copy, PartialEq, Eq)]
pub struct SpinResult {
    /// The requester's identifier.
    pub player: [u8; 32],
    /// The position the wheel stopped at, from 0 to 7.
    pub index: u8,
    /// The multiplier configured for that position when the spin was made.
    pub multiplier: u16,
    /// The digest the position was derived from.
    pub rand: [u8; 32],
}

/// A spin's record as mathematical values.
pub struct Outcome {
    pub player: Seq<u8>,
    pub index: int,
    pub multiplier: int,
    pub rand: Seq<u8>,
}

impl Outcome {
    /// Whether the record belongs to a wheel with these multipliers: its
    /// position is the one its digest selects, and its multiplier is the one
    /// found there.
    pub open spec fn is_drawn_from(self, multipliers: Seq<u16>) -> bool {
        &&& 0 <= self.index < 8
        &&& self.index == index_of(self.rand)
        &&& self.multiplier == multipliers[self.index]
    }
}

impl View for SpinResult {
    type V = Outcome;

    open spec fn view(&self) -> Outcome {
        Outcome {
            player: self.player@,
            index: self.index as int,
            multiplier: self.multiplier as int,
            rand: self.rand@,
        }
    }
}

/// The position that a byte selects: the byte modulo eight.
pub open spec fn position_of(byte: u8) -> int {
    byte as int % 8
}

/// The position that a digest selects: that of its first byte.
pub open spec fn index_of(digest: Seq<u8>) -> int {
    position_of(digest[0])
}

/// The outcome that a digest settles, for a requester and a list of
/// multipliers: the position the digest selects and the multiplier found
/// there.
pub open spec fn outcome_of(multipliers: Seq<u16>, player: Seq<u8>, digest: Seq<u8>) -> Outcome {
    Outcome {
        player,
        index: index_of(digest),
        multiplier: multipliers[index_of(digest)] as int,
        rand: digest,
    }
}

/// The byte values that select a position.
pub open spec fn bytes_selecting(position: int) -> Set<u8> {
    Set::new(|byte: u8| position_of(byte) == position)
}

/// Reduces a digest to a position on the wheel.
pub fn reduce(digest: &[u8; 32]) -> (index: u8)
    ensures
        index == index_of(digest@),
        index < 8,
{
    digest[0] % 8
}

/// Settles a spin from its digest: reduces the digest to a position, reads
/// the multiplier there and builds the record.
pub fn settle(config: &Config, player: [u8; 32], digest: [u8; 32]) -> (result: SpinResult)
    ensures
        result@ == outcome_of(config@, player@, digest@),
        result.player == player,
        result.rand == digest,
{
    let index = reduce(&digest);
    SpinResult { player, index, multiplier: config.multipliers[index as usize], rand: digest }
}

/// Every digest selects one of the eight positions, whatever its first byte.
pub proof fn index_in_range(digest: Seq<u8>)
    ensures
        0 <= index_of(digest) < 8,
{
}

/// The reduction favours no position: each of the eight is selected by
/// exactly 32 of the 256 byte values.
pub proof fn reduction_is_uniform(position: int)
    requires
        0 <= position < 8,
    ensures
        bytes_selecting(position).finite(),
        bytes_selecting(position).len() == 32,
{
    let turns = set_int_range(0, 32);
    let byte_at = |turn: int| (8 * turn + position) as u8;
    lemma_int_range(0, 32);
    assert(injective_on(byte_at, turns));
    assert forall|byte: u8| bytes_selecting(position).contains(byte) implies turns.map(
        byte_at,
    ).contains(byte) by {
        let turn = byte as int / 8;
        assert(turns.contains(turn) && byte_at(turn) == byte);
    }
    assert(turns.map(byte_at) =~= bytes_selecting(position));
    lemma_map_size(turns, bytes_selecting(position), byte_at);
}

/// A record is determined by its view: two records that agree as
/// mathematical values are the same record.
pub proof fn record_determined_by_view(first: SpinResult, second: SpinResult)
    requires
        first@ == second@,
    ensures
        first == second,
{
    assert(first.player@ == second@.player);
    assert(first.rand@ == second@.rand);
    assert(first.player =~= second.player);
    assert(first.rand =~= second.rand);
}

} // verus!
