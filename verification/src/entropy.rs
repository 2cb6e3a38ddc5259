//! Entropy assembly: the bytes that are hashed for a spin.
//!
//! The order and the encoding are fixed: anyone who recomputes a spin has to
//! hash exactly these bytes.

use vstd::prelude::*;

verus! {

/// Length of a requester's identifier, in bytes.
pub const IDENTITY_LEN: usize = 32;

/// Length of the assembled buffer: the identifier and two 64-bit values.
pub const ENTROPY_LEN: usize = 48;

/// The `count` lowest base-256 digits of `value`, lowest first.
pub open spec fn le_digits(value: nat, count: nat) -> Seq<u8>
    decreases count,
{
    if count == 0 {
        Seq::empty()
    } else {
        seq![(value % 256) as u8] + le_digits(value / 256, (count - 1) as nat)
    }
}

/// The little-endian encoding of a 64-bit value: eight bytes, lowest first.
pub open spec fn le_bytes(value: u64) -> Seq<u8> {
    le_digits(value as nat, 8)
}

/// What is hashed for a spin: the requester's identifier, then the anchor,
/// then the seed, both little-endian.
pub open spec fn entropy_buffer(requester: Seq<u8>, anchor: u64, seed: u64) -> Seq<u8> {
    requester + le_bytes(anchor) + le_bytes(seed)
}

/// The number that base-256 digits stand for, lowest digit first.
pub open spec fn le_value(digits: Seq<u8>) -> nat
    decreases digits.len(),
{
    if digits.len() == 0 {
        0
    } else {
        digits[0] as nat + 256 * le_value(digits.drop_first())
    }
}

/// The least number that `count` base-256 digits cannot hold.
pub open spec fn le_limit(count: nat) -> nat
    decreases count,
{
    if count == 0 {
        1
    } else {
        256 * le_limit((count - 1) as nat)
    }
}

/// Appends the little-endian encoding of `value` to `buffer`.
fn push_le(buffer: &mut Vec<u8>, value: u64)
    ensures
        final(buffer)@ == old(buffer)@ + le_bytes(value),
{
    let mut rest: u64 = value;
    let mut written: usize = 0;
    while written < 8
        invariant
            written <= 8,
            old(buffer)@ + le_bytes(value) == buffer@ + le_digits(
                rest as nat,
                (8 - written) as nat,
            ),
        decreases 8 - written,
    {
        let low: u8 = (rest % 256) as u8;
        proof {
            let tail = le_digits(rest as nat / 256, (8 - written - 1) as nat);
            assert(le_digits(rest as nat, (8 - written) as nat) == seq![low] + tail);
            assert(buffer@ + (seq![low] + tail) == buffer@.push(low) + tail);
        }
        buffer.push(low);
        rest = rest / 256;
        written += 1;
    }
    assert(le_digits(rest as nat, 0) == Seq::<u8>::empty());
    assert(buffer@ + Seq::<u8>::empty() == buffer@);
}

/// Assembles the bytes to hash for a spin.
pub fn assemble_entropy(requester: &[u8; 32], anchor: u64, seed: u64) -> (buffer: Vec<u8>)
    ensures
        buffer@ == entropy_buffer(requester@, anchor, seed),
        buffer@.len() == ENTROPY_LEN,
{
    let mut buffer: Vec<u8> = Vec::with_capacity(ENTROPY_LEN);
    let mut copied: usize = 0;
    while copied < IDENTITY_LEN
        invariant
            copied <= IDENTITY_LEN,
            buffer@ == requester@.take(copied as int),
        decreases IDENTITY_LEN - copied,
    {
        assert(requester@.take(copied as int).push(requester@[copied as int]) == requester@.take(
            copied as int + 1,
        ));
        buffer.push(requester[copied]);
        copied += 1;
    }
    assert(requester@.take(IDENTITY_LEN as int) == requester@);
    push_le(&mut buffer, anchor);
    push_le(&mut buffer, seed);
    proof {
        le_digits_len(anchor as nat, 8);
        le_digits_len(seed as nat, 8);
    }
    buffer
}

/// `le_digits` yields as many bytes as it is asked for.
pub proof fn le_digits_len(value: nat, count: nat)
    ensures
        le_digits(value, count).len() == count,
    decreases count,
{
    if count > 0 {
        le_digits_len(value / 256, (count - 1) as nat);
    }
}

/// Digits enough to hold a value stand for that value.
pub proof fn le_digits_round_trip(value: nat, count: nat)
    requires
        value < le_limit(count),
    ensures
        le_value(le_digits(value, count)) == value,
    decreases count,
{
    if count > 0 {
        let rest = le_digits(value / 256, (count - 1) as nat);
        le_digits_round_trip(value / 256, (count - 1) as nat);
        le_digits_len(value, count);
        assert(le_digits(value, count).drop_first() == rest);
    }
}

/// The encoding loses nothing: the eight bytes of a value stand for it.
pub proof fn le_bytes_round_trip(value: u64)
    ensures
        le_bytes(value).len() == 8,
        le_value(le_bytes(value)) == value,
{
    reveal_with_fuel(le_limit, 9);
    le_digits_len(value as nat, 8);
    le_digits_round_trip(value as nat, 8);
}

/// The buffer tells what went into it: two spins of requesters with
/// identifiers of one length hash the same bytes only if requester, anchor
/// and seed are the same.
pub proof fn entropy_buffer_is_unambiguous(
    requester: Seq<u8>,
    anchor: u64,
    seed: u64,
    other_requester: Seq<u8>,
    other_anchor: u64,
    other_seed: u64,
)
    requires
        requester.len() == other_requester.len(),
        entropy_buffer(requester, anchor, seed) == entropy_buffer(
            other_requester,
            other_anchor,
            other_seed,
        ),
    ensures
        requester == other_requester,
        anchor == other_anchor,
        seed == other_seed,
{
    let len = requester.len() as int;
    let buffer = entropy_buffer(requester, anchor, seed);
    let other = entropy_buffer(other_requester, other_anchor, other_seed);
    le_bytes_round_trip(anchor);
    le_bytes_round_trip(seed);
    le_bytes_round_trip(other_anchor);
    le_bytes_round_trip(other_seed);
    assert(buffer.subrange(0, len) == requester);
    assert(other.subrange(0, len) == other_requester);
    assert(buffer.subrange(len, len + 8) == le_bytes(anchor));
    assert(other.subrange(len, len + 8) == le_bytes(other_anchor));
    assert(buffer.subrange(len + 8, len + 16) == le_bytes(seed));
    assert(other.subrange(len + 8, len + 16) == le_bytes(other_seed));
}

} // verus!
