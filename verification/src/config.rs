//! The stored configuration: eight payout multipliers, written once.

use vstd::prelude::*;

use crate::error::WheelError;

verus! {

/// Number of positions on the wheel.
pub const POSITIONS: usize = 8;

/// The eight multipliers, by position. A multiplier scales the base stake.
#[derive(Debug, Clone, Copy, PartialEq, Eq)]
pub struct Config {
    pub multipliers: [u16; 8],
}

impl View for Config {
    type V = Seq<u16>;

    open spec fn view(&self) -> Seq<u16> {
        self.multipliers@
    }
}

impl Config {
    /// Bytes that a stored configuration takes: eight for the record's
    /// type tag, which the storage layer owns, and two per multiplier.
    pub const LEN: usize = 8 + (8 * 2);

    /// Validates a list of multipliers: exactly eight make a configuration,
    /// in the order given.
    pub fn from_slice(multipliers: &[u16]) -> (result: Result<Config, WheelError>)
        ensures
            multipliers@.len() == POSITIONS ==> (result matches Ok(config) && config@
                == multipliers@),
            multipliers@.len() != POSITIONS ==> result == Err::<Config, WheelError>(
                WheelError::InvalidMultiplierCount,
            ),
    {
        if multipliers.len() != POSITIONS {
            return Err(WheelError::InvalidMultiplierCount);
        }
        let mut stored: [u16; 8] = [0u16; 8];
        let mut i: usize = 0;
        while i < POSITIONS
            invariant
                i <= POSITIONS,
                multipliers@.len() == POSITIONS,
                forall|k: int| 0 <= k < i ==> stored@[k] == multipliers@[k],
            decreases POSITIONS - i,
        {
            stored[i] = multipliers[i];
            i += 1;
        }
        Ok(Config { multipliers: stored })
    }

    /// The multiplier at a position, if the wheel has that position.
    pub fn multiplier(&self, index: u8) -> (found: Option<u16>)
        ensures
            index < POSITIONS ==> found == Some(self@[index as int]),
            index >= POSITIONS ==> found is None,
    {
        if (index as usize) < POSITIONS {
            Some(self.multipliers[index as usize])
        } else {
            None
        }
    }
}

} // verus!
