//! Stand-ins for host subsystems.

use vstd::prelude::*;
use crate::types::AccountId;

verus! {

/// Weight of an account in a vote.
pub type VoteWeight = u64;

/// A staking subsystem in which nobody has staked anything.
pub struct StakingMock {}

impl StakingMock {
    /// The score of `id`: the default weight, which is zero.
    pub fn score(id: &AccountId) -> (r: VoteWeight)
        ensures
            r == 0,
    {
        0
    }
}

} // verus!
