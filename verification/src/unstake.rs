use crate::pubkey::Pubkey;
use vstd::prelude::*;

verus! {

/// A request to take an amount out of a stake: the amount stops earning when the
/// request is made, and can be withdrawn once `release_at` has come.
#[derive(Clone, Copy, Debug, PartialEq, Eq)]
pub struct Unstake {
    /// The escrow the amount comes from.
    pub stake_escrow: Pubkey,
    /// The amount that is being unstaked.
    pub unstake_amount: u64,
    /// When the request was made.
    pub created_at: i64,
    /// When the amount can be withdrawn.
    pub release_at: i64,
}

impl Unstake {
    /// Whether the amount can be withdrawn at `now`.
    pub open spec fn spec_is_released(self, now: i64) -> bool {
        now >= self.release_at
    }

    /// Tells whether the amount can be withdrawn at `now`.
    pub fn is_released(&self, now: i64) -> (r: bool)
        ensures
            r == self.spec_is_released(now),
    {
        now >= self.release_at
    }
}

} // verus!
