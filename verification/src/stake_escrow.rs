use crate::errors::StakeForFeeError;
use crate::math::mul_shr;
use crate::math::scale;
use crate::math::spec_mul_shr;
use crate::math::Rounding;
use crate::pubkey::Pubkey;
use vstd::prelude::*;

verus! {

/// The record of one owner's stake in one vault, with the fees it has earned.
#[derive(Clone, Copy, Debug, PartialEq, Eq)]
pub struct StakeEscrow {
    /// Who owns the stake.
    pub owner: Pubkey,
    /// The vault the stake belongs to.
    pub vault: Pubkey,
    /// Where the owner stands in the vault's full balance list; never changes.
    pub full_balance_index: u64,
    /// Amount staked and earning, not counting amounts being unstaked.
    pub stake_amount: u64,
    /// Whether the owner is in the vault's top staker list.
    pub in_top_list: bool,
    /// Total of the unstake requests that are neither withdrawn nor cancelled.
    pub ongoing_total_partial_unstake_amount: u64,
    /// When the escrow was created.
    pub created_at: i64,
    /// Fee of side A paid out so far.
    pub fee_a_claimed_amount: u128,
    /// Fee of side B paid out so far.
    pub fee_b_claimed_amount: u128,
    /// The vault's index of side A up to which fees were credited.
    pub fee_a_per_liquidity_checkpoint: u128,
    /// The vault's index of side B up to which fees were credited.
    pub fee_b_per_liquidity_checkpoint: u128,
    /// Fee of side A credited and not yet paid out.
    pub fee_a_pending: u64,
    /// Fee of side B credited and not yet paid out.
    pub fee_b_pending: u64,
}

/// What a stake earns on one side while the index moves from `checkpoint` to
/// `cumulative`: `stake * (cumulative - checkpoint) / 2^64`, rounded down, and no
/// more than 64 bits can hold.
pub open spec fn spec_accrued(stake: u64, cumulative: u128, checkpoint: u128) -> int {
    let exact = spec_mul_shr(stake as int, cumulative - checkpoint, Rounding::Down);
    if exact > u64::MAX {
        u64::MAX as int
    } else {
        exact
    }
}

/// What is paid out of a pending amount under a cap: the smaller of the two.
pub open spec fn spec_payable(pending: u64, max_fee: u64) -> u64 {
    if pending < max_fee {
        pending
    } else {
        max_fee
    }
}

/// The amounts one claim pays out, by side.
#[derive(Clone, Copy, Debug, PartialEq, Eq, Structural)]
pub struct ClaimedFee {
    pub fee_a: u64,
    pub fee_b: u64,
}

impl StakeEscrow {
    /// The escrow as `new` makes it.
    pub open spec fn spec_new(
        owner: Pubkey,
        vault: Pubkey,
        full_balance_index: u64,
        cumulative_a: u128,
        cumulative_b: u128,
        now: i64,
    ) -> StakeEscrow {
        StakeEscrow {
            owner,
            vault,
            full_balance_index,
            stake_amount: 0,
            in_top_list: false,
            ongoing_total_partial_unstake_amount: 0,
            created_at: now,
            fee_a_claimed_amount: 0,
            fee_b_claimed_amount: 0,
            fee_a_per_liquidity_checkpoint: cumulative_a,
            fee_b_per_liquidity_checkpoint: cumulative_b,
            fee_a_pending: 0,
            fee_b_pending: 0,
        }
    }

    /// Makes the escrow of a new staker: nothing staked, nothing earned, and the
    /// checkpoints at the vault's current indices.
    pub fn new(
        owner: Pubkey,
        vault: Pubkey,
        full_balance_index: u64,
        cumulative_a: u128,
        cumulative_b: u128,
        now: i64,
    ) -> (r: StakeEscrow)
        ensures
            r == Self::spec_new(owner, vault, full_balance_index, cumulative_a, cumulative_b, now),
    {
        StakeEscrow {
            owner,
            vault,
            full_balance_index,
            stake_amount: 0,
            in_top_list: false,
            ongoing_total_partial_unstake_amount: 0,
            created_at: now,
            fee_a_claimed_amount: 0,
            fee_b_claimed_amount: 0,
            fee_a_per_liquidity_checkpoint: cumulative_a,
            fee_b_per_liquidity_checkpoint: cumulative_b,
            fee_a_pending: 0,
            fee_b_pending: 0,
        }
    }

    /// The escrow after its fees are brought up to the vault's indices, or the
    /// error that stops it.
    ///
    /// A staker in the top list is credited what its stake earned since the
    /// checkpoints. The checkpoints move to the indices whether it is in the list or
    /// not, so that time spent outside the list is never paid.
    pub open spec fn spec_sync(self, cumulative_a: u128, cumulative_b: u128) -> Result<
        StakeEscrow,
        StakeForFeeError,
    > {
        if !self.in_top_list {
            Ok(
                StakeEscrow {
                    fee_a_per_liquidity_checkpoint: cumulative_a,
                    fee_b_per_liquidity_checkpoint: cumulative_b,
                    ..self
                },
            )
        } else if cumulative_a < self.fee_a_per_liquidity_checkpoint || cumulative_b
            < self.fee_b_per_liquidity_checkpoint {
            Err(StakeForFeeError::MathOverflow)
        } else {
            let pending_a = self.fee_a_pending + spec_accrued(
                self.stake_amount,
                cumulative_a,
                self.fee_a_per_liquidity_checkpoint,
            );
            let pending_b = self.fee_b_pending + spec_accrued(
                self.stake_amount,
                cumulative_b,
                self.fee_b_per_liquidity_checkpoint,
            );
            if pending_a > u64::MAX || pending_b > u64::MAX {
                Err(StakeForFeeError::MathOverflow)
            } else {
                Ok(
                    StakeEscrow {
                        fee_a_pending: pending_a as u64,
                        fee_b_pending: pending_b as u64,
                        fee_a_per_liquidity_checkpoint: cumulative_a,
                        fee_b_per_liquidity_checkpoint: cumulative_b,
                        ..self
                    },
                )
            }
        }
    }

    /// Brings the escrow's fees up to the vault's indices. On an error the escrow
    /// is left as it was.
    pub fn sync(&mut self, cumulative_a: u128, cumulative_b: u128) -> (r: Result<
        (),
        StakeForFeeError,
    >)
        ensures
            match old(self).spec_sync(cumulative_a, cumulative_b) {
                Ok(synced) => r is Ok && *final(self) == synced,
                Err(e) => r == Err::<(), StakeForFeeError>(e) && *final(self) == *old(self),
            },
    {
        if self.in_top_list {
            let accrued_a = accrued(
                self.stake_amount,
                cumulative_a,
                self.fee_a_per_liquidity_checkpoint,
            )?;
            let accrued_b = accrued(
                self.stake_amount,
                cumulative_b,
                self.fee_b_per_liquidity_checkpoint,
            )?;
            let pending_a = match self.fee_a_pending.checked_add(accrued_a) {
                Some(v) => v,
                None => {
                    return Err(StakeForFeeError::MathOverflow);
                },
            };
            let pending_b = match self.fee_b_pending.checked_add(accrued_b) {
                Some(v) => v,
                None => {
                    return Err(StakeForFeeError::MathOverflow);
                },
            };
            self.fee_a_pending = pending_a;
            self.fee_b_pending = pending_b;
        }
        self.fee_a_per_liquidity_checkpoint = cumulative_a;
        self.fee_b_per_liquidity_checkpoint = cumulative_b;
        Ok(())
    }

    /// The escrow after a claim capped at `max_fee` on each side, with what the
    /// claim pays out, or the error that stops it.
    pub open spec fn spec_claim(self, cumulative_a: u128, cumulative_b: u128, max_fee: u64)
        -> Result<(StakeEscrow, ClaimedFee), StakeForFeeError> {
        match self.spec_sync(cumulative_a, cumulative_b) {
            Err(e) => Err(e),
            Ok(synced) => {
                let fee_a = spec_payable(synced.fee_a_pending, max_fee);
                let fee_b = spec_payable(synced.fee_b_pending, max_fee);
                if synced.fee_a_claimed_amount + fee_a > u128::MAX || synced.fee_b_claimed_amount
                    + fee_b > u128::MAX {
                    Err(StakeForFeeError::MathOverflow)
                } else {
                    Ok(
                        (
                            StakeEscrow {
                                fee_a_pending: (synced.fee_a_pending - fee_a) as u64,
                                fee_b_pending: (synced.fee_b_pending - fee_b) as u64,
                                fee_a_claimed_amount: (synced.fee_a_claimed_amount
                                    + fee_a) as u128,
                                fee_b_claimed_amount: (synced.fee_b_claimed_amount
                                    + fee_b) as u128,
                                ..synced
                            },
                            ClaimedFee { fee_a, fee_b },
                        ),
                    )
                }
            },
        }
    }

    /// Brings the fees up to the vault's indices, then takes out of the pending
    /// fees what is to be paid to the owner: on each side the pending amount, but
    /// no more than `max_fee`. Returns the amounts to pay. On an error the escrow is
    /// left as it was.
    pub fn claim(&mut self, cumulative_a: u128, cumulative_b: u128, max_fee: u64) -> (r: Result<
        ClaimedFee,
        StakeForFeeError,
    >)
        ensures
            match old(self).spec_claim(cumulative_a, cumulative_b, max_fee) {
                Ok((claimed, fee)) => r == Ok::<ClaimedFee, StakeForFeeError>(fee) && *final(self)
                    == claimed,
                Err(e) => r == Err::<ClaimedFee, StakeForFeeError>(e) && *final(self) == *old(
                    self,
                ),
            },
    {
        let mut synced = *self;
        synced.sync(cumulative_a, cumulative_b)?;
        let fee_a = if synced.fee_a_pending < max_fee {
            synced.fee_a_pending
        } else {
            max_fee
        };
        let fee_b = if synced.fee_b_pending < max_fee {
            synced.fee_b_pending
        } else {
            max_fee
        };
        let claimed_a = match synced.fee_a_claimed_amount.checked_add(fee_a as u128) {
            Some(v) => v,
            None => {
                return Err(StakeForFeeError::MathOverflow);
            },
        };
        let claimed_b = match synced.fee_b_claimed_amount.checked_add(fee_b as u128) {
            Some(v) => v,
            None => {
                return Err(StakeForFeeError::MathOverflow);
            },
        };
        synced.fee_a_pending = synced.fee_a_pending - fee_a;
        synced.fee_b_pending = synced.fee_b_pending - fee_b;
        synced.fee_a_claimed_amount = claimed_a;
        synced.fee_b_claimed_amount = claimed_b;
        *self = synced;
        Ok(ClaimedFee { fee_a, fee_b })
    }
}

/// Computes what a stake earns on one side while the index moves from `checkpoint`
/// to `cumulative`. Fails with `MathOverflow` when the index is behind the
/// checkpoint.
pub fn accrued(stake: u64, cumulative: u128, checkpoint: u128) -> (r: Result<
    u64,
    StakeForFeeError,
>)
    ensures
        cumulative < checkpoint ==> r == Err::<u64, StakeForFeeError>(
            StakeForFeeError::MathOverflow,
        ),
        cumulative >= checkpoint ==> r == Ok::<u64, StakeForFeeError>(
            spec_accrued(stake, cumulative, checkpoint) as u64,
        ),
        0 <= spec_accrued(stake, cumulative, checkpoint) <= u64::MAX || cumulative < checkpoint,
{
    if cumulative < checkpoint {
        return Err(StakeForFeeError::MathOverflow);
    }
    let delta: u128 = cumulative - checkpoint;
    proof {
        lemma_accrued_bound(stake, cumulative, checkpoint);
    }
    let exact = mul_shr(stake as u128, delta, Rounding::Down)?;
    if exact > 0xffff_ffff_ffff_ffff {
        Ok(0xffff_ffff_ffff_ffff)
    } else {
        Ok(exact as u64)
    }
}

/// What a stake earns fits in 64 bits, and before the cap in 128 bits.
pub proof fn lemma_accrued_bound(stake: u64, cumulative: u128, checkpoint: u128)
    requires
        cumulative >= checkpoint,
    ensures
        0 <= spec_mul_shr(stake as int, cumulative - checkpoint, Rounding::Down) <= cumulative
            - checkpoint,
        0 <= spec_accrued(stake, cumulative, checkpoint) <= u64::MAX,
{
    let d: int = cumulative - checkpoint;
    let s: int = stake as int;
    assert(0 <= s * d <= scale() * d) by (nonlinear_arith)
        requires
            0 <= s < scale(),
            0 <= d,
    ;
    vstd::arithmetic::div_mod::lemma_div_pos_is_pos(s * d, scale());
    vstd::arithmetic::div_mod::lemma_div_is_ordered(s * d, scale() * d, scale());
    vstd::arithmetic::div_mod::lemma_div_multiples_vanish(d, scale());
    assert(scale() * d == d * scale()) by (nonlinear_arith);
}

} // verus!
