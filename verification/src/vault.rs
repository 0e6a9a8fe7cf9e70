use crate::errors::StakeForFeeError;
use crate::fee_drip::TopStakerInfo;
use crate::pubkey::Pubkey;
use vstd::prelude::*;

verus! {

/// The parameters a vault runs with.
#[derive(Clone, Copy, Debug, PartialEq, Eq, Structural)]
pub struct Configuration {
    /// Seconds over which pulled fees are released in full.
    pub seconds_to_full_unlock: u64,
    /// Seconds between an unstake request and its withdrawal.
    pub unstake_lock_duration: u64,
    /// The first moment at which fees are pulled and released.
    pub start_claim_fee_timestamp: i64,
}

/// Running totals of a vault.
#[derive(Clone, Copy, Debug, PartialEq, Eq, Structural)]
pub struct Metrics {
    /// Everything the vault holds of the stake token: amounts staked and amounts
    /// being unstaked.
    pub total_staked_amount: u64,
    /// Fee of side A pulled from the pool over the vault's lifetime.
    pub total_fee_a_amount: u128,
    /// Fee of side B pulled from the pool over the vault's lifetime.
    pub total_fee_b_amount: u128,
    /// Number of entries ever added to the full balance list.
    pub total_stake_escrow_count: u64,
    /// Total of the unstake requests that are neither withdrawn nor cancelled.
    pub ongoing_total_partial_unstake_amount: u64,
}

/// A vault: the accounts it works with, its parameters and its running state.
#[derive(Clone, Copy, Debug, PartialEq, Eq)]
pub struct FeeVault {
    pub lock_escrow: Pubkey,
    pub stake_mint: Pubkey,
    pub pool: Pubkey,
    pub stake_token_vault: Pubkey,
    pub token_a_vault: Pubkey,
    pub token_b_vault: Pubkey,
    pub top_staker_list: Pubkey,
    pub full_balance_list: Pubkey,
    pub metrics: Metrics,
    pub configuration: Configuration,
    pub top_staker_info: TopStakerInfo,
    pub creator: Pubkey,
    pub created_at: i64,
    pub bump: u8,
}

/// Fees that the pool paid into the vault's accounts in one pull, by side.
#[derive(Clone, Copy, Debug, PartialEq, Eq, Structural)]
pub struct PulledFee {
    pub fee_a: u64,
    pub fee_b: u64,
}

/// What one update of a vault's fees did.
#[derive(Clone, Copy, Debug, PartialEq, Eq, Structural)]
pub struct FeeEmission {
    /// Fee of side A added to the held back fees.
    pub token_a_claimed: u64,
    /// Fee of side B added to the held back fees.
    pub token_b_claimed: u64,
    /// Fee of side A released to the stakers.
    pub token_a_released: u64,
    /// Fee of side B released to the stakers.
    pub token_b_released: u64,
    /// The index of side A after the update.
    pub cumulative_fee_a_per_liquidity: u128,
    /// The index of side B after the update.
    pub cumulative_fee_b_per_liquidity: u128,
    /// The stake that shares the released fees.
    pub effective_stake_amount: u64,
}

impl FeeVault {
    /// Whether fees handed in at `now` are taken: fee distribution has started,
    /// a pull is due, and fees were handed in.
    pub open spec fn spec_takes_pull(self, now: i64, pulled: Option<PulledFee>) -> bool {
        &&& now >= self.configuration.start_claim_fee_timestamp
        &&& self.top_staker_info.spec_pull_due(now)
        &&& pulled is Some
    }

    /// The vault after its fees are brought up to `now`, with what was done, or
    /// the error that stops it.
    ///
    /// Before fee distribution starts nothing happens. After that, fees pulled
    /// from the pool are first added to the held back fees and to the lifetime
    /// totals, if a pull is due; then the release that is due is made.
    pub open spec fn spec_update_fees(self, now: i64, pulled: Option<PulledFee>) -> Result<
        (FeeVault, FeeEmission),
        StakeForFeeError,
    > {
        if now < self.configuration.start_claim_fee_timestamp {
            Ok(
                (
                    self,
                    FeeEmission {
                        token_a_claimed: 0,
                        token_b_claimed: 0,
                        token_a_released: 0,
                        token_b_released: 0,
                        cumulative_fee_a_per_liquidity: self.top_staker_info.cumulative_fee_a_per_liquidity,
                        cumulative_fee_b_per_liquidity: self.top_staker_info.cumulative_fee_b_per_liquidity,
                        effective_stake_amount: self.top_staker_info.effective_stake_amount,
                    },
                ),
            )
        } else {
            let taken = if self.spec_takes_pull(now, pulled) {
                pulled->Some_0
            } else {
                PulledFee { fee_a: 0, fee_b: 0 }
            };
            let after_pull = if self.spec_takes_pull(now, pulled) {
                self.top_staker_info.spec_pull(taken.fee_a, taken.fee_b, now)
            } else {
                Ok(self.top_staker_info)
            };
            match after_pull {
                Err(e) => Err(e),
                Ok(info) => {
                    if self.metrics.total_fee_a_amount + taken.fee_a > u128::MAX
                        || self.metrics.total_fee_b_amount + taken.fee_b > u128::MAX {
                        Err(StakeForFeeError::MathOverflow)
                    } else {
                        match info.spec_drip(self.configuration.seconds_to_full_unlock, now) {
                            Err(e) => Err(e),
                            Ok((dripped, fee)) => Ok(
                                (
                                    FeeVault {
                                        top_staker_info: dripped,
                                        metrics: Metrics {
                                            total_fee_a_amount: (self.metrics.total_fee_a_amount
                                                + taken.fee_a) as u128,
                                            total_fee_b_amount: (self.metrics.total_fee_b_amount
                                                + taken.fee_b) as u128,
                                            ..self.metrics
                                        },
                                        ..self
                                    },
                                    FeeEmission {
                                        token_a_claimed: taken.fee_a,
                                        token_b_claimed: taken.fee_b,
                                        token_a_released: fee.fee_a,
                                        token_b_released: fee.fee_b,
                                        cumulative_fee_a_per_liquidity: dripped.cumulative_fee_a_per_liquidity,
                                        cumulative_fee_b_per_liquidity: dripped.cumulative_fee_b_per_liquidity,
                                        effective_stake_amount: dripped.effective_stake_amount,
                                    },
                                ),
                            ),
                        }
                    }
                },
            }
        }
    }

    /// Tells whether fees are to be pulled from the pool at `now`: fee distribution
    /// has started and the time since the last pull is at least the minimum.
    pub fn should_pull(&self, now: i64) -> (r: bool)
        ensures
            r == (now >= self.configuration.start_claim_fee_timestamp
                && self.top_staker_info.spec_pull_due(now)),
    {
        now >= self.configuration.start_claim_fee_timestamp && self.top_staker_info.pull_due(now)
    }

    /// Brings the vault's fees up to `now`: takes in the fees pulled from the pool,
    /// then releases what is due. Returns what was done. On an error nothing is
    /// changed.
    pub fn update_fees(&mut self, now: i64, pulled: Option<PulledFee>) -> (r: Result<
        FeeEmission,
        StakeForFeeError,
    >)
        ensures
            match old(self).spec_update_fees(now, pulled) {
                Ok((after, emission)) => r == Ok::<FeeEmission, StakeForFeeError>(emission)
                    && *final(self) == after,
                Err(e) => r == Err::<FeeEmission, StakeForFeeError>(e) && *final(self) == *old(
                    self,
                ),
            },
    {
        if now < self.configuration.start_claim_fee_timestamp {
            return Ok(
                FeeEmission {
                    token_a_claimed: 0,
                    token_b_claimed: 0,
                    token_a_released: 0,
                    token_b_released: 0,
                    cumulative_fee_a_per_liquidity: self.top_staker_info.cumulative_fee_a_per_liquidity,
                    cumulative_fee_b_per_liquidity: self.top_staker_info.cumulative_fee_b_per_liquidity,
                    effective_stake_amount: self.top_staker_info.effective_stake_amount,
                },
            );
        }
        let mut info = self.top_staker_info;
        let taken = match pulled {
            Some(fee) => {
                if info.pull_due(now) {
                    info.pull(fee.fee_a, fee.fee_b, now)?;
                    fee
                } else {
                    PulledFee { fee_a: 0, fee_b: 0 }
                }
            },
            None => PulledFee { fee_a: 0, fee_b: 0 },
        };
        let total_a = match self.metrics.total_fee_a_amount.checked_add(taken.fee_a as u128) {
            Some(v) => v,
            None => {
                return Err(StakeForFeeError::MathOverflow);
            },
        };
        let total_b = match self.metrics.total_fee_b_amount.checked_add(taken.fee_b as u128) {
            Some(v) => v,
            None => {
                return Err(StakeForFeeError::MathOverflow);
            },
        };
        let fee = info.drip(self.configuration.seconds_to_full_unlock, now)?;
        self.top_staker_info = info;
        self.metrics.total_fee_a_amount = total_a;
        self.metrics.total_fee_b_amount = total_b;
        Ok(
            FeeEmission {
                token_a_claimed: taken.fee_a,
                token_b_claimed: taken.fee_b,
                token_a_released: fee.fee_a,
                token_b_released: fee.fee_b,
                cumulative_fee_a_per_liquidity: info.cumulative_fee_a_per_liquidity,
                cumulative_fee_b_per_liquidity: info.cumulative_fee_b_per_liquidity,
                effective_stake_amount: info.effective_stake_amount,
            },
        )
    }

    /// Keeps the fee release moving when no staker acts: brings the vault's fees
    /// up to `now` and changes nothing else.
    ///
    /// `program_instructions` is the number of instructions of this program in
    /// the transaction. Fails with `InvalidFeeCrankIx`, changing nothing, when the
    /// crank is not the only one.
    pub fn claim_fee_crank(
        &mut self,
        now: i64,
        pulled: Option<PulledFee>,
        program_instructions: u64,
    ) -> (r: Result<FeeEmission, StakeForFeeError>)
        ensures
            program_instructions != 1 ==> r == Err::<FeeEmission, StakeForFeeError>(
                StakeForFeeError::InvalidFeeCrankIx,
            ) && *final(self) == *old(self),
            program_instructions == 1 ==> match old(self).spec_update_fees(now, pulled) {
                Ok((after, emission)) => r == Ok::<FeeEmission, StakeForFeeError>(emission)
                    && *final(self) == after,
                Err(e) => r == Err::<FeeEmission, StakeForFeeError>(e) && *final(self) == *old(
                    self,
                ),
            },
    {
        if program_instructions != 1 {
            return Err(StakeForFeeError::InvalidFeeCrankIx);
        }
        self.update_fees(now, pulled)
    }
}

} // verus!
