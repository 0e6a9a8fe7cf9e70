use crate::errors::StakeForFeeError;
use crate::full_balance_list::registers;
use crate::full_balance_list::registration_refused;
use crate::full_balance_list::FullBalanceList;
use crate::full_balance_list::Registration;
use crate::full_balance_list::RegistrationKind;
use crate::full_balance_list::StakerBalance;
use crate::pubkey::Pubkey;
use crate::stake_escrow::StakeEscrow;
use crate::top_list::occupied_count;
use crate::top_list::total_stake;
use crate::top_list::TopStakerList;
use crate::unstake::Unstake;
use crate::vault::FeeEmission;
use crate::vault::FeeVault;
use crate::vault::Metrics;
use crate::vault::PulledFee;
use vstd::prelude::*;

verus! {

/// Whether a vault, its full balance list and its top staker list belong
/// together: both lists name the vault, the vault's counts and sums are those of
/// the lists, and every staker of the top list has an entry in the full balance
/// list.
pub open spec fn system_wf(
    vault: FeeVault,
    vault_key: Pubkey,
    full_balance_list: &FullBalanceList,
    top_staker_list: &TopStakerList,
) -> bool {
    &&& registry_wf(vault, vault_key, full_balance_list)
    &&& top_staker_list.wf()
    &&& top_staker_list.metadata.vault@ == vault_key@
    &&& top_staker_list@.len() == vault.top_staker_info.top_list_length
    &&& vault.top_staker_info.effective_stake_amount == total_stake(top_staker_list@)
    &&& vault.top_staker_info.current_length == occupied_count(top_staker_list@)
    &&& forall|i: int|
        0 <= i < top_staker_list@.len() && (#[trigger] top_staker_list@[i]).spec_is_occupied()
            ==> top_staker_list@[i].full_balance_index < full_balance_list@.len()
}

/// Whether a vault and its full balance list belong together: the list names the
/// vault, and the vault counts the entries of the list.
pub open spec fn registry_wf(
    vault: FeeVault,
    vault_key: Pubkey,
    full_balance_list: &FullBalanceList,
) -> bool {
    &&& full_balance_list.wf()
    &&& full_balance_list.metadata.vault@ == vault_key@
    &&& vault.metrics.total_stake_escrow_count == full_balance_list@.len()
}

/// Whether `escrow` is an escrow of the vault at `vault_key`, with an entry of
/// its own in the full balance list.
pub open spec fn escrow_matches(
    vault_key: Pubkey,
    balances: Seq<StakerBalance>,
    escrow: StakeEscrow,
) -> bool {
    &&& escrow.vault@ == vault_key@
    &&& escrow.full_balance_index < balances.len()
    &&& balances[escrow.full_balance_index as int].owner@ == escrow.owner@
}

/// What a new escrow's creation reports.
#[derive(Clone, Copy, Debug, PartialEq, Eq)]
pub struct StakeEscrowCreated {
    /// The new escrow.
    pub escrow: StakeEscrow,
    /// The entry the owner was given in the full balance list.
    pub registration: Registration,
}

/// What a withdrawal reports.
#[derive(Clone, Copy, Debug, PartialEq, Eq, Structural)]
pub struct WithdrawSucceed {
    /// The amount to hand to the owner.
    pub amount: u64,
    /// What the escrow is still unstaking.
    pub new_stake_escrow_ongoing_total_unstake_amount: u64,
}

/// What a claim reports.
#[derive(Clone, Copy, Debug, PartialEq, Eq, Structural)]
pub struct ClaimFeeSucceed {
    /// What the update of the vault's fees did before the claim.
    pub fee_emission: FeeEmission,
    /// Fee of side A to hand to the owner.
    pub fee_a_amount: u64,
    /// Fee of side B to hand to the owner.
    pub fee_b_amount: u64,
    /// Fee of side A paid to the owner so far.
    pub total_fee_a_amount: u128,
    /// Fee of side B paid to the owner so far.
    pub total_fee_b_amount: u128,
}

impl FeeVault {
    /// The vault and the escrow after a withdrawal, with what it reports, or the
    /// error that stops it.
    ///
    /// The ticket must be one of the escrow, and the escrow one of the vault:
    /// `InvalidStakeEscrow` otherwise. Before the ticket's release time the
    /// withdrawal fails with `CannotWithdrawUnstakeAmount`. The amount then leaves
    /// what the escrow is unstaking, and the vault's totals.
    pub open spec fn spec_withdraw(
        self,
        vault_key: Pubkey,
        escrow: StakeEscrow,
        escrow_key: Pubkey,
        unstake: Unstake,
        now: i64,
    ) -> Result<(FeeVault, StakeEscrow, WithdrawSucceed), StakeForFeeError> {
        if escrow.vault@ != vault_key@ || unstake.stake_escrow@ != escrow_key@ {
            Err(StakeForFeeError::InvalidStakeEscrow)
        } else if now < unstake.release_at {
            Err(StakeForFeeError::CannotWithdrawUnstakeAmount)
        } else if escrow.ongoing_total_partial_unstake_amount < unstake.unstake_amount
            || self.metrics.total_staked_amount < unstake.unstake_amount
            || self.metrics.ongoing_total_partial_unstake_amount < unstake.unstake_amount {
            Err(StakeForFeeError::MathOverflow)
        } else {
            let ongoing = (escrow.ongoing_total_partial_unstake_amount
                - unstake.unstake_amount) as u64;
            Ok(
                (
                    FeeVault {
                        metrics: Metrics {
                            total_staked_amount: (self.metrics.total_staked_amount
                                - unstake.unstake_amount) as u64,
                            ongoing_total_partial_unstake_amount: (
                            self.metrics.ongoing_total_partial_unstake_amount
                                - unstake.unstake_amount) as u64,
                            ..self.metrics
                        },
                        ..self
                    },
                    StakeEscrow { ongoing_total_partial_unstake_amount: ongoing, ..escrow },
                    WithdrawSucceed {
                        amount: unstake.unstake_amount,
                        new_stake_escrow_ongoing_total_unstake_amount: ongoing,
                    },
                ),
            )
        }
    }

    /// Settles an unstake ticket whose release time has come: the ticket is used
    /// up, and the amount it names is to be handed to the owner. On an error
    /// nothing is changed.
    pub fn withdraw(
        &mut self,
        vault_key: &Pubkey,
        stake_escrow: &mut StakeEscrow,
        escrow_key: &Pubkey,
        unstake: Unstake,
        now: i64,
    ) -> (r: Result<WithdrawSucceed, StakeForFeeError>)
        ensures
            match old(self).spec_withdraw(*vault_key, *old(stake_escrow), *escrow_key, unstake, now) {
                Ok((vault, escrow, report)) => {
                    &&& r == Ok::<WithdrawSucceed, StakeForFeeError>(report)
                    &&& *final(self) == vault
                    &&& *final(stake_escrow) == escrow
                },
                Err(e) => {
                    &&& r == Err::<WithdrawSucceed, StakeForFeeError>(e)
                    &&& *final(self) == *old(self)
                    &&& *final(stake_escrow) == *old(stake_escrow)
                },
            },
    {
        if !stake_escrow.vault.equals(vault_key) || !unstake.stake_escrow.equals(escrow_key) {
            return Err(StakeForFeeError::InvalidStakeEscrow);
        }
        if !unstake.is_released(now) {
            return Err(StakeForFeeError::CannotWithdrawUnstakeAmount);
        }
        let amount = unstake.unstake_amount;
        let ongoing = match stake_escrow.ongoing_total_partial_unstake_amount.checked_sub(amount) {
            Some(v) => v,
            None => {
                return Err(StakeForFeeError::MathOverflow);
            },
        };
        let total = match self.metrics.total_staked_amount.checked_sub(amount) {
            Some(v) => v,
            None => {
                return Err(StakeForFeeError::MathOverflow);
            },
        };
        let total_ongoing = match self.metrics.ongoing_total_partial_unstake_amount.checked_sub(
            amount,
        ) {
            Some(v) => v,
            None => {
                return Err(StakeForFeeError::MathOverflow);
            },
        };
        stake_escrow.ongoing_total_partial_unstake_amount = ongoing;
        self.metrics.total_staked_amount = total;
        self.metrics.ongoing_total_partial_unstake_amount = total_ongoing;
        Ok(WithdrawSucceed { amount, new_stake_escrow_ongoing_total_unstake_amount: ongoing })
    }

    /// The vault and the escrow after a claim capped at `max_fee` on each side,
    /// with what it reports, or the error that stops it.
    ///
    /// The escrow must be one of the vault: `InvalidStakeEscrow` otherwise. The
    /// vault's fees are brought up to `now` first; the escrow is then credited up
    /// to the indices, and pays out its pending fees under the cap.
    pub open spec fn spec_claim_fee(
        self,
        vault_key: Pubkey,
        escrow: StakeEscrow,
        max_fee: u64,
        now: i64,
        pulled: Option<PulledFee>,
    ) -> Result<(FeeVault, StakeEscrow, ClaimFeeSucceed), StakeForFeeError> {
        if escrow.vault@ != vault_key@ {
            Err(StakeForFeeError::InvalidStakeEscrow)
        } else {
            match self.spec_update_fees(now, pulled) {
                Err(e) => Err(e),
                Ok((vault, fee_emission)) => match escrow.spec_claim(
                    vault.top_staker_info.cumulative_fee_a_per_liquidity,
                    vault.top_staker_info.cumulative_fee_b_per_liquidity,
                    max_fee,
                ) {
                    Err(e) => Err(e),
                    Ok((claimed, fee)) => Ok(
                        (
                            vault,
                            claimed,
                            ClaimFeeSucceed {
                                fee_emission,
                                fee_a_amount: fee.fee_a,
                                fee_b_amount: fee.fee_b,
                                total_fee_a_amount: claimed.fee_a_claimed_amount,
                                total_fee_b_amount: claimed.fee_b_claimed_amount,
                            },
                        ),
                    ),
                },
            }
        }
    }

    /// Pays out what a staker has earned: brings the vault's fees up to `now`,
    /// credits the escrow, and takes out of its pending fees what is to be handed
    /// to the owner, on each side no more than `max_fee`. On an error nothing is
    /// changed.
    pub fn claim_fee(
        &mut self,
        vault_key: &Pubkey,
        stake_escrow: &mut StakeEscrow,
        max_fee: u64,
        now: i64,
        pulled: Option<PulledFee>,
    ) -> (r: Result<ClaimFeeSucceed, StakeForFeeError>)
        ensures
            match old(self).spec_claim_fee(*vault_key, *old(stake_escrow), max_fee, now, pulled) {
                Ok((vault, escrow, report)) => {
                    &&& r == Ok::<ClaimFeeSucceed, StakeForFeeError>(report)
                    &&& *final(self) == vault
                    &&& *final(stake_escrow) == escrow
                },
                Err(e) => {
                    &&& r == Err::<ClaimFeeSucceed, StakeForFeeError>(e)
                    &&& *final(self) == *old(self)
                    &&& *final(stake_escrow) == *old(stake_escrow)
                },
            },
    {
        if !stake_escrow.vault.equals(vault_key) {
            return Err(StakeForFeeError::InvalidStakeEscrow);
        }
        let mut vault = *self;
        let fee_emission = vault.update_fees(now, pulled)?;
        let mut escrow = *stake_escrow;
        let fee = escrow.claim(
            vault.top_staker_info.cumulative_fee_a_per_liquidity,
            vault.top_staker_info.cumulative_fee_b_per_liquidity,
            max_fee,
        )?;
        *self = vault;
        *stake_escrow = escrow;
        Ok(
            ClaimFeeSucceed {
                fee_emission,
                fee_a_amount: fee.fee_a,
                fee_b_amount: fee.fee_b,
                total_fee_a_amount: escrow.fee_a_claimed_amount,
                total_fee_b_amount: escrow.fee_b_claimed_amount,
            },
        )
    }

    /// Creates the escrow of `owner`: gives the owner an entry in the full balance
    /// list and makes an escrow with nothing staked, whose checkpoints are the
    /// vault's current indices. The vault counts the entry if it is a new one.
    ///
    /// Fails with `FullBalanceListFull`, changing nothing, exactly when the owner
    /// needs a new entry and the list has reached its limit.
    pub fn initialize_stake_escrow(
        &mut self,
        vault_key: &Pubkey,
        full_balance_list: &mut FullBalanceList,
        owner: Pubkey,
        now: i64,
    ) -> (r: Result<StakeEscrowCreated, StakeForFeeError>)
        requires
            registry_wf(*old(self), *vault_key, old(full_balance_list)),
        ensures
            registry_wf(*final(self), *vault_key, final(full_balance_list)),
            match r {
                Ok(created) => {
                    &&& registers(
                        old(full_balance_list)@,
                        owner,
                        created.registration,
                        final(full_balance_list)@,
                    )
                    &&& created.escrow == StakeEscrow::spec_new(
                        owner,
                        *vault_key,
                        created.registration.index,
                        old(self).top_staker_info.cumulative_fee_a_per_liquidity,
                        old(self).top_staker_info.cumulative_fee_b_per_liquidity,
                        now,
                    )
                    &&& *final(self) == FeeVault {
                        metrics: Metrics {
                            total_stake_escrow_count: final(full_balance_list)@.len() as u64,
                            ..old(self).metrics
                        },
                        ..*old(self)
                    }
                },
                Err(e) => {
                    &&& e == StakeForFeeError::FullBalanceListFull
                    &&& registration_refused(old(full_balance_list)@, owner)
                    &&& final(full_balance_list)@ == old(full_balance_list)@
                    &&& *final(self) == *old(self)
                },
            },
    {
        let registration = full_balance_list.register(owner)?;
        match registration.kind {
            RegistrationKind::Appended => {
                self.metrics.total_stake_escrow_count = self.metrics.total_stake_escrow_count + 1;
            },
            _ => {},
        }
        let escrow = StakeEscrow::new(
            owner,
            *vault_key,
            registration.index,
            self.top_staker_info.cumulative_fee_a_per_liquidity,
            self.top_staker_info.cumulative_fee_b_per_liquidity,
            now,
        );
        Ok(StakeEscrowCreated { escrow, registration })
    }
}

} // verus!
