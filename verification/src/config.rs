use crate::constant::MAX_JOIN_WINDOW_DURATION;
use crate::constant::MAX_LIST_LENGTH;
use crate::constant::MAX_SECONDS_TO_FULL_UNLOCK;
use crate::constant::MAX_UNSTAKE_LOCK_DURATION;
use crate::constant::MIN_LIST_LENGTH;
use crate::constant::MIN_SECONDS_TO_FULL_UNLOCK;
use crate::constant::MIN_UNSTAKE_LOCK_DURATION;
use crate::errors::StakeForFeeError;
use crate::fee_drip::TopStakerInfo;
use crate::full_balance_list::FullBalanceList;
use crate::full_balance_list::StakerBalance;
use crate::operations::system_wf;
use crate::pubkey::Pubkey;
use crate::top_list::StakerMetadata;
use crate::top_list::TopStakerList;
use crate::vault::Configuration;
use crate::vault::FeeEmission;
use crate::vault::FeeVault;
use crate::vault::Metrics;
use vstd::prelude::*;

verus! {

/// The wrapped SOL mint.
pub const SOL: [u8; 32] = [
    6, 155, 136, 87, 254, 171, 129, 132, 251, 104, 127, 99, 70, 24, 192, 53, 218, 196, 57, 220, 26,
    235, 59, 85, 152, 160, 240, 0, 0, 0, 0, 1,
];

/// The USDC mint.
pub const USDC: [u8; 32] = [
    198, 250, 122, 243, 190, 219, 173, 58, 61, 101, 243, 106, 171, 201, 116, 49, 177, 187, 228, 194,
    210, 246, 224, 228, 124, 166, 2, 3, 69, 47, 93, 97,
];

/// Whether `mint` is one of the mints a pool may quote in.
pub open spec fn spec_is_quote_mint(mint: Pubkey) -> bool {
    mint@ == SOL@ || mint@ == USDC@
}

/// Tells whether `mint` is one of the mints a pool may quote in.
pub fn is_quote_mint(mint: &Pubkey) -> (r: bool)
    ensures
        r == spec_is_quote_mint(*mint),
{
    mint.equals(&Pubkey::new_from_array(SOL)) || mint.equals(&Pubkey::new_from_array(USDC))
}

/// Whether `stake_mint` can be staked for the fees of a pool of the two mints
/// given: it is one of the two, it is no quote mint, and the other one is.
pub open spec fn spec_is_valid_stake_mint(
    token_a_mint: Pubkey,
    token_b_mint: Pubkey,
    stake_mint: Pubkey,
) -> bool {
    ||| (stake_mint@ == token_a_mint@ && !spec_is_quote_mint(token_a_mint) && spec_is_quote_mint(
        token_b_mint,
    ))
    ||| (stake_mint@ == token_b_mint@ && !spec_is_quote_mint(token_b_mint) && spec_is_quote_mint(
        token_a_mint,
    ))
}

/// Tells whether `stake_mint` can be staked for the fees of a pool of the two
/// mints given.
pub fn is_valid_stake_mint(token_a_mint: &Pubkey, token_b_mint: &Pubkey, stake_mint: &Pubkey) -> (r:
    bool)
    ensures
        r == spec_is_valid_stake_mint(*token_a_mint, *token_b_mint, *stake_mint),
{
    let a_quotes = is_quote_mint(token_a_mint);
    let b_quotes = is_quote_mint(token_b_mint);
    (stake_mint.equals(token_a_mint) && !a_quotes && b_quotes) || (stake_mint.equals(token_b_mint)
        && !b_quotes && a_quotes)
}

/// A template of the parameters that vaults are created with.
#[derive(Clone, Copy, Debug, PartialEq, Eq, Structural)]
pub struct Config {
    /// Seconds over which pulled fees are released in full.
    pub seconds_to_full_unlock: u64,
    /// Seconds between an unstake request and its withdrawal.
    pub unstake_lock_duration: u64,
    /// Seconds that stakers are given to join before the first fee pull.
    pub join_window_duration: u64,
    /// Number of slots of the top staker list.
    pub top_list_length: u16,
}

/// What a template is made from.
#[derive(Clone, Copy, Debug, PartialEq, Eq, Structural)]
pub struct InitializeConfigParams {
    pub top_list_length: u16,
    /// The number under which the template is kept.
    pub index: u64,
    pub seconds_to_full_unlock: u64,
    pub unstake_lock_duration: u64,
    pub join_window_duration: u64,
}

/// The error of the first parameter that is out of its range, in the order: top
/// list length, seconds to full unlock, unstake lock duration, join window
/// duration; or none where all are in range.
pub open spec fn spec_range_error(
    top_list_length: u16,
    seconds_to_full_unlock: u64,
    unstake_lock_duration: u64,
    join_window_duration: u64,
) -> Option<StakeForFeeError> {
    if !(MIN_LIST_LENGTH <= top_list_length <= MAX_LIST_LENGTH) {
        Some(StakeForFeeError::InvalidTopListLength)
    } else if !(MIN_SECONDS_TO_FULL_UNLOCK <= seconds_to_full_unlock
        <= MAX_SECONDS_TO_FULL_UNLOCK) {
        Some(StakeForFeeError::InvalidSecondsToFullUnlock)
    } else if !(MIN_UNSTAKE_LOCK_DURATION <= unstake_lock_duration <= MAX_UNSTAKE_LOCK_DURATION) {
        Some(StakeForFeeError::InvalidUnstakeLockDuration)
    } else if join_window_duration > MAX_JOIN_WINDOW_DURATION {
        Some(StakeForFeeError::InvalidJoinWindowDuration)
    } else {
        None
    }
}

impl Config {
    /// Every parameter of the template is in its range.
    pub open spec fn wf(self) -> bool {
        spec_range_error(
            self.top_list_length,
            self.seconds_to_full_unlock,
            self.unstake_lock_duration,
            self.join_window_duration,
        ) is None
    }

    /// Checks that every parameter of the template is in its range, and says
    /// which is not.
    pub fn validate(&self) -> (r: Result<(), StakeForFeeError>)
        ensures
            match spec_range_error(
                self.top_list_length,
                self.seconds_to_full_unlock,
                self.unstake_lock_duration,
                self.join_window_duration,
            ) {
                Some(e) => r == Err::<(), StakeForFeeError>(e),
                None => r is Ok,
            },
    {
        if self.top_list_length < MIN_LIST_LENGTH || self.top_list_length > MAX_LIST_LENGTH {
            return Err(StakeForFeeError::InvalidTopListLength);
        }
        if self.seconds_to_full_unlock < MIN_SECONDS_TO_FULL_UNLOCK || self.seconds_to_full_unlock
            > MAX_SECONDS_TO_FULL_UNLOCK {
            return Err(StakeForFeeError::InvalidSecondsToFullUnlock);
        }
        if self.unstake_lock_duration < MIN_UNSTAKE_LOCK_DURATION || self.unstake_lock_duration
            > MAX_UNSTAKE_LOCK_DURATION {
            return Err(StakeForFeeError::InvalidUnstakeLockDuration);
        }
        if self.join_window_duration > MAX_JOIN_WINDOW_DURATION {
            return Err(StakeForFeeError::InvalidJoinWindowDuration);
        }
        Ok(())
    }

    /// Makes a template from `params`. Fails with the error of the first parameter
    /// that is out of its range.
    pub fn initialize(params: &InitializeConfigParams) -> (r: Result<Config, StakeForFeeError>)
        ensures
            match spec_range_error(
                params.top_list_length,
                params.seconds_to_full_unlock,
                params.unstake_lock_duration,
                params.join_window_duration,
            ) {
                Some(e) => r == Err::<Config, StakeForFeeError>(e),
                None => r == Ok::<Config, StakeForFeeError>(
                    Config {
                        seconds_to_full_unlock: params.seconds_to_full_unlock,
                        unstake_lock_duration: params.unstake_lock_duration,
                        join_window_duration: params.join_window_duration,
                        top_list_length: params.top_list_length,
                    },
                ) && r->Ok_0.wf(),
            },
    {
        let config = Config {
            seconds_to_full_unlock: params.seconds_to_full_unlock,
            unstake_lock_duration: params.unstake_lock_duration,
            join_window_duration: params.join_window_duration,
            top_list_length: params.top_list_length,
        };
        config.validate()?;
        Ok(config)
    }
}

/// The pool a vault is created for, as far as the vault needs to know it.
#[derive(Clone, Copy, Debug, PartialEq, Eq)]
pub struct PoolInfo {
    pub pool: Pubkey,
    pub token_a_mint: Pubkey,
    pub token_b_mint: Pubkey,
    /// Whether the pool is a constant product pool.
    pub is_constant_product: bool,
}

/// The accounts a vault is created with.
#[derive(Clone, Copy, Debug, PartialEq, Eq)]
pub struct VaultAccounts {
    pub lock_escrow: Pubkey,
    /// Who owns the lock escrow; it must be the vault.
    pub lock_escrow_owner: Pubkey,
    pub stake_mint: Pubkey,
    pub stake_token_vault: Pubkey,
    pub token_a_vault: Pubkey,
    pub token_b_vault: Pubkey,
    pub top_staker_list: Pubkey,
    pub full_balance_list: Pubkey,
    pub creator: Pubkey,
    pub bump: u8,
}

/// The moment at which a new vault starts to distribute fees, or the error that
/// refuses the one asked for.
///
/// Where none is asked for, it is `now` plus the template's join window. One
/// that is asked for must not lie before `now`, nor further ahead than the longest
/// join window: `InvalidCustomStartFeeDistributeTimestamp` otherwise.
pub open spec fn spec_start_timestamp(
    join_window_duration: u64,
    custom_start_claim_fee_timestamp: Option<i64>,
    now: i64,
) -> Result<i64, StakeForFeeError> {
    match custom_start_claim_fee_timestamp {
        Some(start) => if now <= start <= now + MAX_JOIN_WINDOW_DURATION {
            Ok(start)
        } else {
            Err(StakeForFeeError::InvalidCustomStartFeeDistributeTimestamp)
        },
        None => if now + join_window_duration > i64::MAX {
            Err(StakeForFeeError::MathOverflow)
        } else {
            Ok((now + join_window_duration) as i64)
        },
    }
}

/// The vault that `initialize` makes, or the error that stops it.
pub open spec fn spec_initialize_vault(
    vault_key: Pubkey,
    pool: PoolInfo,
    accounts: VaultAccounts,
    config: Config,
    custom_start_claim_fee_timestamp: Option<i64>,
    now: i64,
) -> Result<FeeVault, StakeForFeeError> {
    if !pool.is_constant_product {
        Err(StakeForFeeError::OnlyConstantProductPool)
    } else if accounts.lock_escrow_owner@ != vault_key@ {
        Err(StakeForFeeError::InvalidEscrowOwner)
    } else if !spec_is_valid_stake_mint(pool.token_a_mint, pool.token_b_mint, accounts.stake_mint) {
        Err(StakeForFeeError::MustHaveQuoteTokenOrInvalidStakeMint)
    } else if spec_range_error(
        config.top_list_length,
        config.seconds_to_full_unlock,
        config.unstake_lock_duration,
        config.join_window_duration,
    ) is Some {
        Err(
            spec_range_error(
                config.top_list_length,
                config.seconds_to_full_unlock,
                config.unstake_lock_duration,
                config.join_window_duration,
            )->Some_0,
        )
    } else {
        match spec_start_timestamp(
            config.join_window_duration,
            custom_start_claim_fee_timestamp,
            now,
        ) {
            Err(e) => Err(e),
            Ok(start) => Ok(
                FeeVault {
                    lock_escrow: accounts.lock_escrow,
                    stake_mint: accounts.stake_mint,
                    pool: pool.pool,
                    stake_token_vault: accounts.stake_token_vault,
                    token_a_vault: accounts.token_a_vault,
                    token_b_vault: accounts.token_b_vault,
                    top_staker_list: accounts.top_staker_list,
                    full_balance_list: accounts.full_balance_list,
                    metrics: Metrics {
                        total_staked_amount: 0,
                        total_fee_a_amount: 0,
                        total_fee_b_amount: 0,
                        total_stake_escrow_count: 0,
                        ongoing_total_partial_unstake_amount: 0,
                    },
                    configuration: Configuration {
                        seconds_to_full_unlock: config.seconds_to_full_unlock,
                        unstake_lock_duration: config.unstake_lock_duration,
                        start_claim_fee_timestamp: start,
                    },
                    top_staker_info: TopStakerInfo {
                        top_list_length: config.top_list_length as u64,
                        current_length: 0,
                        effective_stake_amount: 0,
                        last_claim_fee_at: 0,
                        last_updated_at: start,
                        locked_fee_a: 0,
                        locked_fee_b: 0,
                        cumulative_fee_a_per_liquidity: 0,
                        cumulative_fee_b_per_liquidity: 0,
                    },
                    creator: accounts.creator,
                    created_at: now,
                    bump: accounts.bump,
                },
            ),
        }
    }
}

/// What a change of one of a vault's parameters reports.
#[derive(Clone, Copy, Debug, PartialEq, Eq, Structural)]
pub struct ValueUpdated {
    pub old_value: u64,
    pub new_value: u64,
}

impl FeeVault {
    /// Creates a vault for a pool from a template, with its two lists, both empty.
    ///
    /// The pool must be a constant product pool (`OnlyConstantProductPool`), the
    /// lock escrow must belong to the vault (`InvalidEscrowOwner`), the stake mint
    /// must be the pool's token that is no quote mint, the other being one
    /// (`MustHaveQuoteTokenOrInvalidStakeMint`), and the template's parameters
    /// must be in range. Fees are distributed from the end of the template's join
    /// window, or from the moment asked for.
    pub fn initialize(
        vault_key: &Pubkey,
        pool: &PoolInfo,
        accounts: &VaultAccounts,
        config: &Config,
        custom_start_claim_fee_timestamp: Option<i64>,
        now: i64,
    ) -> (r: Result<(FeeVault, FullBalanceList, TopStakerList), StakeForFeeError>)
        ensures
            match spec_initialize_vault(
                *vault_key,
                *pool,
                *accounts,
                *config,
                custom_start_claim_fee_timestamp,
                now,
            ) {
                Err(e) => r == Err::<(FeeVault, FullBalanceList, TopStakerList), StakeForFeeError>(
                    e,
                ),
                Ok(vault) => {
                    &&& r is Ok
                    &&& r->Ok_0.0 == vault
                    &&& r->Ok_0.1@ == Seq::<StakerBalance>::empty()
                    &&& r->Ok_0.2@ == Seq::new(
                        config.top_list_length as nat,
                        |i: int| StakerMetadata::spec_empty(),
                    )
                    &&& system_wf(r->Ok_0.0, *vault_key, &r->Ok_0.1, &r->Ok_0.2)
                },
            },
    {
        if !pool.is_constant_product {
            return Err(StakeForFeeError::OnlyConstantProductPool);
        }
        if !accounts.lock_escrow_owner.equals(vault_key) {
            return Err(StakeForFeeError::InvalidEscrowOwner);
        }
        if !is_valid_stake_mint(&pool.token_a_mint, &pool.token_b_mint, &accounts.stake_mint) {
            return Err(StakeForFeeError::MustHaveQuoteTokenOrInvalidStakeMint);
        }
        config.validate()?;
        let start = match custom_start_claim_fee_timestamp {
            Some(start) => {
                if start < now || start as i128 > now as i128 + MAX_JOIN_WINDOW_DURATION as i128 {
                    return Err(StakeForFeeError::InvalidCustomStartFeeDistributeTimestamp);
                }
                start
            },
            None => match now.checked_add_unsigned(config.join_window_duration) {
                Some(start) => start,
                None => {
                    return Err(StakeForFeeError::MathOverflow);
                },
            },
        };
        let vault = FeeVault {
            lock_escrow: accounts.lock_escrow,
            stake_mint: accounts.stake_mint,
            pool: pool.pool,
            stake_token_vault: accounts.stake_token_vault,
            token_a_vault: accounts.token_a_vault,
            token_b_vault: accounts.token_b_vault,
            top_staker_list: accounts.top_staker_list,
            full_balance_list: accounts.full_balance_list,
            metrics: Metrics {
                total_staked_amount: 0,
                total_fee_a_amount: 0,
                total_fee_b_amount: 0,
                total_stake_escrow_count: 0,
                ongoing_total_partial_unstake_amount: 0,
            },
            configuration: Configuration {
                seconds_to_full_unlock: config.seconds_to_full_unlock,
                unstake_lock_duration: config.unstake_lock_duration,
                start_claim_fee_timestamp: start,
            },
            top_staker_info: TopStakerInfo {
                top_list_length: config.top_list_length as u64,
                current_length: 0,
                effective_stake_amount: 0,
                last_claim_fee_at: 0,
                last_updated_at: start,
                locked_fee_a: 0,
                locked_fee_b: 0,
                cumulative_fee_a_per_liquidity: 0,
                cumulative_fee_b_per_liquidity: 0,
            },
            creator: accounts.creator,
            created_at: now,
            bump: accounts.bump,
        };
        let full_balance_list = FullBalanceList::new(*vault_key);
        let top_staker_list = TopStakerList::new(*vault_key, config.top_list_length);
        Ok((vault, full_balance_list, top_staker_list))
    }

    /// Changes the delay between an unstake request and its withdrawal; tickets
    /// that exist keep their release time.
    ///
    /// Fails with `UpdatedValueIsTheSame` when the value is the one in force, and
    /// with `InvalidUnstakeLockDuration` when it is out of range. On an error
    /// nothing is changed.
    pub fn update_unstake_lock_duration(&mut self, unstake_lock_duration: u64) -> (r: Result<
        ValueUpdated,
        StakeForFeeError,
    >)
        ensures
            unstake_lock_duration == old(self).configuration.unstake_lock_duration ==> r == Err::<
                ValueUpdated,
                StakeForFeeError,
            >(StakeForFeeError::UpdatedValueIsTheSame) && *final(self) == *old(self),
            unstake_lock_duration != old(self).configuration.unstake_lock_duration && !(
            MIN_UNSTAKE_LOCK_DURATION <= unstake_lock_duration <= MAX_UNSTAKE_LOCK_DURATION)
                ==> r == Err::<ValueUpdated, StakeForFeeError>(
                StakeForFeeError::InvalidUnstakeLockDuration,
            ) && *final(self) == *old(self),
            unstake_lock_duration != old(self).configuration.unstake_lock_duration
                && MIN_UNSTAKE_LOCK_DURATION <= unstake_lock_duration <= MAX_UNSTAKE_LOCK_DURATION
                ==> r == Ok::<ValueUpdated, StakeForFeeError>(
                ValueUpdated {
                    old_value: old(self).configuration.unstake_lock_duration,
                    new_value: unstake_lock_duration,
                },
            ) && *final(self) == (FeeVault {
                configuration: Configuration { unstake_lock_duration, ..old(self).configuration },
                ..*old(self)
            }),
    {
        let old_value = self.configuration.unstake_lock_duration;
        if unstake_lock_duration == old_value {
            return Err(StakeForFeeError::UpdatedValueIsTheSame);
        }
        if unstake_lock_duration < MIN_UNSTAKE_LOCK_DURATION || unstake_lock_duration
            > MAX_UNSTAKE_LOCK_DURATION {
            return Err(StakeForFeeError::InvalidUnstakeLockDuration);
        }
        self.configuration.unstake_lock_duration = unstake_lock_duration;
        Ok(ValueUpdated { old_value, new_value: unstake_lock_duration })
    }

    /// The vault after a change of the release window at `now`, with what the
    /// release before the change did, or the error that stops it.
    ///
    /// Fails with `UpdatedValueIsTheSame` when the value is the one in force, and
    /// with `InvalidSecondsToFullUnlock` when it is out of range. What is due
    /// under the window in force is released first; the new window holds from
    /// `now` on.
    pub open spec fn spec_update_seconds_to_full_unlock(
        self,
        seconds_to_full_unlock: u64,
        now: i64,
    ) -> Result<(FeeVault, FeeEmission), StakeForFeeError> {
        if seconds_to_full_unlock == self.configuration.seconds_to_full_unlock {
            Err(StakeForFeeError::UpdatedValueIsTheSame)
        } else if !(MIN_SECONDS_TO_FULL_UNLOCK <= seconds_to_full_unlock
            <= MAX_SECONDS_TO_FULL_UNLOCK) {
            Err(StakeForFeeError::InvalidSecondsToFullUnlock)
        } else {
            match self.spec_update_fees(now, None) {
                Err(e) => Err(e),
                Ok((vault, fee_emission)) => Ok(
                    (
                        FeeVault {
                            configuration: Configuration {
                                seconds_to_full_unlock,
                                ..vault.configuration
                            },
                            ..vault
                        },
                        fee_emission,
                    ),
                ),
            }
        }
    }

    /// Changes the window over which pulled fees are released, after releasing
    /// what is due at `now` under the window in force. On an error nothing is
    /// changed.
    pub fn update_seconds_to_full_unlock(&mut self, seconds_to_full_unlock: u64, now: i64) -> (r:
        Result<(ValueUpdated, FeeEmission), StakeForFeeError>)
        ensures
            match old(self).spec_update_seconds_to_full_unlock(seconds_to_full_unlock, now) {
                Ok((vault, fee_emission)) => r == Ok::<
                    (ValueUpdated, FeeEmission),
                    StakeForFeeError,
                >(
                    (
                        ValueUpdated {
                            old_value: old(self).configuration.seconds_to_full_unlock,
                            new_value: seconds_to_full_unlock,
                        },
                        fee_emission,
                    ),
                ) && *final(self) == vault,
                Err(e) => r == Err::<(ValueUpdated, FeeEmission), StakeForFeeError>(e)
                    && *final(self) == *old(self),
            },
    {
        let old_value = self.configuration.seconds_to_full_unlock;
        if seconds_to_full_unlock == old_value {
            return Err(StakeForFeeError::UpdatedValueIsTheSame);
        }
        if seconds_to_full_unlock < MIN_SECONDS_TO_FULL_UNLOCK || seconds_to_full_unlock
            > MAX_SECONDS_TO_FULL_UNLOCK {
            return Err(StakeForFeeError::InvalidSecondsToFullUnlock);
        }
        let fee_emission = self.update_fees(now, None)?;
        self.configuration.seconds_to_full_unlock = seconds_to_full_unlock;
        Ok((ValueUpdated { old_value, new_value: seconds_to_full_unlock }, fee_emission))
    }
}

} // verus!
