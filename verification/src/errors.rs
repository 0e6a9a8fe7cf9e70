use vstd::prelude::*;

verus! {

/// Every way an operation of the fee vault can fail. A failure aborts the whole
/// operation; nothing is recovered locally.
#[derive(Clone, Copy, Debug, PartialEq, Eq, Structural)]
pub enum StakeForFeeError {
    /// Escrow owner is not vault.
    InvalidEscrowOwner,
    /// Invalid top list length.
    InvalidTopListLength,
    /// Invalid seconds to full unlock.
    InvalidSecondsToFullUnlock,
    /// Pool missing SOL/USDC token or invalid stake mint.
    MustHaveQuoteTokenOrInvalidStakeMint,
    /// Missing dropped stake escrow.
    MissingDroppedStakeEscrow,
    /// Invalid stake escrow.
    InvalidStakeEscrow,
    /// Full balance list is full.
    FullBalanceListFull,
    /// Mint does not belong to the pool.
    MintDoesNotBelongToPool,
    /// Insufficient stake amount.
    InsufficientStakeAmount,
    /// Unstake amount release date not reached.
    CannotWithdrawUnstakeAmount,
    /// Invalid admin.
    InvalidAdmin,
    /// Invalid unstake lock duration.
    InvalidUnstakeLockDuration,
    /// Invalid join window duration.
    InvalidJoinWindowDuration,
    /// Invalid custom start fee distribute timestamp.
    InvalidCustomStartFeeDistributeTimestamp,
    /// Invalid smallest stake escrow.
    InvalidSmallestStakeEscrow,
    /// MathOverflow.
    MathOverflow,
    /// Type casting failed.
    TypeCastFailed,
    /// Invalid lock escrow related accounts.
    InvalidLockEscrowRelatedAccounts,
    /// Only constant product pool is supported.
    OnlyConstantProductPool,
    /// Undetermined error.
    UndeterminedError,
    /// Missing smallest stake escrow.
    MissingSmallestStakeEscrow,
    /// Updated value is the same as old value.
    UpdatedValueIsTheSame,
    /// Invalid fee crank instruction.
    InvalidFeeCrankIx,
}

/// Code of the first error; the others follow in declaration order.
pub const ERROR_CODE_OFFSET: u32 = 6000;

/// Number of error variants.
pub const ERROR_COUNT: u32 = 23;

impl StakeForFeeError {
    /// Position of the error in declaration order, counted from zero.
    pub open spec fn ordinal(self) -> nat {
        match self {
            StakeForFeeError::InvalidEscrowOwner => 0,
            StakeForFeeError::InvalidTopListLength => 1,
            StakeForFeeError::InvalidSecondsToFullUnlock => 2,
            StakeForFeeError::MustHaveQuoteTokenOrInvalidStakeMint => 3,
            StakeForFeeError::MissingDroppedStakeEscrow => 4,
            StakeForFeeError::InvalidStakeEscrow => 5,
            StakeForFeeError::FullBalanceListFull => 6,
            StakeForFeeError::MintDoesNotBelongToPool => 7,
            StakeForFeeError::InsufficientStakeAmount => 8,
            StakeForFeeError::CannotWithdrawUnstakeAmount => 9,
            StakeForFeeError::InvalidAdmin => 10,
            StakeForFeeError::InvalidUnstakeLockDuration => 11,
            StakeForFeeError::InvalidJoinWindowDuration => 12,
            StakeForFeeError::InvalidCustomStartFeeDistributeTimestamp => 13,
            StakeForFeeError::InvalidSmallestStakeEscrow => 14,
            StakeForFeeError::MathOverflow => 15,
            StakeForFeeError::TypeCastFailed => 16,
            StakeForFeeError::InvalidLockEscrowRelatedAccounts => 17,
            StakeForFeeError::OnlyConstantProductPool => 18,
            StakeForFeeError::UndeterminedError => 19,
            StakeForFeeError::MissingSmallestStakeEscrow => 20,
            StakeForFeeError::UpdatedValueIsTheSame => 21,
            StakeForFeeError::InvalidFeeCrankIx => 22,
        }
    }

    /// The numeric code under which the error is reported on the wire.
    pub open spec fn spec_code(self) -> nat {
        6000 + self.ordinal()
    }

    /// Returns the numeric code of the error.
    pub fn code(&self) -> (r: u32)
        ensures
            r == self.spec_code(),
            ERROR_CODE_OFFSET <= r < ERROR_CODE_OFFSET + ERROR_COUNT,
    {
        match self {
            StakeForFeeError::InvalidEscrowOwner => 6000,
            StakeForFeeError::InvalidTopListLength => 6001,
            StakeForFeeError::InvalidSecondsToFullUnlock => 6002,
            StakeForFeeError::MustHaveQuoteTokenOrInvalidStakeMint => 6003,
            StakeForFeeError::MissingDroppedStakeEscrow => 6004,
            StakeForFeeError::InvalidStakeEscrow => 6005,
            StakeForFeeError::FullBalanceListFull => 6006,
            StakeForFeeError::MintDoesNotBelongToPool => 6007,
            StakeForFeeError::InsufficientStakeAmount => 6008,
            StakeForFeeError::CannotWithdrawUnstakeAmount => 6009,
            StakeForFeeError::InvalidAdmin => 6010,
            StakeForFeeError::InvalidUnstakeLockDuration => 6011,
            StakeForFeeError::InvalidJoinWindowDuration => 6012,
            StakeForFeeError::InvalidCustomStartFeeDistributeTimestamp => 6013,
            StakeForFeeError::InvalidSmallestStakeEscrow => 6014,
            StakeForFeeError::MathOverflow => 6015,
            StakeForFeeError::TypeCastFailed => 6016,
            StakeForFeeError::InvalidLockEscrowRelatedAccounts => 6017,
            StakeForFeeError::OnlyConstantProductPool => 6018,
            StakeForFeeError::UndeterminedError => 6019,
            StakeForFeeError::MissingSmallestStakeEscrow => 6020,
            StakeForFeeError::UpdatedValueIsTheSame => 6021,
            StakeForFeeError::InvalidFeeCrankIx => 6022,
        }
    }

    /// Returns the error that carries `code`, if there is one.
    pub fn from_code(code: u32) -> (r: Option<StakeForFeeError>)
        ensures
            r.is_some() <==> ERROR_CODE_OFFSET <= code < ERROR_CODE_OFFSET + ERROR_COUNT,
            r.is_some() ==> r.unwrap().spec_code() == code,
    {
        match code {
            6000 => Some(StakeForFeeError::InvalidEscrowOwner),
            6001 => Some(StakeForFeeError::InvalidTopListLength),
            6002 => Some(StakeForFeeError::InvalidSecondsToFullUnlock),
            6003 => Some(StakeForFeeError::MustHaveQuoteTokenOrInvalidStakeMint),
            6004 => Some(StakeForFeeError::MissingDroppedStakeEscrow),
            6005 => Some(StakeForFeeError::InvalidStakeEscrow),
            6006 => Some(StakeForFeeError::FullBalanceListFull),
            6007 => Some(StakeForFeeError::MintDoesNotBelongToPool),
            6008 => Some(StakeForFeeError::InsufficientStakeAmount),
            6009 => Some(StakeForFeeError::CannotWithdrawUnstakeAmount),
            6010 => Some(StakeForFeeError::InvalidAdmin),
            6011 => Some(StakeForFeeError::InvalidUnstakeLockDuration),
            6012 => Some(StakeForFeeError::InvalidJoinWindowDuration),
            6013 => Some(StakeForFeeError::InvalidCustomStartFeeDistributeTimestamp),
            6014 => Some(StakeForFeeError::InvalidSmallestStakeEscrow),
            6015 => Some(StakeForFeeError::MathOverflow),
            6016 => Some(StakeForFeeError::TypeCastFailed),
            6017 => Some(StakeForFeeError::InvalidLockEscrowRelatedAccounts),
            6018 => Some(StakeForFeeError::OnlyConstantProductPool),
            6019 => Some(StakeForFeeError::UndeterminedError),
            6020 => Some(StakeForFeeError::MissingSmallestStakeEscrow),
            6021 => Some(StakeForFeeError::UpdatedValueIsTheSame),
            6022 => Some(StakeForFeeError::InvalidFeeCrankIx),
            _ => None,
        }
    }

    /// The human readable description of the error.
    pub open spec fn spec_message(self) -> Seq<char> {
        match self {
            StakeForFeeError::InvalidEscrowOwner => "Escrow owner is not vault"@,
            StakeForFeeError::InvalidTopListLength => "Invalid top list length"@,
            StakeForFeeError::InvalidSecondsToFullUnlock => "Invalid seconds to full unlock"@,
            StakeForFeeError::MustHaveQuoteTokenOrInvalidStakeMint => "Pool missing SOL/USDC token or invalid stake mint"@,
            StakeForFeeError::MissingDroppedStakeEscrow => "Missing dropped stake escrow"@,
            StakeForFeeError::InvalidStakeEscrow => "Invalid stake escrow"@,
            StakeForFeeError::FullBalanceListFull => "Full balance list is full"@,
            StakeForFeeError::MintDoesNotBelongToPool => "Mint does not belong to the pool"@,
            StakeForFeeError::InsufficientStakeAmount => "Insufficient stake amount"@,
            StakeForFeeError::CannotWithdrawUnstakeAmount => "Unstake amount release date not reached"@,
            StakeForFeeError::InvalidAdmin => "Invalid admin"@,
            StakeForFeeError::InvalidUnstakeLockDuration => "Invalid unstake lock duration"@,
            StakeForFeeError::InvalidJoinWindowDuration => "Invalid join window duration"@,
            StakeForFeeError::InvalidCustomStartFeeDistributeTimestamp => "Invalid custom start fee distribute timestamp"@,
            StakeForFeeError::InvalidSmallestStakeEscrow => "Invalid smallest stake escrow"@,
            StakeForFeeError::MathOverflow => "MathOverflow"@,
            StakeForFeeError::TypeCastFailed => "Type casting failed"@,
            StakeForFeeError::InvalidLockEscrowRelatedAccounts => "Invalid lock escrow related accounts"@,
            StakeForFeeError::OnlyConstantProductPool => "Only constant product pool is supported"@,
            StakeForFeeError::UndeterminedError => "Undetermined error"@,
            StakeForFeeError::MissingSmallestStakeEscrow => "Missing smallest stake escrow"@,
            StakeForFeeError::UpdatedValueIsTheSame => "Updated value is the same as old value"@,
            StakeForFeeError::InvalidFeeCrankIx => "Invalid fee crank instruction"@,
        }
    }

    /// Returns the human readable description of the error.
    pub fn message(&self) -> (r: &'static str)
        ensures
            r@ == self.spec_message(),
    {
        match self {
            StakeForFeeError::InvalidEscrowOwner => "Escrow owner is not vault",
            StakeForFeeError::InvalidTopListLength => "Invalid top list length",
            StakeForFeeError::InvalidSecondsToFullUnlock => "Invalid seconds to full unlock",
            StakeForFeeError::MustHaveQuoteTokenOrInvalidStakeMint => "Pool missing SOL/USDC token or invalid stake mint",
            StakeForFeeError::MissingDroppedStakeEscrow => "Missing dropped stake escrow",
            StakeForFeeError::InvalidStakeEscrow => "Invalid stake escrow",
            StakeForFeeError::FullBalanceListFull => "Full balance list is full",
            StakeForFeeError::MintDoesNotBelongToPool => "Mint does not belong to the pool",
            StakeForFeeError::InsufficientStakeAmount => "Insufficient stake amount",
            StakeForFeeError::CannotWithdrawUnstakeAmount => "Unstake amount release date not reached",
            StakeForFeeError::InvalidAdmin => "Invalid admin",
            StakeForFeeError::InvalidUnstakeLockDuration => "Invalid unstake lock duration",
            StakeForFeeError::InvalidJoinWindowDuration => "Invalid join window duration",
            StakeForFeeError::InvalidCustomStartFeeDistributeTimestamp => "Invalid custom start fee distribute timestamp",
            StakeForFeeError::InvalidSmallestStakeEscrow => "Invalid smallest stake escrow",
            StakeForFeeError::MathOverflow => "MathOverflow",
            StakeForFeeError::TypeCastFailed => "Type casting failed",
            StakeForFeeError::InvalidLockEscrowRelatedAccounts => "Invalid lock escrow related accounts",
            StakeForFeeError::OnlyConstantProductPool => "Only constant product pool is supported",
            StakeForFeeError::UndeterminedError => "Undetermined error",
            StakeForFeeError::MissingSmallestStakeEscrow => "Missing smallest stake escrow",
            StakeForFeeError::UpdatedValueIsTheSame => "Updated value is the same as old value",
            StakeForFeeError::InvalidFeeCrankIx => "Invalid fee crank instruction",
        }
    }
}

/// Two errors with the same code are the same error.
pub proof fn lemma_code_injective(a: StakeForFeeError, b: StakeForFeeError)
    requires
        a.spec_code() == b.spec_code(),
    ensures
        a == b,
{
}

} // verus!
