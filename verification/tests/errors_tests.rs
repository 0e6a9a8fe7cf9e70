use stake_for_fee::errors::{StakeForFeeError, ERROR_CODE_OFFSET, ERROR_COUNT};

#[test]
fn error_codes_start_at_the_offset() {
    assert_eq!(ERROR_CODE_OFFSET, 6000);
    assert_eq!(ERROR_COUNT, 23);
    assert_eq!(StakeForFeeError::InvalidEscrowOwner.code(), 6000);
    assert_eq!(StakeForFeeError::FullBalanceListFull.code(), 6006);
    assert_eq!(StakeForFeeError::MintDoesNotBelongToPool.code(), 6007);
    assert_eq!(StakeForFeeError::InsufficientStakeAmount.code(), 6008);
    assert_eq!(StakeForFeeError::CannotWithdrawUnstakeAmount.code(), 6009);
    assert_eq!(StakeForFeeError::MathOverflow.code(), 6015);
    assert_eq!(StakeForFeeError::TypeCastFailed.code(), 6016);
    assert_eq!(StakeForFeeError::MissingSmallestStakeEscrow.code(), 6020);
    assert_eq!(StakeForFeeError::InvalidFeeCrankIx.code(), 6022);
}

#[test]
fn error_codes_round_trip() {
    for code in 6000u32..6023 {
        let error = StakeForFeeError::from_code(code).unwrap();
        assert_eq!(error.code(), code);
    }
    assert_eq!(StakeForFeeError::from_code(5999), None);
    assert_eq!(StakeForFeeError::from_code(6023), None);
    assert_eq!(StakeForFeeError::from_code(0), None);
}

#[test]
fn error_messages_describe_the_error() {
    assert_eq!(StakeForFeeError::InvalidEscrowOwner.message(), "Escrow owner is not vault");
    assert_eq!(StakeForFeeError::MathOverflow.message(), "MathOverflow");
    assert_eq!(
        StakeForFeeError::CannotWithdrawUnstakeAmount.message(),
        "Unstake amount release date not reached"
    );
    assert_eq!(
        StakeForFeeError::InvalidFeeCrankIx.message(),
        "Invalid fee crank instruction"
    );
}
