use stake_for_fee::instructions::{
    CancelUnstakeIxData, ClaimFeeCrankIxData, ClaimFeeIxArgs, ClaimFeeIxData, DummyIxData,
    InitializeStakeEscrowIxData, InitializeVaultIxArgs, InitializeVaultIxData, IxError,
    RequestUnstakeIxArgs, RequestUnstakeIxData, StakeForFeeProgramIx, StakeIxArgs, StakeIxData,
    UpdateSecondsToFullUnlockIxArgs, UpdateSecondsToFullUnlockIxData,
    UpdateUnstakeLockDurationIxArgs, UpdateUnstakeLockDurationIxData, WithdrawIxData,
    CANCEL_UNSTAKE_IX_DISCM, CLAIM_FEE_CRANK_IX_DISCM, CLAIM_FEE_IX_DISCM, DUMMY_IX_DISCM,
    INITIALIZE_STAKE_ESCROW_IX_DISCM, INITIALIZE_VAULT_IX_DISCM, REQUEST_UNSTAKE_IX_DISCM,
    STAKE_IX_DISCM, UPDATE_SECONDS_TO_FULL_UNLOCK_IX_DISCM, UPDATE_UNSTAKE_LOCK_DURATION_IX_DISCM,
    WITHDRAW_IX_DISCM,
};
use stake_for_fee::typedefs::InitializeVaultParams;

fn params(start: Option<u64>) -> InitializeVaultParams {
    let mut padding = [0u8; 64];
    padding[0] = 9;
    padding[63] = 7;
    InitializeVaultParams {
        top_list_length: 0x0102,
        seconds_to_full_unlock: 0x0102_0304_0506_0708,
        unstake_lock_duration: 86_400,
        start_fee_distribute_timestamp: start,
        padding,
    }
}

#[test]
fn stake_ix_data_has_exact_bytes() {
    let data = StakeIxData(StakeIxArgs { amount: 0x0102_0304_0506_0708 });
    let bytes = data.try_to_vec().unwrap();
    assert_eq!(
        bytes,
        vec![206, 176, 202, 18, 200, 209, 179, 108, 8, 7, 6, 5, 4, 3, 2, 1]
    );
    assert_eq!(StakeIxData::deserialize(&bytes), Ok(data));
}

#[test]
fn stake_ix_data_ignores_trailing_bytes() {
    let mut bytes = StakeIxData(StakeIxArgs { amount: 77 }).try_to_vec().unwrap();
    bytes.extend_from_slice(&[1, 2, 3]);
    assert_eq!(
        StakeIxData::deserialize(&bytes),
        Ok(StakeIxData(StakeIxArgs { amount: 77 }))
    );
}

#[test]
fn ix_data_errors_are_told_apart() {
    assert_eq!(StakeIxData::deserialize(&[]), Err(IxError::UnexpectedEof));
    assert_eq!(
        StakeIxData::deserialize(&STAKE_IX_DISCM[..7]),
        Err(IxError::UnexpectedEof)
    );
    assert_eq!(
        StakeIxData::deserialize(&CLAIM_FEE_IX_DISCM),
        Err(IxError::DiscriminatorMismatch)
    );
    assert_eq!(StakeIxData::deserialize(&STAKE_IX_DISCM), Err(IxError::InvalidArgs));
    let mut short = STAKE_IX_DISCM.to_vec();
    short.extend_from_slice(&[0; 7]);
    assert_eq!(StakeIxData::deserialize(&short), Err(IxError::InvalidArgs));
}

#[test]
fn serialize_appends_to_the_writer() {
    let mut writer = vec![1u8, 2, 3];
    ClaimFeeIxData(ClaimFeeIxArgs { max_fee: 1 })
        .serialize(&mut writer)
        .unwrap();
    assert_eq!(&writer[..3], &[1, 2, 3]);
    assert_eq!(&writer[3..11], &CLAIM_FEE_IX_DISCM);
    assert_eq!(&writer[11..], &[1, 0, 0, 0, 0, 0, 0, 0]);
}

#[test]
fn every_u64_ix_data_round_trips() {
    let claim = ClaimFeeIxData(ClaimFeeIxArgs { max_fee: u64::MAX });
    assert_eq!(ClaimFeeIxData::deserialize(&claim.try_to_vec().unwrap()), Ok(claim));
    let request = RequestUnstakeIxData(RequestUnstakeIxArgs { unstake_amount: 12_345 });
    let bytes = request.try_to_vec().unwrap();
    assert_eq!(&bytes[..8], &REQUEST_UNSTAKE_IX_DISCM);
    assert_eq!(RequestUnstakeIxData::deserialize(&bytes), Ok(request));
    let lock = UpdateUnstakeLockDurationIxData(UpdateUnstakeLockDurationIxArgs {
        unstake_lock_duration: 21_600,
    });
    let bytes = lock.try_to_vec().unwrap();
    assert_eq!(&bytes[..8], &UPDATE_UNSTAKE_LOCK_DURATION_IX_DISCM);
    assert_eq!(UpdateUnstakeLockDurationIxData::deserialize(&bytes), Ok(lock));
    let unlock = UpdateSecondsToFullUnlockIxData(UpdateSecondsToFullUnlockIxArgs {
        seconds_to_full_unlock: 0,
    });
    let bytes = unlock.try_to_vec().unwrap();
    assert_eq!(&bytes[..8], &UPDATE_SECONDS_TO_FULL_UNLOCK_IX_DISCM);
    assert_eq!(&bytes[8..], &[0u8; 8]);
    assert_eq!(UpdateSecondsToFullUnlockIxData::deserialize(&bytes), Ok(unlock));
}

#[test]
fn every_unit_ix_data_round_trips() {
    assert_eq!(
        InitializeStakeEscrowIxData.try_to_vec().unwrap(),
        INITIALIZE_STAKE_ESCROW_IX_DISCM.to_vec()
    );
    assert_eq!(
        InitializeStakeEscrowIxData::deserialize(&INITIALIZE_STAKE_ESCROW_IX_DISCM),
        Ok(InitializeStakeEscrowIxData)
    );
    assert_eq!(CancelUnstakeIxData.try_to_vec().unwrap(), CANCEL_UNSTAKE_IX_DISCM.to_vec());
    assert_eq!(
        CancelUnstakeIxData::deserialize(&CANCEL_UNSTAKE_IX_DISCM),
        Ok(CancelUnstakeIxData)
    );
    assert_eq!(WithdrawIxData.try_to_vec().unwrap(), WITHDRAW_IX_DISCM.to_vec());
    assert_eq!(WithdrawIxData::deserialize(&WITHDRAW_IX_DISCM), Ok(WithdrawIxData));
    assert_eq!(ClaimFeeCrankIxData.try_to_vec().unwrap(), CLAIM_FEE_CRANK_IX_DISCM.to_vec());
    assert_eq!(
        ClaimFeeCrankIxData::deserialize(&CLAIM_FEE_CRANK_IX_DISCM),
        Ok(ClaimFeeCrankIxData)
    );
    assert_eq!(DummyIxData.try_to_vec().unwrap(), DUMMY_IX_DISCM.to_vec());
    assert_eq!(DummyIxData::deserialize(&DUMMY_IX_DISCM), Ok(DummyIxData));
    assert_eq!(
        WithdrawIxData::deserialize(&DUMMY_IX_DISCM),
        Err(IxError::DiscriminatorMismatch)
    );
    assert_eq!(DummyIxData::deserialize(&[1, 2]), Err(IxError::UnexpectedEof));
}

#[test]
fn vault_params_have_exact_bytes() {
    let with_start = params(Some(0x11));
    let mut bytes = Vec::new();
    with_start.serialize(&mut bytes).unwrap();
    assert_eq!(bytes.len(), 2 + 8 + 8 + 9 + 64);
    assert_eq!(&bytes[..2], &[2, 1]);
    assert_eq!(&bytes[2..10], &[8, 7, 6, 5, 4, 3, 2, 1]);
    assert_eq!(&bytes[10..18], &86_400u64.to_le_bytes());
    assert_eq!(&bytes[18..27], &[1, 0x11, 0, 0, 0, 0, 0, 0, 0]);
    assert_eq!(bytes[27], 9);
    assert_eq!(bytes[90], 7);
    assert_eq!(InitializeVaultParams::deserialize(&bytes), Ok(with_start));

    let without = params(None);
    let mut bytes = Vec::new();
    without.serialize(&mut bytes).unwrap();
    assert_eq!(bytes.len(), 2 + 8 + 8 + 1 + 64);
    assert_eq!(bytes[18], 0);
    assert_eq!(bytes[19], 9);
    assert_eq!(InitializeVaultParams::deserialize(&bytes), Ok(without));
}

#[test]
fn vault_params_reject_bad_input() {
    let mut bytes = Vec::new();
    params(Some(5)).serialize(&mut bytes).unwrap();
    for cut in [0usize, 1, 2, 9, 17, 18, 26, 27, 90] {
        assert_eq!(
            InitializeVaultParams::deserialize(&bytes[..cut]),
            Err(IxError::InvalidArgs)
        );
    }
    let mut bad_tag = bytes.clone();
    bad_tag[18] = 2;
    assert_eq!(InitializeVaultParams::deserialize(&bad_tag), Err(IxError::InvalidArgs));
}

#[test]
fn initialize_vault_ix_data_round_trips() {
    let data = InitializeVaultIxData(InitializeVaultIxArgs { params: params(Some(42)) });
    let bytes = data.try_to_vec().unwrap();
    assert_eq!(&bytes[..8], &INITIALIZE_VAULT_IX_DISCM);
    assert_eq!(bytes.len(), 8 + 91);
    assert_eq!(InitializeVaultIxData::deserialize(&bytes), Ok(data));
    assert_eq!(
        InitializeVaultIxData::deserialize(&bytes[..50]),
        Err(IxError::InvalidArgs)
    );
    assert_eq!(
        InitializeVaultIxData::deserialize(&STAKE_IX_DISCM),
        Err(IxError::DiscriminatorMismatch)
    );
}

#[test]
fn program_ix_dispatches_on_the_discriminator() {
    let all = vec![
        StakeForFeeProgramIx::InitializeVault(InitializeVaultIxArgs { params: params(None) }),
        StakeForFeeProgramIx::InitializeStakeEscrow,
        StakeForFeeProgramIx::Stake(StakeIxArgs { amount: 1 }),
        StakeForFeeProgramIx::ClaimFee(ClaimFeeIxArgs { max_fee: 2 }),
        StakeForFeeProgramIx::RequestUnstake(RequestUnstakeIxArgs { unstake_amount: 3 }),
        StakeForFeeProgramIx::CancelUnstake,
        StakeForFeeProgramIx::Withdraw,
        StakeForFeeProgramIx::ClaimFeeCrank,
        StakeForFeeProgramIx::UpdateUnstakeLockDuration(UpdateUnstakeLockDurationIxArgs {
            unstake_lock_duration: 4,
        }),
        StakeForFeeProgramIx::UpdateSecondsToFullUnlock(UpdateSecondsToFullUnlockIxArgs {
            seconds_to_full_unlock: 5,
        }),
        StakeForFeeProgramIx::Dummy,
    ];
    for ix in all {
        let bytes = ix.try_to_vec().unwrap();
        assert_eq!(StakeForFeeProgramIx::deserialize(&bytes), Ok(ix));
        let mut writer = vec![0xAA];
        ix.serialize(&mut writer).unwrap();
        assert_eq!(&writer[1..], &bytes[..]);
    }
    assert_eq!(
        StakeForFeeProgramIx::Stake(StakeIxArgs { amount: 258 }).try_to_vec().unwrap(),
        vec![206, 176, 202, 18, 200, 209, 179, 108, 2, 1, 0, 0, 0, 0, 0, 0]
    );
}

#[test]
fn program_ix_rejects_unknown_data() {
    assert_eq!(
        StakeForFeeProgramIx::deserialize(&[1, 2, 3]),
        Err(IxError::UnexpectedEof)
    );
    assert_eq!(
        StakeForFeeProgramIx::deserialize(&[0u8; 8]),
        Err(IxError::DiscriminatorMismatch)
    );
    assert_eq!(
        StakeForFeeProgramIx::deserialize(&STAKE_IX_DISCM),
        Err(IxError::InvalidArgs)
    );
    assert_eq!(
        StakeForFeeProgramIx::deserialize(&INITIALIZE_VAULT_IX_DISCM),
        Err(IxError::InvalidArgs)
    );
}

#[test]
fn ix_data_is_made_from_its_arguments() {
    assert_eq!(StakeIxData::from(StakeIxArgs { amount: 9 }), StakeIxData(StakeIxArgs { amount: 9 }));
    let data: ClaimFeeIxData = ClaimFeeIxArgs { max_fee: 3 }.into();
    assert_eq!(data.0.max_fee, 3);
    let vault: InitializeVaultIxData = InitializeVaultIxArgs { params: params(Some(1)) }.into();
    assert_eq!(vault.0.params, params(Some(1)));
    let request = RequestUnstakeIxData::from(RequestUnstakeIxArgs { unstake_amount: 4 });
    assert_eq!(request.0.unstake_amount, 4);
    let lock = UpdateUnstakeLockDurationIxData::from(UpdateUnstakeLockDurationIxArgs {
        unstake_lock_duration: 5,
    });
    assert_eq!(lock.0.unstake_lock_duration, 5);
    let unlock = UpdateSecondsToFullUnlockIxData::from(UpdateSecondsToFullUnlockIxArgs {
        seconds_to_full_unlock: 6,
    });
    assert_eq!(unlock.0.seconds_to_full_unlock, 6);
}
