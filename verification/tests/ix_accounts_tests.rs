use stake_for_fee::framing::{write_framed, FEE_VAULT_ACCOUNT_DISCM, USER_STAKE_EVENT_DISCM};
use stake_for_fee::instructions::{
    strip_discriminator, IxError, StakeIxArgs, UpdateSecondsToFullUnlockIxArgs, STAKE_IX_DISCM,
    WITHDRAW_IX_DISCM,
};
use stake_for_fee::ix_accounts::{
    dummy_ix, dummy_verify_account_keys, stake_ix, stake_ix_with_program_id,
    stake_verify_account_keys, stake_verify_account_privileges, stake_verify_signer_privileges,
    stake_verify_writable_privileges, update_seconds_to_full_unlock_ix,
    update_seconds_to_full_unlock_verify_account_privileges, verify_keys, verify_signer,
    verify_writable, withdraw_ix, withdraw_verify_account_privileges, AccountMeta, AccountView,
    DummyAccounts, DummyKeys, PrivilegeError, StakeAccounts, StakeKeys,
    UpdateSecondsToFullUnlockAccounts, UpdateSecondsToFullUnlockKeys, WithdrawAccounts,
    WithdrawKeys, ID, STAKE_IX_ACCOUNTS_LEN, WITHDRAW_IX_ACCOUNTS_LEN,
};
use stake_for_fee::pubkey::Pubkey;

fn key(n: u8) -> Pubkey {
    Pubkey::new_from_array([n; 32])
}

fn view(n: u8, is_signer: bool, is_writable: bool) -> AccountView {
    AccountView { key: key(n), is_signer, is_writable }
}

fn stake_keys() -> StakeKeys {
    let mut pubkeys = [key(0); STAKE_IX_ACCOUNTS_LEN];
    for (i, slot) in pubkeys.iter_mut().enumerate() {
        *slot = key(i as u8 + 1);
    }
    StakeKeys::from_pubkeys(&pubkeys)
}

fn stake_accounts() -> StakeAccounts {
    let mut views = [view(0, true, true); STAKE_IX_ACCOUNTS_LEN];
    for (i, slot) in views.iter_mut().enumerate() {
        *slot = view(i as u8 + 1, true, true);
    }
    StakeAccounts::from_array(&views)
}

#[test]
fn program_id_is_the_published_address() {
    assert_eq!(ID[0], 12);
    assert_eq!(ID[31], 129);
    let ix = dummy_ix(DummyKeys { staker_metadata: key(1), staker_balance: key(2) }).unwrap();
    assert_eq!(ix.program_id, Pubkey::new_from_array(ID));
    assert_eq!(
        ix.accounts,
        vec![
            AccountMeta { pubkey: key(1), is_signer: false, is_writable: false },
            AccountMeta { pubkey: key(2), is_signer: false, is_writable: false },
        ]
    );
    assert_eq!(ix.data, vec![167, 117, 211, 79, 251, 254, 47, 135]);
}

#[test]
fn stake_keys_keep_the_order_of_the_instruction() {
    let keys = stake_keys();
    assert_eq!(keys.vault, key(1));
    assert_eq!(keys.stake_token_vault, key(2));
    assert_eq!(keys.owner, key(9));
    assert_eq!(keys.program, key(26));
    let pubkeys = keys.to_pubkeys();
    assert_eq!(pubkeys.len(), 26);
    assert_eq!(StakeKeys::from_pubkeys(&pubkeys), keys);
    let accounts = stake_accounts();
    assert_eq!(StakeKeys::from_accounts(&accounts), keys);
    assert_eq!(StakeAccounts::from_array(&accounts.to_array()), accounts);
    assert_eq!(accounts.to_array()[8].key, key(9));
    assert_eq!(accounts.to_array()[9].key, keys.pool);
}

#[test]
fn stake_ix_names_accounts_with_their_privileges() {
    let keys = stake_keys();
    let ix = stake_ix_with_program_id(key(99), keys, StakeIxArgs { amount: 5 }).unwrap();
    assert_eq!(ix.program_id, key(99));
    assert_eq!(ix.accounts.len(), 26);
    assert_eq!(ix.accounts[0], AccountMeta { pubkey: key(1), is_signer: false, is_writable: true });
    assert_eq!(ix.accounts[8], AccountMeta { pubkey: key(9), is_signer: true, is_writable: false });
    assert_eq!(ix.accounts[9], AccountMeta { pubkey: key(10), is_signer: false, is_writable: true });
    assert_eq!(ix.accounts[25], AccountMeta { pubkey: key(26), is_signer: false, is_writable: false });
    assert_eq!(ix.accounts, keys.to_account_metas().to_vec());
    assert_eq!(ix.accounts.iter().filter(|meta| meta.is_writable).count(), 20);
    assert_eq!(ix.accounts.iter().filter(|meta| meta.is_signer).count(), 1);
    assert_eq!(&ix.data[..8], &STAKE_IX_DISCM);
    assert_eq!(&ix.data[8..], &5u64.to_le_bytes());
    let own = stake_ix(keys, StakeIxArgs { amount: 5 }).unwrap();
    assert_eq!(own.program_id, Pubkey::new_from_array(ID));
    assert_eq!(own.data, ix.data);
}

#[test]
fn other_instructions_are_built_alike() {
    let keys = WithdrawKeys::from_pubkeys(&[key(7); WITHDRAW_IX_ACCOUNTS_LEN]);
    let ix = withdraw_ix(keys).unwrap();
    assert_eq!(ix.data, WITHDRAW_IX_DISCM.to_vec());
    assert_eq!(ix.accounts.len(), 9);
    let keys = UpdateSecondsToFullUnlockKeys {
        vault: key(1),
        instructions_sysvar: key(2),
        admin: key(3),
        event_authority: key(4),
        program: key(5),
    };
    let ix = update_seconds_to_full_unlock_ix(
        keys,
        UpdateSecondsToFullUnlockIxArgs { seconds_to_full_unlock: 3 },
    )
    .unwrap();
    assert_eq!(
        ix.accounts,
        vec![
            AccountMeta { pubkey: key(1), is_signer: false, is_writable: true },
            AccountMeta { pubkey: key(2), is_signer: false, is_writable: false },
            AccountMeta { pubkey: key(3), is_signer: true, is_writable: false },
            AccountMeta { pubkey: key(4), is_signer: false, is_writable: false },
            AccountMeta { pubkey: key(5), is_signer: false, is_writable: false },
        ]
    );
    assert_eq!(ix.data.len(), 16);
}

#[test]
fn account_keys_are_compared_in_order() {
    let keys = stake_keys();
    let mut accounts = stake_accounts();
    assert_eq!(stake_verify_account_keys(&accounts, &keys), Ok(()));
    accounts.pool.key = key(77);
    accounts.program.key = key(78);
    assert_eq!(stake_verify_account_keys(&accounts, &keys), Err((key(77), keys.pool)));
    accounts.vault.key = key(79);
    assert_eq!(stake_verify_account_keys(&accounts, &keys), Err((key(79), keys.vault)));
    let dummy = DummyAccounts { staker_metadata: view(1, false, false), staker_balance: view(2, false, false) };
    assert_eq!(
        dummy_verify_account_keys(&dummy, &DummyKeys { staker_metadata: key(1), staker_balance: key(3) }),
        Err((key(2), key(3)))
    );
    assert_eq!(verify_keys(&[], &[]), Ok(()));
    assert_eq!(verify_keys(&[view(1, false, false)], &[key(1)]), Ok(()));
}

#[test]
fn privileges_are_checked_writable_first() {
    let mut accounts = stake_accounts();
    assert_eq!(stake_verify_account_privileges(&accounts), Ok(()));
    accounts.program.is_writable = false;
    accounts.program.is_signer = false;
    accounts.token_program.is_writable = false;
    assert_eq!(stake_verify_account_privileges(&accounts), Ok(()));
    accounts.owner.is_signer = false;
    assert_eq!(
        stake_verify_signer_privileges(&accounts),
        Err((accounts.owner, PrivilegeError::MissingRequiredSignature))
    );
    assert_eq!(
        stake_verify_account_privileges(&accounts),
        Err((accounts.owner, PrivilegeError::MissingRequiredSignature))
    );
    accounts.top_staker_list.is_writable = false;
    accounts.vault.is_writable = false;
    assert_eq!(
        stake_verify_writable_privileges(&accounts),
        Err((accounts.vault, PrivilegeError::InvalidAccountData))
    );
    assert_eq!(
        stake_verify_account_privileges(&accounts),
        Err((accounts.vault, PrivilegeError::InvalidAccountData))
    );
    accounts.owner.is_writable = false;
    accounts.vault.is_writable = true;
    assert_eq!(
        stake_verify_writable_privileges(&accounts),
        Err((accounts.top_staker_list, PrivilegeError::InvalidAccountData))
    );
}

#[test]
fn privileges_of_other_instructions() {
    let mut admin = UpdateSecondsToFullUnlockAccounts {
        vault: view(1, false, true),
        instructions_sysvar: view(2, false, false),
        admin: view(3, true, false),
        event_authority: view(4, false, false),
        program: view(5, false, false),
    };
    assert_eq!(update_seconds_to_full_unlock_verify_account_privileges(&admin), Ok(()));
    admin.admin.is_signer = false;
    assert_eq!(
        update_seconds_to_full_unlock_verify_account_privileges(&admin),
        Err((admin.admin, PrivilegeError::MissingRequiredSignature))
    );
    let all = WithdrawAccounts::from_array(&[view(1, false, false); WITHDRAW_IX_ACCOUNTS_LEN]);
    assert_eq!(
        withdraw_verify_account_privileges(&all),
        Err((all.unstake, PrivilegeError::InvalidAccountData))
    );
    assert_eq!(verify_writable(&[]), Ok(()));
    assert_eq!(verify_signer(&[]), Ok(()));
    assert_eq!(
        verify_signer(&[view(1, true, false), view(2, false, true)]),
        Err((view(2, false, true), PrivilegeError::MissingRequiredSignature))
    );
}

#[test]
fn framed_records_start_with_their_discriminator() {
    let mut writer = vec![9u8];
    write_framed(&mut writer, &FEE_VAULT_ACCOUNT_DISCM, &[1, 2, 3]);
    assert_eq!(writer, vec![9, 192, 178, 69, 232, 58, 149, 157, 132, 1, 2, 3]);
    assert_eq!(strip_discriminator(&writer[1..], &FEE_VAULT_ACCOUNT_DISCM), Ok(&[1u8, 2, 3][..]));
    assert_eq!(
        strip_discriminator(&writer[1..], &USER_STAKE_EVENT_DISCM),
        Err(IxError::DiscriminatorMismatch)
    );
    assert_eq!(
        strip_discriminator(&writer[..5], &FEE_VAULT_ACCOUNT_DISCM),
        Err(IxError::UnexpectedEof)
    );
    assert_eq!(strip_discriminator(&USER_STAKE_EVENT_DISCM, &USER_STAKE_EVENT_DISCM), Ok(&[][..]));
}
