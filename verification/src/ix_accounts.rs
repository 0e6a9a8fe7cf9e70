use crate::instructions::IxError;
use crate::instructions::CancelUnstakeIxData;
use crate::instructions::ClaimFeeCrankIxData;
use crate::instructions::ClaimFeeIxArgs;
use crate::instructions::ClaimFeeIxData;
use crate::instructions::DummyIxData;
use crate::instructions::InitializeStakeEscrowIxData;
use crate::instructions::InitializeVaultIxArgs;
use crate::instructions::InitializeVaultIxData;
use crate::instructions::RequestUnstakeIxArgs;
use crate::instructions::RequestUnstakeIxData;
use crate::instructions::StakeIxArgs;
use crate::instructions::StakeIxData;
use crate::instructions::UpdateSecondsToFullUnlockIxArgs;
use crate::instructions::UpdateSecondsToFullUnlockIxData;
use crate::instructions::UpdateUnstakeLockDurationIxArgs;
use crate::instructions::UpdateUnstakeLockDurationIxData;
use crate::instructions::WithdrawIxData;
use crate::pubkey::Pubkey;
use vstd::prelude::*;

verus! {

/// The address of the program.
pub const ID: [u8; 32] = [
    12, 237, 21, 149, 94, 114, 157, 248, 102, 49, 233, 165, 252, 37, 39, 119, 84, 123, 140, 123,
    238, 0, 107, 183, 178, 145, 149, 72, 195, 185, 249, 129,
];

/// An account as an instruction names it: its address, and what the instruction
/// may do with it.
#[derive(Clone, Copy, Debug, PartialEq, Eq)]
pub struct AccountMeta {
    pub pubkey: Pubkey,
    pub is_signer: bool,
    pub is_writable: bool,
}

/// An account as a transaction hands it in, as far as the checks read it: its
/// address, whether it signed, and whether it may be written.
#[derive(Clone, Copy, Debug, PartialEq, Eq)]
pub struct AccountView {
    pub key: Pubkey,
    pub is_signer: bool,
    pub is_writable: bool,
}

/// An instruction ready to be sent: the program it is for, the accounts it
/// names, and its data.
#[derive(Debug)]
pub struct Instruction {
    pub program_id: Pubkey,
    pub accounts: Vec<AccountMeta>,
    pub data: Vec<u8>,
}

/// Why an account does not have the privilege an instruction needs.
#[derive(Clone, Copy, Debug, PartialEq, Eq, Structural)]
pub enum PrivilegeError {
    /// The account must be writable and is not.
    InvalidAccountData,
    /// The account must have signed and has not.
    MissingRequiredSignature,
}

/// The addresses of the accounts given.
pub open spec fn keys_of(accounts: Seq<AccountView>) -> Seq<Pubkey> {
    accounts.map_values(|account: AccountView| account.key)
}

/// Whether `i` is the first place at which the two lists of addresses differ.
pub open spec fn is_first_mismatch(actual: Seq<Pubkey>, expected: Seq<Pubkey>, i: int) -> bool {
    &&& 0 <= i < actual.len()
    &&& actual[i]@ != expected[i]@
    &&& forall|j: int| 0 <= j < i ==> (#[trigger] actual[j])@ == expected[j]@
}

/// Whether `r` is the outcome of comparing two lists of addresses: nothing where
/// they agree everywhere, else the two addresses at the first place where they
/// differ, the actual one first.
pub open spec fn keys_verdict(
    actual: Seq<Pubkey>,
    expected: Seq<Pubkey>,
    r: Result<(), (Pubkey, Pubkey)>,
) -> bool {
    match r {
        Ok(_) => forall|j: int| 0 <= j < actual.len() ==> (#[trigger] actual[j])@ == expected[j]@,
        Err((found, wanted)) => exists|i: int|
            #[trigger] is_first_mismatch(actual, expected, i) && found == actual[i] && wanted
                == expected[i],
    }
}

/// Compares the addresses of the accounts handed in with the addresses
/// expected, place by place.
pub fn verify_keys(actual: &[AccountView], expected: &[Pubkey]) -> (r: Result<
    (),
    (Pubkey, Pubkey),
>)
    requires
        actual@.len() == expected@.len(),
    ensures
        keys_verdict(keys_of(actual@), expected@, r),
{
    let mut i: usize = 0;
    while i < actual.len()
        invariant
            i <= actual@.len(),
            actual@.len() == expected@.len(),
            forall|j: int| 0 <= j < i ==> (#[trigger] keys_of(actual@)[j])@ == expected@[j]@,
        decreases actual@.len() - i,
    {
        if !actual[i].key.equals(&expected[i]) {
            assert(is_first_mismatch(keys_of(actual@), expected@, i as int));
            return Err((actual[i].key, expected[i]));
        }
        i += 1;
    }
    Ok(())
}

/// Whether `r` is the outcome of looking for an account that lacks a
/// privilege: nothing where every account has it, else the first account that
/// does not, with `error`.
pub open spec fn privilege_verdict(
    has: Seq<bool>,
    accounts: Seq<AccountView>,
    error: PrivilegeError,
    r: Result<(), (AccountView, PrivilegeError)>,
) -> bool {
    match r {
        Ok(_) => forall|j: int| 0 <= j < has.len() ==> #[trigger] has[j],
        Err((account, e)) => e == error && exists|i: int|
            0 <= i < has.len() && !(#[trigger] has[i]) && account == accounts[i] && forall|j: int|
                0 <= j < i ==> #[trigger] has[j],
    }
}

/// Whether each of the accounts given may be written.
pub open spec fn writable_of(accounts: Seq<AccountView>) -> Seq<bool> {
    accounts.map_values(|account: AccountView| account.is_writable)
}

/// Whether each of the accounts given has signed.
pub open spec fn signer_of(accounts: Seq<AccountView>) -> Seq<bool> {
    accounts.map_values(|account: AccountView| account.is_signer)
}

/// Checks that every account given may be written; reports the first that may
/// not.
pub fn verify_writable(accounts: &[AccountView]) -> (r: Result<(), (AccountView, PrivilegeError)>)
    ensures
        privilege_verdict(writable_of(accounts@), accounts@, PrivilegeError::InvalidAccountData, r),
{
    let mut i: usize = 0;
    while i < accounts.len()
        invariant
            i <= accounts@.len(),
            forall|j: int| 0 <= j < i ==> #[trigger] writable_of(accounts@)[j],
        decreases accounts@.len() - i,
    {
        if !accounts[i].is_writable {
            assert(!writable_of(accounts@)[i as int]);
            return Err((accounts[i], PrivilegeError::InvalidAccountData));
        }
        i += 1;
    }
    Ok(())
}

/// Checks that every account given has signed; reports the first that has not.
pub fn verify_signer(accounts: &[AccountView]) -> (r: Result<(), (AccountView, PrivilegeError)>)
    ensures
        privilege_verdict(
            signer_of(accounts@),
            accounts@,
            PrivilegeError::MissingRequiredSignature,
            r,
        ),
{
    let mut i: usize = 0;
    while i < accounts.len()
        invariant
            i <= accounts@.len(),
            forall|j: int| 0 <= j < i ==> #[trigger] signer_of(accounts@)[j],
        decreases accounts@.len() - i,
    {
        if !accounts[i].is_signer {
            assert(!signer_of(accounts@)[i as int]);
            return Err((accounts[i], PrivilegeError::MissingRequiredSignature));
        }
        i += 1;
    }
    Ok(())
}

/// Copies the accounts an instruction names into a vector.
fn metas_to_vec(metas: &[AccountMeta]) -> (r: Vec<AccountMeta>)
    ensures
        r@ == metas@,
{
    let mut out: Vec<AccountMeta> = Vec::new();
    let mut i: usize = 0;
    while i < metas.len()
        invariant
            i <= metas@.len(),
            out@ == metas@.subrange(0, i as int),
        decreases metas@.len() - i,
    {
        out.push(metas[i]);
        assert(out@ =~= metas@.subrange(0, i + 1));
        i += 1;
    }
    assert(metas@.subrange(0, i as int) =~= metas@);
    out
}

/// Number of accounts of the instruction for creating a vault.
pub const INITIALIZE_VAULT_IX_ACCOUNTS_LEN: usize = 15;

/// The accounts handed to the instruction for creating a vault.
#[derive(Clone, Copy, Debug, PartialEq, Eq)]
pub struct InitializeVaultAccounts {
    pub vault: AccountView,
    pub stake_token_vault: AccountView,
    pub quote_token_vault: AccountView,
    pub top_staker_list: AccountView,
    pub full_balance_list: AccountView,
    pub pool: AccountView,
    pub stake_mint: AccountView,
    pub quote_mint: AccountView,
    pub lock_escrow: AccountView,
    pub payer: AccountView,
    pub system_program: AccountView,
    pub token_program: AccountView,
    pub associated_token_program: AccountView,
    pub event_authority: AccountView,
    pub program: AccountView,
}

/// The addresses of the accounts of the instruction for creating a vault.
#[derive(Clone, Copy, Debug, PartialEq, Eq)]
pub struct InitializeVaultKeys {
    pub vault: Pubkey,
    pub stake_token_vault: Pubkey,
    pub quote_token_vault: Pubkey,
    pub top_staker_list: Pubkey,
    pub full_balance_list: Pubkey,
    pub pool: Pubkey,
    pub stake_mint: Pubkey,
    pub quote_mint: Pubkey,
    pub lock_escrow: Pubkey,
    pub payer: Pubkey,
    pub system_program: Pubkey,
    pub token_program: Pubkey,
    pub associated_token_program: Pubkey,
    pub event_authority: Pubkey,
    pub program: Pubkey,
}

impl InitializeVaultAccounts {
    /// The accounts in the order of the instruction.
    pub open spec fn spec_views(self) -> Seq<AccountView> {
        seq![
            self.vault,
            self.stake_token_vault,
            self.quote_token_vault,
            self.top_staker_list,
            self.full_balance_list,
            self.pool,
            self.stake_mint,
            self.quote_mint,
            self.lock_escrow,
            self.payer,
            self.system_program,
            self.token_program,
            self.associated_token_program,
            self.event_authority,
            self.program,
        ]
    }

    /// Returns the accounts in the order of the instruction.
    pub fn to_array(&self) -> (r: [AccountView; 15])
        ensures
            r@ == self.spec_views(),
    {
        let r = [
            self.vault,
            self.stake_token_vault,
            self.quote_token_vault,
            self.top_staker_list,
            self.full_balance_list,
            self.pool,
            self.stake_mint,
            self.quote_mint,
            self.lock_escrow,
            self.payer,
            self.system_program,
            self.token_program,
            self.associated_token_program,
            self.event_authority,
            self.program,
        ];
        assert(r@ =~= self.spec_views());
        r
    }

    /// Names the accounts of an array in the order of the instruction.
    pub fn from_array(accounts: &[AccountView; 15]) -> (r: InitializeVaultAccounts)
        ensures
            r.spec_views() == accounts@,
    {
        let r = InitializeVaultAccounts {
            vault: accounts[0],
            stake_token_vault: accounts[1],
            quote_token_vault: accounts[2],
            top_staker_list: accounts[3],
            full_balance_list: accounts[4],
            pool: accounts[5],
            stake_mint: accounts[6],
            quote_mint: accounts[7],
            lock_escrow: accounts[8],
            payer: accounts[9],
            system_program: accounts[10],
            token_program: accounts[11],
            associated_token_program: accounts[12],
            event_authority: accounts[13],
            program: accounts[14],
        };
        assert(r.spec_views() =~= accounts@);
        r
    }
}

impl InitializeVaultKeys {
    /// The addresses in the order of the instruction.
    pub open spec fn spec_pubkeys(self) -> Seq<Pubkey> {
        seq![
            self.vault,
            self.stake_token_vault,
            self.quote_token_vault,
            self.top_staker_list,
            self.full_balance_list,
            self.pool,
            self.stake_mint,
            self.quote_mint,
            self.lock_escrow,
            self.payer,
            self.system_program,
            self.token_program,
            self.associated_token_program,
            self.event_authority,
            self.program,
        ]
    }

    /// The accounts as the instruction names them: each address with what the
    /// instruction may do with the account.
    pub open spec fn spec_metas(self) -> Seq<AccountMeta> {
        seq![
            AccountMeta { pubkey: self.vault, is_signer: false, is_writable: true },
            AccountMeta { pubkey: self.stake_token_vault, is_signer: false, is_writable: true },
            AccountMeta { pubkey: self.quote_token_vault, is_signer: false, is_writable: true },
            AccountMeta { pubkey: self.top_staker_list, is_signer: false, is_writable: true },
            AccountMeta { pubkey: self.full_balance_list, is_signer: false, is_writable: true },
            AccountMeta { pubkey: self.pool, is_signer: false, is_writable: false },
            AccountMeta { pubkey: self.stake_mint, is_signer: false, is_writable: false },
            AccountMeta { pubkey: self.quote_mint, is_signer: false, is_writable: false },
            AccountMeta { pubkey: self.lock_escrow, is_signer: false, is_writable: false },
            AccountMeta { pubkey: self.payer, is_signer: true, is_writable: true },
            AccountMeta { pubkey: self.system_program, is_signer: false, is_writable: false },
            AccountMeta { pubkey: self.token_program, is_signer: false, is_writable: false },
            AccountMeta { pubkey: self.associated_token_program, is_signer: false, is_writable: false },
            AccountMeta { pubkey: self.event_authority, is_signer: false, is_writable: false },
            AccountMeta { pubkey: self.program, is_signer: false, is_writable: false },
        ]
    }

    /// Takes the addresses of the accounts handed in.
    pub fn from_accounts(accounts: &InitializeVaultAccounts) -> (r: InitializeVaultKeys)
        ensures
            r.spec_pubkeys() == keys_of(accounts.spec_views()),
    {
        let r = InitializeVaultKeys {
            vault: accounts.vault.key,
            stake_token_vault: accounts.stake_token_vault.key,
            quote_token_vault: accounts.quote_token_vault.key,
            top_staker_list: accounts.top_staker_list.key,
            full_balance_list: accounts.full_balance_list.key,
            pool: accounts.pool.key,
            stake_mint: accounts.stake_mint.key,
            quote_mint: accounts.quote_mint.key,
            lock_escrow: accounts.lock_escrow.key,
            payer: accounts.payer.key,
            system_program: accounts.system_program.key,
            token_program: accounts.token_program.key,
            associated_token_program: accounts.associated_token_program.key,
            event_authority: accounts.event_authority.key,
            program: accounts.program.key,
        };
        assert(r.spec_pubkeys() =~= keys_of(accounts.spec_views()));
        r
    }

    /// Names the addresses of an array in the order of the instruction.
    pub fn from_pubkeys(pubkeys: &[Pubkey; 15]) -> (r: InitializeVaultKeys)
        ensures
            r.spec_pubkeys() == pubkeys@,
    {
        let r = InitializeVaultKeys {
            vault: pubkeys[0],
            stake_token_vault: pubkeys[1],
            quote_token_vault: pubkeys[2],
            top_staker_list: pubkeys[3],
            full_balance_list: pubkeys[4],
            pool: pubkeys[5],
            stake_mint: pubkeys[6],
            quote_mint: pubkeys[7],
            lock_escrow: pubkeys[8],
            payer: pubkeys[9],
            system_program: pubkeys[10],
            token_program: pubkeys[11],
            associated_token_program: pubkeys[12],
            event_authority: pubkeys[13],
            program: pubkeys[14],
        };
        assert(r.spec_pubkeys() =~= pubkeys@);
        r
    }

    /// Returns the addresses in the order of the instruction.
    pub fn to_pubkeys(&self) -> (r: [Pubkey; 15])
        ensures
            r@ == self.spec_pubkeys(),
    {
        let r = [
            self.vault,
            self.stake_token_vault,
            self.quote_token_vault,
            self.top_staker_list,
            self.full_balance_list,
            self.pool,
            self.stake_mint,
            self.quote_mint,
            self.lock_escrow,
            self.payer,
            self.system_program,
            self.token_program,
            self.associated_token_program,
            self.event_authority,
            self.program,
        ];
        assert(r@ =~= self.spec_pubkeys());
        r
    }

    /// Returns the accounts as the instruction names them.
    pub fn to_account_metas(&self) -> (r: [AccountMeta; 15])
        ensures
            r@ == self.spec_metas(),
    {
        let r = [
            AccountMeta { pubkey: self.vault, is_signer: false, is_writable: true },
            AccountMeta { pubkey: self.stake_token_vault, is_signer: false, is_writable: true },
            AccountMeta { pubkey: self.quote_token_vault, is_signer: false, is_writable: true },
            AccountMeta { pubkey: self.top_staker_list, is_signer: false, is_writable: true },
            AccountMeta { pubkey: self.full_balance_list, is_signer: false, is_writable: true },
            AccountMeta { pubkey: self.pool, is_signer: false, is_writable: false },
            AccountMeta { pubkey: self.stake_mint, is_signer: false, is_writable: false },
            AccountMeta { pubkey: self.quote_mint, is_signer: false, is_writable: false },
            AccountMeta { pubkey: self.lock_escrow, is_signer: false, is_writable: false },
            AccountMeta { pubkey: self.payer, is_signer: true, is_writable: true },
            AccountMeta { pubkey: self.system_program, is_signer: false, is_writable: false },
            AccountMeta { pubkey: self.token_program, is_signer: false, is_writable: false },
            AccountMeta { pubkey: self.associated_token_program, is_signer: false, is_writable: false },
            AccountMeta { pubkey: self.event_authority, is_signer: false, is_writable: false },
            AccountMeta { pubkey: self.program, is_signer: false, is_writable: false },
        ];
        assert(r@ =~= self.spec_metas());
        r
    }
}

/// Builds the instruction for creating a vault, for the program at `program_id`.
pub fn initialize_vault_ix_with_program_id(program_id: Pubkey, keys: InitializeVaultKeys, args: InitializeVaultIxArgs) -> (r: Result<
    Instruction,
    IxError,
>)
    ensures
        r is Ok,
        r->Ok_0.program_id == program_id,
        r->Ok_0.accounts@ == keys.spec_metas(),
        r->Ok_0.data@ == InitializeVaultIxData(args).spec_bytes(),
{
    let metas = keys.to_account_metas();
    let data = InitializeVaultIxData(args).try_to_vec()?;
    Ok(Instruction { program_id, accounts: metas_to_vec(&metas), data })
}

/// Builds the instruction for creating a vault, for this program.
pub fn initialize_vault_ix(keys: InitializeVaultKeys, args: InitializeVaultIxArgs) -> (r: Result<Instruction, IxError>)
    ensures
        r is Ok,
        r->Ok_0.program_id@ == ID@,
        r->Ok_0.accounts@ == keys.spec_metas(),
        r->Ok_0.data@ == InitializeVaultIxData(args).spec_bytes(),
{
    initialize_vault_ix_with_program_id(Pubkey::new_from_array(ID), keys, args)
}

/// Checks that the accounts handed to the instruction for creating a vault are the
/// ones expected; reports the first that is not, with the address found and the
/// address expected.
pub fn initialize_vault_verify_account_keys(accounts: &InitializeVaultAccounts, keys: &InitializeVaultKeys) -> (r: Result<
    (),
    (Pubkey, Pubkey),
>)
    ensures
        keys_verdict(keys_of(accounts.spec_views()), keys.spec_pubkeys(), r),
{
    let actual = accounts.to_array();
    let expected = keys.to_pubkeys();
    verify_keys(&actual, &expected)
}

impl InitializeVaultAccounts {
    /// The accounts that the instruction writes, in the order in which they are
    /// checked.
    pub open spec fn spec_writable(self) -> Seq<AccountView> {
        seq![
            self.vault,
            self.stake_token_vault,
            self.quote_token_vault,
            self.top_staker_list,
            self.full_balance_list,
            self.payer,
        ]
    }

    /// The accounts that must have signed, in the order in which they are
    /// checked.
    pub open spec fn spec_signers(self) -> Seq<AccountView> {
        seq![
            self.payer,
        ]
    }
}

/// Checks that every account that the instruction for creating a vault writes may be
/// written; reports the first that may not.
pub fn initialize_vault_verify_writable_privileges(accounts: &InitializeVaultAccounts) -> (r: Result<
    (),
    (AccountView, PrivilegeError),
>)
    ensures
        privilege_verdict(
            writable_of(accounts.spec_writable()),
            accounts.spec_writable(),
            PrivilegeError::InvalidAccountData,
            r,
        ),
{
    let checked: [AccountView; 6] = [
        accounts.vault,
        accounts.stake_token_vault,
        accounts.quote_token_vault,
        accounts.top_staker_list,
        accounts.full_balance_list,
        accounts.payer,
    ];
    assert(checked@ =~= accounts.spec_writable());
    verify_writable(&checked)
}

/// Checks that every account that must sign the instruction for creating a vault has
/// signed; reports the first that has not.
pub fn initialize_vault_verify_signer_privileges(accounts: &InitializeVaultAccounts) -> (r: Result<
    (),
    (AccountView, PrivilegeError),
>)
    ensures
        privilege_verdict(
            signer_of(accounts.spec_signers()),
            accounts.spec_signers(),
            PrivilegeError::MissingRequiredSignature,
            r,
        ),
{
    let checked: [AccountView; 1] = [
        accounts.payer,
    ];
    assert(checked@ =~= accounts.spec_signers());
    verify_signer(&checked)
}

/// Checks the privileges of the accounts handed to the instruction for creating a vault:
/// first that those it writes may be written, then that those that must sign
/// have signed.
pub fn initialize_vault_verify_account_privileges(accounts: &InitializeVaultAccounts) -> (r: Result<
    (),
    (AccountView, PrivilegeError),
>)
    ensures
        r is Ok ==> privilege_verdict(
            writable_of(accounts.spec_writable()),
            accounts.spec_writable(),
            PrivilegeError::InvalidAccountData,
            r,
        ) && privilege_verdict(
            signer_of(accounts.spec_signers()),
            accounts.spec_signers(),
            PrivilegeError::MissingRequiredSignature,
            r,
        ),
        r is Err && r->Err_0.1 == PrivilegeError::InvalidAccountData ==> privilege_verdict(
            writable_of(accounts.spec_writable()),
            accounts.spec_writable(),
            PrivilegeError::InvalidAccountData,
            r,
        ),
        r is Err && r->Err_0.1 == PrivilegeError::MissingRequiredSignature ==> privilege_verdict(
            signer_of(accounts.spec_signers()),
            accounts.spec_signers(),
            PrivilegeError::MissingRequiredSignature,
            r,
        ) && privilege_verdict(
            writable_of(accounts.spec_writable()),
            accounts.spec_writable(),
            PrivilegeError::InvalidAccountData,
            Ok(()),
        ),
{
    initialize_vault_verify_writable_privileges(accounts)?;
    initialize_vault_verify_signer_privileges(accounts)?;
    Ok(())
}

/// Number of accounts of the instruction for creating a stake escrow.
pub const INITIALIZE_STAKE_ESCROW_IX_ACCOUNTS_LEN: usize = 9;

/// The accounts handed to the instruction for creating a stake escrow.
#[derive(Clone, Copy, Debug, PartialEq, Eq)]
pub struct InitializeStakeEscrowAccounts {
    pub vault: AccountView,
    pub escrow: AccountView,
    pub full_balance_list: AccountView,
    pub top_staker_list: AccountView,
    pub owner: AccountView,
    pub payer: AccountView,
    pub system_program: AccountView,
    pub event_authority: AccountView,
    pub program: AccountView,
}

/// The addresses of the accounts of the instruction for creating a stake escrow.
#[derive(Clone, Copy, Debug, PartialEq, Eq)]
pub struct InitializeStakeEscrowKeys {
    pub vault: Pubkey,
    pub escrow: Pubkey,
    pub full_balance_list: Pubkey,
    pub top_staker_list: Pubkey,
    pub owner: Pubkey,
    pub payer: Pubkey,
    pub system_program: Pubkey,
    pub event_authority: Pubkey,
    pub program: Pubkey,
}

impl InitializeStakeEscrowAccounts {
    /// The accounts in the order of the instruction.
    pub open spec fn spec_views(self) -> Seq<AccountView> {
        seq![
            self.vault,
            self.escrow,
            self.full_balance_list,
            self.top_staker_list,
            self.owner,
            self.payer,
            self.system_program,
            self.event_authority,
            self.program,
        ]
    }

    /// Returns the accounts in the order of the instruction.
    pub fn to_array(&self) -> (r: [AccountView; 9])
        ensures
            r@ == self.spec_views(),
    {
        let r = [
            self.vault,
            self.escrow,
            self.full_balance_list,
            self.top_staker_list,
            self.owner,
            self.payer,
            self.system_program,
            self.event_authority,
            self.program,
        ];
        assert(r@ =~= self.spec_views());
        r
    }

    /// Names the accounts of an array in the order of the instruction.
    pub fn from_array(accounts: &[AccountView; 9]) -> (r: InitializeStakeEscrowAccounts)
        ensures
            r.spec_views() == accounts@,
    {
        let r = InitializeStakeEscrowAccounts {
            vault: accounts[0],
            escrow: accounts[1],
            full_balance_list: accounts[2],
            top_staker_list: accounts[3],
            owner: accounts[4],
            payer: accounts[5],
            system_program: accounts[6],
            event_authority: accounts[7],
            program: accounts[8],
        };
        assert(r.spec_views() =~= accounts@);
        r
    }
}

impl InitializeStakeEscrowKeys {
    /// The addresses in the order of the instruction.
    pub open spec fn spec_pubkeys(self) -> Seq<Pubkey> {
        seq![
            self.vault,
            self.escrow,
            self.full_balance_list,
            self.top_staker_list,
            self.owner,
            self.payer,
            self.system_program,
            self.event_authority,
            self.program,
        ]
    }

    /// The accounts as the instruction names them: each address with what the
    /// instruction may do with the account.
    pub open spec fn spec_metas(self) -> Seq<AccountMeta> {
        seq![
            AccountMeta { pubkey: self.vault, is_signer: false, is_writable: true },
            AccountMeta { pubkey: self.escrow, is_signer: false, is_writable: true },
            AccountMeta { pubkey: self.full_balance_list, is_signer: false, is_writable: true },
            AccountMeta { pubkey: self.top_staker_list, is_signer: false, is_writable: true },
            AccountMeta { pubkey: self.owner, is_signer: false, is_writable: false },
            AccountMeta { pubkey: self.payer, is_signer: true, is_writable: true },
            AccountMeta { pubkey: self.system_program, is_signer: false, is_writable: false },
            AccountMeta { pubkey: self.event_authority, is_signer: false, is_writable: false },
            AccountMeta { pubkey: self.program, is_signer: false, is_writable: false },
        ]
    }

    /// Takes the addresses of the accounts handed in.
    pub fn from_accounts(accounts: &InitializeStakeEscrowAccounts) -> (r: InitializeStakeEscrowKeys)
        ensures
            r.spec_pubkeys() == keys_of(accounts.spec_views()),
    {
        let r = InitializeStakeEscrowKeys {
            vault: accounts.vault.key,
            escrow: accounts.escrow.key,
            full_balance_list: accounts.full_balance_list.key,
            top_staker_list: accounts.top_staker_list.key,
            owner: accounts.owner.key,
            payer: accounts.payer.key,
            system_program: accounts.system_program.key,
            event_authority: accounts.event_authority.key,
            program: accounts.program.key,
        };
        assert(r.spec_pubkeys() =~= keys_of(accounts.spec_views()));
        r
    }

    /// Names the addresses of an array in the order of the instruction.
    pub fn from_pubkeys(pubkeys: &[Pubkey; 9]) -> (r: InitializeStakeEscrowKeys)
        ensures
            r.spec_pubkeys() == pubkeys@,
    {
        let r = InitializeStakeEscrowKeys {
            vault: pubkeys[0],
            escrow: pubkeys[1],
            full_balance_list: pubkeys[2],
            top_staker_list: pubkeys[3],
            owner: pubkeys[4],
            payer: pubkeys[5],
            system_program: pubkeys[6],
            event_authority: pubkeys[7],
            program: pubkeys[8],
        };
        assert(r.spec_pubkeys() =~= pubkeys@);
        r
    }

    /// Returns the addresses in the order of the instruction.
    pub fn to_pubkeys(&self) -> (r: [Pubkey; 9])
        ensures
            r@ == self.spec_pubkeys(),
    {
        let r = [
            self.vault,
            self.escrow,
            self.full_balance_list,
            self.top_staker_list,
            self.owner,
            self.payer,
            self.system_program,
            self.event_authority,
            self.program,
        ];
        assert(r@ =~= self.spec_pubkeys());
        r
    }

    /// Returns the accounts as the instruction names them.
    pub fn to_account_metas(&self) -> (r: [AccountMeta; 9])
        ensures
            r@ == self.spec_metas(),
    {
        let r = [
            AccountMeta { pubkey: self.vault, is_signer: false, is_writable: true },
            AccountMeta { pubkey: self.escrow, is_signer: false, is_writable: true },
            AccountMeta { pubkey: self.full_balance_list, is_signer: false, is_writable: true },
            AccountMeta { pubkey: self.top_staker_list, is_signer: false, is_writable: true },
            AccountMeta { pubkey: self.owner, is_signer: false, is_writable: false },
            AccountMeta { pubkey: self.payer, is_signer: true, is_writable: true },
            AccountMeta { pubkey: self.system_program, is_signer: false, is_writable: false },
            AccountMeta { pubkey: self.event_authority, is_signer: false, is_writable: false },
            AccountMeta { pubkey: self.program, is_signer: false, is_writable: false },
        ];
        assert(r@ =~= self.spec_metas());
        r
    }
}

/// Builds the instruction for creating a stake escrow, for the program at `program_id`.
pub fn initialize_stake_escrow_ix_with_program_id(program_id: Pubkey, keys: InitializeStakeEscrowKeys) -> (r: Result<
    Instruction,
    IxError,
>)
    ensures
        r is Ok,
        r->Ok_0.program_id == program_id,
        r->Ok_0.accounts@ == keys.spec_metas(),
        r->Ok_0.data@ == InitializeStakeEscrowIxData.spec_bytes(),
{
    let metas = keys.to_account_metas();
    let data = InitializeStakeEscrowIxData.try_to_vec()?;
    Ok(Instruction { program_id, accounts: metas_to_vec(&metas), data })
}

/// Builds the instruction for creating a stake escrow, for this program.
pub fn initialize_stake_escrow_ix(keys: InitializeStakeEscrowKeys) -> (r: Result<Instruction, IxError>)
    ensures
        r is Ok,
        r->Ok_0.program_id@ == ID@,
        r->Ok_0.accounts@ == keys.spec_metas(),
        r->Ok_0.data@ == InitializeStakeEscrowIxData.spec_bytes(),
{
    initialize_stake_escrow_ix_with_program_id(Pubkey::new_from_array(ID), keys)
}

/// Checks that the accounts handed to the instruction for creating a stake escrow are the
/// ones expected; reports the first that is not, with the address found and the
/// address expected.
pub fn initialize_stake_escrow_verify_account_keys(accounts: &InitializeStakeEscrowAccounts, keys: &InitializeStakeEscrowKeys) -> (r: Result<
    (),
    (Pubkey, Pubkey),
>)
    ensures
        keys_verdict(keys_of(accounts.spec_views()), keys.spec_pubkeys(), r),
{
    let actual = accounts.to_array();
    let expected = keys.to_pubkeys();
    verify_keys(&actual, &expected)
}

impl InitializeStakeEscrowAccounts {
    /// The accounts that the instruction writes, in the order in which they are
    /// checked.
    pub open spec fn spec_writable(self) -> Seq<AccountView> {
        seq![
            self.vault,
            self.escrow,
            self.full_balance_list,
            self.top_staker_list,
            self.payer,
        ]
    }

    /// The accounts that must have signed, in the order in which they are
    /// checked.
    pub open spec fn spec_signers(self) -> Seq<AccountView> {
        seq![
            self.payer,
        ]
    }
}

/// Checks that every account that the instruction for creating a stake escrow writes may be
/// written; reports the first that may not.
pub fn initialize_stake_escrow_verify_writable_privileges(accounts: &InitializeStakeEscrowAccounts) -> (r: Result<
    (),
    (AccountView, PrivilegeError),
>)
    ensures
        privilege_verdict(
            writable_of(accounts.spec_writable()),
            accounts.spec_writable(),
            PrivilegeError::InvalidAccountData,
            r,
        ),
{
    let checked: [AccountView; 5] = [
        accounts.vault,
        accounts.escrow,
        accounts.full_balance_list,
        accounts.top_staker_list,
        accounts.payer,
    ];
    assert(checked@ =~= accounts.spec_writable());
    verify_writable(&checked)
}

/// Checks that every account that must sign the instruction for creating a stake escrow has
/// signed; reports the first that has not.
pub fn initialize_stake_escrow_verify_signer_privileges(accounts: &InitializeStakeEscrowAccounts) -> (r: Result<
    (),
    (AccountView, PrivilegeError),
>)
    ensures
        privilege_verdict(
            signer_of(accounts.spec_signers()),
            accounts.spec_signers(),
            PrivilegeError::MissingRequiredSignature,
            r,
        ),
{
    let checked: [AccountView; 1] = [
        accounts.payer,
    ];
    assert(checked@ =~= accounts.spec_signers());
    verify_signer(&checked)
}

/// Checks the privileges of the accounts handed to the instruction for creating a stake escrow:
/// first that those it writes may be written, then that those that must sign
/// have signed.
pub fn initialize_stake_escrow_verify_account_privileges(accounts: &InitializeStakeEscrowAccounts) -> (r: Result<
    (),
    (AccountView, PrivilegeError),
>)
    ensures
        r is Ok ==> privilege_verdict(
            writable_of(accounts.spec_writable()),
            accounts.spec_writable(),
            PrivilegeError::InvalidAccountData,
            r,
        ) && privilege_verdict(
            signer_of(accounts.spec_signers()),
            accounts.spec_signers(),
            PrivilegeError::MissingRequiredSignature,
            r,
        ),
        r is Err && r->Err_0.1 == PrivilegeError::InvalidAccountData ==> privilege_verdict(
            writable_of(accounts.spec_writable()),
            accounts.spec_writable(),
            PrivilegeError::InvalidAccountData,
            r,
        ),
        r is Err && r->Err_0.1 == PrivilegeError::MissingRequiredSignature ==> privilege_verdict(
            signer_of(accounts.spec_signers()),
            accounts.spec_signers(),
            PrivilegeError::MissingRequiredSignature,
            r,
        ) && privilege_verdict(
            writable_of(accounts.spec_writable()),
            accounts.spec_writable(),
            PrivilegeError::InvalidAccountData,
            Ok(()),
        ),
{
    initialize_stake_escrow_verify_writable_privileges(accounts)?;
    initialize_stake_escrow_verify_signer_privileges(accounts)?;
    Ok(())
}

/// Number of accounts of the instruction for staking.
pub const STAKE_IX_ACCOUNTS_LEN: usize = 26;

/// The accounts handed to the instruction for staking.
#[derive(Clone, Copy, Debug, PartialEq, Eq)]
pub struct StakeAccounts {
    pub vault: AccountView,
    pub stake_token_vault: AccountView,
    pub quote_token_vault: AccountView,
    pub top_staker_list: AccountView,
    pub full_balance_list: AccountView,
    pub stake_escrow: AccountView,
    pub smallest_stake_escrow: AccountView,
    pub user_stake_token: AccountView,
    pub owner: AccountView,
    pub pool: AccountView,
    pub lp_mint: AccountView,
    pub lock_escrow: AccountView,
    pub escrow_vault: AccountView,
    pub a_token_vault: AccountView,
    pub b_token_vault: AccountView,
    pub a_vault: AccountView,
    pub b_vault: AccountView,
    pub a_vault_lp: AccountView,
    pub b_vault_lp: AccountView,
    pub a_vault_lp_mint: AccountView,
    pub b_vault_lp_mint: AccountView,
    pub amm_program: AccountView,
    pub vault_program: AccountView,
    pub token_program: AccountView,
    pub event_authority: AccountView,
    pub program: AccountView,
}

/// The addresses of the accounts of the instruction for staking.
#[derive(Clone, Copy, Debug, PartialEq, Eq)]
pub struct StakeKeys {
    pub vault: Pubkey,
    pub stake_token_vault: Pubkey,
    pub quote_token_vault: Pubkey,
    pub top_staker_list: Pubkey,
    pub full_balance_list: Pubkey,
    pub stake_escrow: Pubkey,
    pub smallest_stake_escrow: Pubkey,
    pub user_stake_token: Pubkey,
    pub owner: Pubkey,
    pub pool: Pubkey,
    pub lp_mint: Pubkey,
    pub lock_escrow: Pubkey,
    pub escrow_vault: Pubkey,
    pub a_token_vault: Pubkey,
    pub b_token_vault: Pubkey,
    pub a_vault: Pubkey,
    pub b_vault: Pubkey,
    pub a_vault_lp: Pubkey,
    pub b_vault_lp: Pubkey,
    pub a_vault_lp_mint: Pubkey,
    pub b_vault_lp_mint: Pubkey,
    pub amm_program: Pubkey,
    pub vault_program: Pubkey,
    pub token_program: Pubkey,
    pub event_authority: Pubkey,
    pub program: Pubkey,
}

impl StakeAccounts {
    /// The accounts in the order of the instruction.
    pub open spec fn spec_views(self) -> Seq<AccountView> {
        seq![
            self.vault,
            self.stake_token_vault,
            self.quote_token_vault,
            self.top_staker_list,
            self.full_balance_list,
            self.stake_escrow,
            self.smallest_stake_escrow,
            self.user_stake_token,
            self.owner,
            self.pool,
            self.lp_mint,
            self.lock_escrow,
            self.escrow_vault,
            self.a_token_vault,
            self.b_token_vault,
            self.a_vault,
            self.b_vault,
            self.a_vault_lp,
            self.b_vault_lp,
            self.a_vault_lp_mint,
            self.b_vault_lp_mint,
            self.amm_program,
            self.vault_program,
            self.token_program,
            self.event_authority,
            self.program,
        ]
    }

    /// Returns the accounts in the order of the instruction.
    pub fn to_array(&self) -> (r: [AccountView; 26])
        ensures
            r@ == self.spec_views(),
    {
        let r = [
            self.vault,
            self.stake_token_vault,
            self.quote_token_vault,
            self.top_staker_list,
            self.full_balance_list,
            self.stake_escrow,
            self.smallest_stake_escrow,
            self.user_stake_token,
            self.owner,
            self.pool,
            self.lp_mint,
            self.lock_escrow,
            self.escrow_vault,
            self.a_token_vault,
            self.b_token_vault,
            self.a_vault,
            self.b_vault,
            self.a_vault_lp,
            self.b_vault_lp,
            self.a_vault_lp_mint,
            self.b_vault_lp_mint,
            self.amm_program,
            self.vault_program,
            self.token_program,
            self.event_authority,
            self.program,
        ];
        assert(r@ =~= self.spec_views());
        r
    }

    /// Names the accounts of an array in the order of the instruction.
    pub fn from_array(accounts: &[AccountView; 26]) -> (r: StakeAccounts)
        ensures
            r.spec_views() == accounts@,
    {
        let r = StakeAccounts {
            vault: accounts[0],
            stake_token_vault: accounts[1],
            quote_token_vault: accounts[2],
            top_staker_list: accounts[3],
            full_balance_list: accounts[4],
            stake_escrow: accounts[5],
            smallest_stake_escrow: accounts[6],
            user_stake_token: accounts[7],
            owner: accounts[8],
            pool: accounts[9],
            lp_mint: accounts[10],
            lock_escrow: accounts[11],
            escrow_vault: accounts[12],
            a_token_vault: accounts[13],
            b_token_vault: accounts[14],
            a_vault: accounts[15],
            b_vault: accounts[16],
            a_vault_lp: accounts[17],
            b_vault_lp: accounts[18],
            a_vault_lp_mint: accounts[19],
            b_vault_lp_mint: accounts[20],
            amm_program: accounts[21],
            vault_program: accounts[22],
            token_program: accounts[23],
            event_authority: accounts[24],
            program: accounts[25],
        };
        assert(r.spec_views() =~= accounts@);
        r
    }
}

impl StakeKeys {
    /// The addresses in the order of the instruction.
    pub open spec fn spec_pubkeys(self) -> Seq<Pubkey> {
        seq![
            self.vault,
            self.stake_token_vault,
            self.quote_token_vault,
            self.top_staker_list,
            self.full_balance_list,
            self.stake_escrow,
            self.smallest_stake_escrow,
            self.user_stake_token,
            self.owner,
            self.pool,
            self.lp_mint,
            self.lock_escrow,
            self.escrow_vault,
            self.a_token_vault,
            self.b_token_vault,
            self.a_vault,
            self.b_vault,
            self.a_vault_lp,
            self.b_vault_lp,
            self.a_vault_lp_mint,
            self.b_vault_lp_mint,
            self.amm_program,
            self.vault_program,
            self.token_program,
            self.event_authority,
            self.program,
        ]
    }

    /// The accounts as the instruction names them: each address with what the
    /// instruction may do with the account.
    pub open spec fn spec_metas(self) -> Seq<AccountMeta> {
        seq![
            AccountMeta { pubkey: self.vault, is_signer: false, is_writable: true },
            AccountMeta { pubkey: self.stake_token_vault, is_signer: false, is_writable: true },
            AccountMeta { pubkey: self.quote_token_vault, is_signer: false, is_writable: true },
            AccountMeta { pubkey: self.top_staker_list, is_signer: false, is_writable: true },
            AccountMeta { pubkey: self.full_balance_list, is_signer: false, is_writable: true },
            AccountMeta { pubkey: self.stake_escrow, is_signer: false, is_writable: true },
            AccountMeta { pubkey: self.smallest_stake_escrow, is_signer: false, is_writable: true },
            AccountMeta { pubkey: self.user_stake_token, is_signer: false, is_writable: true },
            AccountMeta { pubkey: self.owner, is_signer: true, is_writable: false },
            AccountMeta { pubkey: self.pool, is_signer: false, is_writable: true },
            AccountMeta { pubkey: self.lp_mint, is_signer: false, is_writable: true },
            AccountMeta { pubkey: self.lock_escrow, is_signer: false, is_writable: true },
            AccountMeta { pubkey: self.escrow_vault, is_signer: false, is_writable: true },
            AccountMeta { pubkey: self.a_token_vault, is_signer: false, is_writable: true },
            AccountMeta { pubkey: self.b_token_vault, is_signer: false, is_writable: true },
            AccountMeta { pubkey: self.a_vault, is_signer: false, is_writable: true },
            AccountMeta { pubkey: self.b_vault, is_signer: false, is_writable: true },
            AccountMeta { pubkey: self.a_vault_lp, is_signer: false, is_writable: true },
            AccountMeta { pubkey: self.b_vault_lp, is_signer: false, is_writable: true },
            AccountMeta { pubkey: self.a_vault_lp_mint, is_signer: false, is_writable: true },
            AccountMeta { pubkey: self.b_vault_lp_mint, is_signer: false, is_writable: true },
            AccountMeta { pubkey: self.amm_program, is_signer: false, is_writable: false },
            AccountMeta { pubkey: self.vault_program, is_signer: false, is_writable: false },
            AccountMeta { pubkey: self.token_program, is_signer: false, is_writable: false },
            AccountMeta { pubkey: self.event_authority, is_signer: false, is_writable: false },
            AccountMeta { pubkey: self.program, is_signer: false, is_writable: false },
        ]
    }

    /// Takes the addresses of the accounts handed in.
    pub fn from_accounts(accounts: &StakeAccounts) -> (r: StakeKeys)
        ensures
            r.spec_pubkeys() == keys_of(accounts.spec_views()),
    {
        let r = StakeKeys {
            vault: accounts.vault.key,
            stake_token_vault: accounts.stake_token_vault.key,
            quote_token_vault: accounts.quote_token_vault.key,
            top_staker_list: accounts.top_staker_list.key,
            full_balance_list: accounts.full_balance_list.key,
            stake_escrow: accounts.stake_escrow.key,
            smallest_stake_escrow: accounts.smallest_stake_escrow.key,
            user_stake_token: accounts.user_stake_token.key,
            owner: accounts.owner.key,
            pool: accounts.pool.key,
            lp_mint: accounts.lp_mint.key,
            lock_escrow: accounts.lock_escrow.key,
            escrow_vault: accounts.escrow_vault.key,
            a_token_vault: accounts.a_token_vault.key,
            b_token_vault: accounts.b_token_vault.key,
            a_vault: accounts.a_vault.key,
            b_vault: accounts.b_vault.key,
            a_vault_lp: accounts.a_vault_lp.key,
            b_vault_lp: accounts.b_vault_lp.key,
            a_vault_lp_mint: accounts.a_vault_lp_mint.key,
            b_vault_lp_mint: accounts.b_vault_lp_mint.key,
            amm_program: accounts.amm_program.key,
            vault_program: accounts.vault_program.key,
            token_program: accounts.token_program.key,
            event_authority: accounts.event_authority.key,
            program: accounts.program.key,
        };
        assert(r.spec_pubkeys() =~= keys_of(accounts.spec_views()));
        r
    }

    /// Names the addresses of an array in the order of the instruction.
    pub fn from_pubkeys(pubkeys: &[Pubkey; 26]) -> (r: StakeKeys)
        ensures
            r.spec_pubkeys() == pubkeys@,
    {
        let r = StakeKeys {
            vault: pubkeys[0],
            stake_token_vault: pubkeys[1],
            quote_token_vault: pubkeys[2],
            top_staker_list: pubkeys[3],
            full_balance_list: pubkeys[4],
            stake_escrow: pubkeys[5],
            smallest_stake_escrow: pubkeys[6],
            user_stake_token: pubkeys[7],
            owner: pubkeys[8],
            pool: pubkeys[9],
            lp_mint: pubkeys[10],
            lock_escrow: pubkeys[11],
            escrow_vault: pubkeys[12],
            a_token_vault: pubkeys[13],
            b_token_vault: pubkeys[14],
            a_vault: pubkeys[15],
            b_vault: pubkeys[16],
            a_vault_lp: pubkeys[17],
            b_vault_lp: pubkeys[18],
            a_vault_lp_mint: pubkeys[19],
            b_vault_lp_mint: pubkeys[20],
            amm_program: pubkeys[21],
            vault_program: pubkeys[22],
            token_program: pubkeys[23],
            event_authority: pubkeys[24],
            program: pubkeys[25],
        };
        assert(r.spec_pubkeys() =~= pubkeys@);
        r
    }

    /// Returns the addresses in the order of the instruction.
    pub fn to_pubkeys(&self) -> (r: [Pubkey; 26])
        ensures
            r@ == self.spec_pubkeys(),
    {
        let r = [
            self.vault,
            self.stake_token_vault,
            self.quote_token_vault,
            self.top_staker_list,
            self.full_balance_list,
            self.stake_escrow,
            self.smallest_stake_escrow,
            self.user_stake_token,
            self.owner,
            self.pool,
            self.lp_mint,
            self.lock_escrow,
            self.escrow_vault,
            self.a_token_vault,
            self.b_token_vault,
            self.a_vault,
            self.b_vault,
            self.a_vault_lp,
            self.b_vault_lp,
            self.a_vault_lp_mint,
            self.b_vault_lp_mint,
            self.amm_program,
            self.vault_program,
            self.token_program,
            self.event_authority,
            self.program,
        ];
        assert(r@ =~= self.spec_pubkeys());
        r
    }

    /// Returns the accounts as the instruction names them.
    pub fn to_account_metas(&self) -> (r: [AccountMeta; 26])
        ensures
            r@ == self.spec_metas(),
    {
        let r = [
            AccountMeta { pubkey: self.vault, is_signer: false, is_writable: true },
            AccountMeta { pubkey: self.stake_token_vault, is_signer: false, is_writable: true },
            AccountMeta { pubkey: self.quote_token_vault, is_signer: false, is_writable: true },
            AccountMeta { pubkey: self.top_staker_list, is_signer: false, is_writable: true },
            AccountMeta { pubkey: self.full_balance_list, is_signer: false, is_writable: true },
            AccountMeta { pubkey: self.stake_escrow, is_signer: false, is_writable: true },
            AccountMeta { pubkey: self.smallest_stake_escrow, is_signer: false, is_writable: true },
            AccountMeta { pubkey: self.user_stake_token, is_signer: false, is_writable: true },
            AccountMeta { pubkey: self.owner, is_signer: true, is_writable: false },
            AccountMeta { pubkey: self.pool, is_signer: false, is_writable: true },
            AccountMeta { pubkey: self.lp_mint, is_signer: false, is_writable: true },
            AccountMeta { pubkey: self.lock_escrow, is_signer: false, is_writable: true },
            AccountMeta { pubkey: self.escrow_vault, is_signer: false, is_writable: true },
            AccountMeta { pubkey: self.a_token_vault, is_signer: false, is_writable: true },
            AccountMeta { pubkey: self.b_token_vault, is_signer: false, is_writable: true },
            AccountMeta { pubkey: self.a_vault, is_signer: false, is_writable: true },
            AccountMeta { pubkey: self.b_vault, is_signer: false, is_writable: true },
            AccountMeta { pubkey: self.a_vault_lp, is_signer: false, is_writable: true },
            AccountMeta { pubkey: self.b_vault_lp, is_signer: false, is_writable: true },
            AccountMeta { pubkey: self.a_vault_lp_mint, is_signer: false, is_writable: true },
            AccountMeta { pubkey: self.b_vault_lp_mint, is_signer: false, is_writable: true },
            AccountMeta { pubkey: self.amm_program, is_signer: false, is_writable: false },
            AccountMeta { pubkey: self.vault_program, is_signer: false, is_writable: false },
            AccountMeta { pubkey: self.token_program, is_signer: false, is_writable: false },
            AccountMeta { pubkey: self.event_authority, is_signer: false, is_writable: false },
            AccountMeta { pubkey: self.program, is_signer: false, is_writable: false },
        ];
        assert(r@ =~= self.spec_metas());
        r
    }
}

/// Builds the instruction for staking, for the program at `program_id`.
pub fn stake_ix_with_program_id(program_id: Pubkey, keys: StakeKeys, args: StakeIxArgs) -> (r: Result<
    Instruction,
    IxError,
>)
    ensures
        r is Ok,
        r->Ok_0.program_id == program_id,
        r->Ok_0.accounts@ == keys.spec_metas(),
        r->Ok_0.data@ == StakeIxData(args).spec_bytes(),
{
    let metas = keys.to_account_metas();
    let data = StakeIxData(args).try_to_vec()?;
    Ok(Instruction { program_id, accounts: metas_to_vec(&metas), data })
}

/// Builds the instruction for staking, for this program.
pub fn stake_ix(keys: StakeKeys, args: StakeIxArgs) -> (r: Result<Instruction, IxError>)
    ensures
        r is Ok,
        r->Ok_0.program_id@ == ID@,
        r->Ok_0.accounts@ == keys.spec_metas(),
        r->Ok_0.data@ == StakeIxData(args).spec_bytes(),
{
    stake_ix_with_program_id(Pubkey::new_from_array(ID), keys, args)
}

/// Checks that the accounts handed to the instruction for staking are the
/// ones expected; reports the first that is not, with the address found and the
/// address expected.
pub fn stake_verify_account_keys(accounts: &StakeAccounts, keys: &StakeKeys) -> (r: Result<
    (),
    (Pubkey, Pubkey),
>)
    ensures
        keys_verdict(keys_of(accounts.spec_views()), keys.spec_pubkeys(), r),
{
    let actual = accounts.to_array();
    let expected = keys.to_pubkeys();
    verify_keys(&actual, &expected)
}

impl StakeAccounts {
    /// The accounts that the instruction writes, in the order in which they are
    /// checked.
    pub open spec fn spec_writable(self) -> Seq<AccountView> {
        seq![
            self.vault,
            self.stake_token_vault,
            self.quote_token_vault,
            self.top_staker_list,
            self.full_balance_list,
            self.stake_escrow,
            self.smallest_stake_escrow,
            self.user_stake_token,
            self.pool,
            self.lp_mint,
            self.lock_escrow,
            self.escrow_vault,
            self.a_token_vault,
            self.b_token_vault,
            self.a_vault,
            self.b_vault,
            self.a_vault_lp,
            self.b_vault_lp,
            self.a_vault_lp_mint,
            self.b_vault_lp_mint,
        ]
    }

    /// The accounts that must have signed, in the order in which they are
    /// checked.
    pub open spec fn spec_signers(self) -> Seq<AccountView> {
        seq![
            self.owner,
        ]
    }
}

/// Checks that every account that the instruction for staking writes may be
/// written; reports the first that may not.
pub fn stake_verify_writable_privileges(accounts: &StakeAccounts) -> (r: Result<
    (),
    (AccountView, PrivilegeError),
>)
    ensures
        privilege_verdict(
            writable_of(accounts.spec_writable()),
            accounts.spec_writable(),
            PrivilegeError::InvalidAccountData,
            r,
        ),
{
    let checked: [AccountView; 20] = [
        accounts.vault,
        accounts.stake_token_vault,
        accounts.quote_token_vault,
        accounts.top_staker_list,
        accounts.full_balance_list,
        accounts.stake_escrow,
        accounts.smallest_stake_escrow,
        accounts.user_stake_token,
        accounts.pool,
        accounts.lp_mint,
        accounts.lock_escrow,
        accounts.escrow_vault,
        accounts.a_token_vault,
        accounts.b_token_vault,
        accounts.a_vault,
        accounts.b_vault,
        accounts.a_vault_lp,
        accounts.b_vault_lp,
        accounts.a_vault_lp_mint,
        accounts.b_vault_lp_mint,
    ];
    assert(checked@ =~= accounts.spec_writable());
    verify_writable(&checked)
}

/// Checks that every account that must sign the instruction for staking has
/// signed; reports the first that has not.
pub fn stake_verify_signer_privileges(accounts: &StakeAccounts) -> (r: Result<
    (),
    (AccountView, PrivilegeError),
>)
    ensures
        privilege_verdict(
            signer_of(accounts.spec_signers()),
            accounts.spec_signers(),
            PrivilegeError::MissingRequiredSignature,
            r,
        ),
{
    let checked: [AccountView; 1] = [
        accounts.owner,
    ];
    assert(checked@ =~= accounts.spec_signers());
    verify_signer(&checked)
}

/// Checks the privileges of the accounts handed to the instruction for staking:
/// first that those it writes may be written, then that those that must sign
/// have signed.
pub fn stake_verify_account_privileges(accounts: &StakeAccounts) -> (r: Result<
    (),
    (AccountView, PrivilegeError),
>)
    ensures
        r is Ok ==> privilege_verdict(
            writable_of(accounts.spec_writable()),
            accounts.spec_writable(),
            PrivilegeError::InvalidAccountData,
            r,
        ) && privilege_verdict(
            signer_of(accounts.spec_signers()),
            accounts.spec_signers(),
            PrivilegeError::MissingRequiredSignature,
            r,
        ),
        r is Err && r->Err_0.1 == PrivilegeError::InvalidAccountData ==> privilege_verdict(
            writable_of(accounts.spec_writable()),
            accounts.spec_writable(),
            PrivilegeError::InvalidAccountData,
            r,
        ),
        r is Err && r->Err_0.1 == PrivilegeError::MissingRequiredSignature ==> privilege_verdict(
            signer_of(accounts.spec_signers()),
            accounts.spec_signers(),
            PrivilegeError::MissingRequiredSignature,
            r,
        ) && privilege_verdict(
            writable_of(accounts.spec_writable()),
            accounts.spec_writable(),
            PrivilegeError::InvalidAccountData,
            Ok(()),
        ),
{
    stake_verify_writable_privileges(accounts)?;
    stake_verify_signer_privileges(accounts)?;
    Ok(())
}

/// Number of accounts of the instruction for claiming fees.
pub const CLAIM_FEE_IX_ACCOUNTS_LEN: usize = 26;

/// The accounts handed to the instruction for claiming fees.
#[derive(Clone, Copy, Debug, PartialEq, Eq)]
pub struct ClaimFeeAccounts {
    pub vault: AccountView,
    pub top_staker_list: AccountView,
    pub full_balance_list: AccountView,
    pub stake_escrow: AccountView,
    pub smallest_stake_escrow: AccountView,
    pub user_quote_token: AccountView,
    pub stake_token_vault: AccountView,
    pub quote_token_vault: AccountView,
    pub owner: AccountView,
    pub pool: AccountView,
    pub lp_mint: AccountView,
    pub lock_escrow: AccountView,
    pub escrow_vault: AccountView,
    pub a_token_vault: AccountView,
    pub b_token_vault: AccountView,
    pub a_vault: AccountView,
    pub b_vault: AccountView,
    pub a_vault_lp: AccountView,
    pub b_vault_lp: AccountView,
    pub a_vault_lp_mint: AccountView,
    pub b_vault_lp_mint: AccountView,
    pub amm_program: AccountView,
    pub vault_program: AccountView,
    pub token_program: AccountView,
    pub event_authority: AccountView,
    pub program: AccountView,
}

/// The addresses of the accounts of the instruction for claiming fees.
#[derive(Clone, Copy, Debug, PartialEq, Eq)]
pub struct ClaimFeeKeys {
    pub vault: Pubkey,
    pub top_staker_list: Pubkey,
    pub full_balance_list: Pubkey,
    pub stake_escrow: Pubkey,
    pub smallest_stake_escrow: Pubkey,
    pub user_quote_token: Pubkey,
    pub stake_token_vault: Pubkey,
    pub quote_token_vault: Pubkey,
    pub owner: Pubkey,
    pub pool: Pubkey,
    pub lp_mint: Pubkey,
    pub lock_escrow: Pubkey,
    pub escrow_vault: Pubkey,
    pub a_token_vault: Pubkey,
    pub b_token_vault: Pubkey,
    pub a_vault: Pubkey,
    pub b_vault: Pubkey,
    pub a_vault_lp: Pubkey,
    pub b_vault_lp: Pubkey,
    pub a_vault_lp_mint: Pubkey,
    pub b_vault_lp_mint: Pubkey,
    pub amm_program: Pubkey,
    pub vault_program: Pubkey,
    pub token_program: Pubkey,
    pub event_authority: Pubkey,
    pub program: Pubkey,
}

impl ClaimFeeAccounts {
    /// The accounts in the order of the instruction.
    pub open spec fn spec_views(self) -> Seq<AccountView> {
        seq![
            self.vault,
            self.top_staker_list,
            self.full_balance_list,
            self.stake_escrow,
            self.smallest_stake_escrow,
            self.user_quote_token,
            self.stake_token_vault,
            self.quote_token_vault,
            self.owner,
            self.pool,
            self.lp_mint,
            self.lock_escrow,
            self.escrow_vault,
            self.a_token_vault,
            self.b_token_vault,
            self.a_vault,
            self.b_vault,
            self.a_vault_lp,
            self.b_vault_lp,
            self.a_vault_lp_mint,
            self.b_vault_lp_mint,
            self.amm_program,
            self.vault_program,
            self.token_program,
            self.event_authority,
            self.program,
        ]
    }

    /// Returns the accounts in the order of the instruction.
    pub fn to_array(&self) -> (r: [AccountView; 26])
        ensures
            r@ == self.spec_views(),
    {
        let r = [
            self.vault,
            self.top_staker_list,
            self.full_balance_list,
            self.stake_escrow,
            self.smallest_stake_escrow,
            self.user_quote_token,
            self.stake_token_vault,
            self.quote_token_vault,
            self.owner,
            self.pool,
            self.lp_mint,
            self.lock_escrow,
            self.escrow_vault,
            self.a_token_vault,
            self.b_token_vault,
            self.a_vault,
            self.b_vault,
            self.a_vault_lp,
            self.b_vault_lp,
            self.a_vault_lp_mint,
            self.b_vault_lp_mint,
            self.amm_program,
            self.vault_program,
            self.token_program,
            self.event_authority,
            self.program,
        ];
        assert(r@ =~= self.spec_views());
        r
    }

    /// Names the accounts of an array in the order of the instruction.
    pub fn from_array(accounts: &[AccountView; 26]) -> (r: ClaimFeeAccounts)
        ensures
            r.spec_views() == accounts@,
    {
        let r = ClaimFeeAccounts {
            vault: accounts[0],
            top_staker_list: accounts[1],
            full_balance_list: accounts[2],
            stake_escrow: accounts[3],
            smallest_stake_escrow: accounts[4],
            user_quote_token: accounts[5],
            stake_token_vault: accounts[6],
            quote_token_vault: accounts[7],
            owner: accounts[8],
            pool: accounts[9],
            lp_mint: accounts[10],
            lock_escrow: accounts[11],
            escrow_vault: accounts[12],
            a_token_vault: accounts[13],
            b_token_vault: accounts[14],
            a_vault: accounts[15],
            b_vault: accounts[16],
            a_vault_lp: accounts[17],
            b_vault_lp: accounts[18],
            a_vault_lp_mint: accounts[19],
            b_vault_lp_mint: accounts[20],
            amm_program: accounts[21],
            vault_program: accounts[22],
            token_program: accounts[23],
            event_authority: accounts[24],
            program: accounts[25],
        };
        assert(r.spec_views() =~= accounts@);
        r
    }
}

impl ClaimFeeKeys {
    /// The addresses in the order of the instruction.
    pub open spec fn spec_pubkeys(self) -> Seq<Pubkey> {
        seq![
            self.vault,
            self.top_staker_list,
            self.full_balance_list,
            self.stake_escrow,
            self.smallest_stake_escrow,
            self.user_quote_token,
            self.stake_token_vault,
            self.quote_token_vault,
            self.owner,
            self.pool,
            self.lp_mint,
            self.lock_escrow,
            self.escrow_vault,
            self.a_token_vault,
            self.b_token_vault,
            self.a_vault,
            self.b_vault,
            self.a_vault_lp,
            self.b_vault_lp,
            self.a_vault_lp_mint,
            self.b_vault_lp_mint,
            self.amm_program,
            self.vault_program,
            self.token_program,
            self.event_authority,
            self.program,
        ]
    }

    /// The accounts as the instruction names them: each address with what the
    /// instruction may do with the account.
    pub open spec fn spec_metas(self) -> Seq<AccountMeta> {
        seq![
            AccountMeta { pubkey: self.vault, is_signer: false, is_writable: true },
            AccountMeta { pubkey: self.top_staker_list, is_signer: false, is_writable: true },
            AccountMeta { pubkey: self.full_balance_list, is_signer: false, is_writable: true },
            AccountMeta { pubkey: self.stake_escrow, is_signer: false, is_writable: true },
            AccountMeta { pubkey: self.smallest_stake_escrow, is_signer: false, is_writable: true },
            AccountMeta { pubkey: self.user_quote_token, is_signer: false, is_writable: true },
            AccountMeta { pubkey: self.stake_token_vault, is_signer: false, is_writable: true },
            AccountMeta { pubkey: self.quote_token_vault, is_signer: false, is_writable: true },
            AccountMeta { pubkey: self.owner, is_signer: true, is_writable: false },
            AccountMeta { pubkey: self.pool, is_signer: false, is_writable: true },
            AccountMeta { pubkey: self.lp_mint, is_signer: false, is_writable: true },
            AccountMeta { pubkey: self.lock_escrow, is_signer: false, is_writable: true },
            AccountMeta { pubkey: self.escrow_vault, is_signer: false, is_writable: true },
            AccountMeta { pubkey: self.a_token_vault, is_signer: false, is_writable: true },
            AccountMeta { pubkey: self.b_token_vault, is_signer: false, is_writable: true },
            AccountMeta { pubkey: self.a_vault, is_signer: false, is_writable: true },
            AccountMeta { pubkey: self.b_vault, is_signer: false, is_writable: true },
            AccountMeta { pubkey: self.a_vault_lp, is_signer: false, is_writable: true },
            AccountMeta { pubkey: self.b_vault_lp, is_signer: false, is_writable: true },
            AccountMeta { pubkey: self.a_vault_lp_mint, is_signer: false, is_writable: true },
            AccountMeta { pubkey: self.b_vault_lp_mint, is_signer: false, is_writable: true },
            AccountMeta { pubkey: self.amm_program, is_signer: false, is_writable: false },
            AccountMeta { pubkey: self.vault_program, is_signer: false, is_writable: false },
            AccountMeta { pubkey: self.token_program, is_signer: false, is_writable: false },
            AccountMeta { pubkey: self.event_authority, is_signer: false, is_writable: false },
            AccountMeta { pubkey: self.program, is_signer: false, is_writable: false },
        ]
    }

    /// Takes the addresses of the accounts handed in.
    pub fn from_accounts(accounts: &ClaimFeeAccounts) -> (r: ClaimFeeKeys)
        ensures
            r.spec_pubkeys() == keys_of(accounts.spec_views()),
    {
        let r = ClaimFeeKeys {
            vault: accounts.vault.key,
            top_staker_list: accounts.top_staker_list.key,
            full_balance_list: accounts.full_balance_list.key,
            stake_escrow: accounts.stake_escrow.key,
            smallest_stake_escrow: accounts.smallest_stake_escrow.key,
            user_quote_token: accounts.user_quote_token.key,
            stake_token_vault: accounts.stake_token_vault.key,
            quote_token_vault: accounts.quote_token_vault.key,
            owner: accounts.owner.key,
            pool: accounts.pool.key,
            lp_mint: accounts.lp_mint.key,
            lock_escrow: accounts.lock_escrow.key,
            escrow_vault: accounts.escrow_vault.key,
            a_token_vault: accounts.a_token_vault.key,
            b_token_vault: accounts.b_token_vault.key,
            a_vault: accounts.a_vault.key,
            b_vault: accounts.b_vault.key,
            a_vault_lp: accounts.a_vault_lp.key,
            b_vault_lp: accounts.b_vault_lp.key,
            a_vault_lp_mint: accounts.a_vault_lp_mint.key,
            b_vault_lp_mint: accounts.b_vault_lp_mint.key,
            amm_program: accounts.amm_program.key,
            vault_program: accounts.vault_program.key,
            token_program: accounts.token_program.key,
            event_authority: accounts.event_authority.key,
            program: accounts.program.key,
        };
        assert(r.spec_pubkeys() =~= keys_of(accounts.spec_views()));
        r
    }

    /// Names the addresses of an array in the order of the instruction.
    pub fn from_pubkeys(pubkeys: &[Pubkey; 26]) -> (r: ClaimFeeKeys)
        ensures
            r.spec_pubkeys() == pubkeys@,
    {
        let r = ClaimFeeKeys {
            vault: pubkeys[0],
            top_staker_list: pubkeys[1],
            full_balance_list: pubkeys[2],
            stake_escrow: pubkeys[3],
            smallest_stake_escrow: pubkeys[4],
            user_quote_token: pubkeys[5],
            stake_token_vault: pubkeys[6],
            quote_token_vault: pubkeys[7],
            owner: pubkeys[8],
            pool: pubkeys[9],
            lp_mint: pubkeys[10],
            lock_escrow: pubkeys[11],
            escrow_vault: pubkeys[12],
            a_token_vault: pubkeys[13],
            b_token_vault: pubkeys[14],
            a_vault: pubkeys[15],
            b_vault: pubkeys[16],
            a_vault_lp: pubkeys[17],
            b_vault_lp: pubkeys[18],
            a_vault_lp_mint: pubkeys[19],
            b_vault_lp_mint: pubkeys[20],
            amm_program: pubkeys[21],
            vault_program: pubkeys[22],
            token_program: pubkeys[23],
            event_authority: pubkeys[24],
            program: pubkeys[25],
        };
        assert(r.spec_pubkeys() =~= pubkeys@);
        r
    }

    /// Returns the addresses in the order of the instruction.
    pub fn to_pubkeys(&self) -> (r: [Pubkey; 26])
        ensures
            r@ == self.spec_pubkeys(),
    {
        let r = [
            self.vault,
            self.top_staker_list,
            self.full_balance_list,
            self.stake_escrow,
            self.smallest_stake_escrow,
            self.user_quote_token,
            self.stake_token_vault,
            self.quote_token_vault,
            self.owner,
            self.pool,
            self.lp_mint,
            self.lock_escrow,
            self.escrow_vault,
            self.a_token_vault,
            self.b_token_vault,
            self.a_vault,
            self.b_vault,
            self.a_vault_lp,
            self.b_vault_lp,
            self.a_vault_lp_mint,
            self.b_vault_lp_mint,
            self.amm_program,
            self.vault_program,
            self.token_program,
            self.event_authority,
            self.program,
        ];
        assert(r@ =~= self.spec_pubkeys());
        r
    }

    /// Returns the accounts as the instruction names them.
    pub fn to_account_metas(&self) -> (r: [AccountMeta; 26])
        ensures
            r@ == self.spec_metas(),
    {
        let r = [
            AccountMeta { pubkey: self.vault, is_signer: false, is_writable: true },
            AccountMeta { pubkey: self.top_staker_list, is_signer: false, is_writable: true },
            AccountMeta { pubkey: self.full_balance_list, is_signer: false, is_writable: true },
            AccountMeta { pubkey: self.stake_escrow, is_signer: false, is_writable: true },
            AccountMeta { pubkey: self.smallest_stake_escrow, is_signer: false, is_writable: true },
            AccountMeta { pubkey: self.user_quote_token, is_signer: false, is_writable: true },
            AccountMeta { pubkey: self.stake_token_vault, is_signer: false, is_writable: true },
            AccountMeta { pubkey: self.quote_token_vault, is_signer: false, is_writable: true },
            AccountMeta { pubkey: self.owner, is_signer: true, is_writable: false },
            AccountMeta { pubkey: self.pool, is_signer: false, is_writable: true },
            AccountMeta { pubkey: self.lp_mint, is_signer: false, is_writable: true },
            AccountMeta { pubkey: self.lock_escrow, is_signer: false, is_writable: true },
            AccountMeta { pubkey: self.escrow_vault, is_signer: false, is_writable: true },
            AccountMeta { pubkey: self.a_token_vault, is_signer: false, is_writable: true },
            AccountMeta { pubkey: self.b_token_vault, is_signer: false, is_writable: true },
            AccountMeta { pubkey: self.a_vault, is_signer: false, is_writable: true },
            AccountMeta { pubkey: self.b_vault, is_signer: false, is_writable: true },
            AccountMeta { pubkey: self.a_vault_lp, is_signer: false, is_writable: true },
            AccountMeta { pubkey: self.b_vault_lp, is_signer: false, is_writable: true },
            AccountMeta { pubkey: self.a_vault_lp_mint, is_signer: false, is_writable: true },
            AccountMeta { pubkey: self.b_vault_lp_mint, is_signer: false, is_writable: true },
            AccountMeta { pubkey: self.amm_program, is_signer: false, is_writable: false },
            AccountMeta { pubkey: self.vault_program, is_signer: false, is_writable: false },
            AccountMeta { pubkey: self.token_program, is_signer: false, is_writable: false },
            AccountMeta { pubkey: self.event_authority, is_signer: false, is_writable: false },
            AccountMeta { pubkey: self.program, is_signer: false, is_writable: false },
        ];
        assert(r@ =~= self.spec_metas());
        r
    }
}

/// Builds the instruction for claiming fees, for the program at `program_id`.
pub fn claim_fee_ix_with_program_id(program_id: Pubkey, keys: ClaimFeeKeys, args: ClaimFeeIxArgs) -> (r: Result<
    Instruction,
    IxError,
>)
    ensures
        r is Ok,
        r->Ok_0.program_id == program_id,
        r->Ok_0.accounts@ == keys.spec_metas(),
        r->Ok_0.data@ == ClaimFeeIxData(args).spec_bytes(),
{
    let metas = keys.to_account_metas();
    let data = ClaimFeeIxData(args).try_to_vec()?;
    Ok(Instruction { program_id, accounts: metas_to_vec(&metas), data })
}

/// Builds the instruction for claiming fees, for this program.
pub fn claim_fee_ix(keys: ClaimFeeKeys, args: ClaimFeeIxArgs) -> (r: Result<Instruction, IxError>)
    ensures
        r is Ok,
        r->Ok_0.program_id@ == ID@,
        r->Ok_0.accounts@ == keys.spec_metas(),
        r->Ok_0.data@ == ClaimFeeIxData(args).spec_bytes(),
{
    claim_fee_ix_with_program_id(Pubkey::new_from_array(ID), keys, args)
}

/// Checks that the accounts handed to the instruction for claiming fees are the
/// ones expected; reports the first that is not, with the address found and the
/// address expected.
pub fn claim_fee_verify_account_keys(accounts: &ClaimFeeAccounts, keys: &ClaimFeeKeys) -> (r: Result<
    (),
    (Pubkey, Pubkey),
>)
    ensures
        keys_verdict(keys_of(accounts.spec_views()), keys.spec_pubkeys(), r),
{
    let actual = accounts.to_array();
    let expected = keys.to_pubkeys();
    verify_keys(&actual, &expected)
}

impl ClaimFeeAccounts {
    /// The accounts that the instruction writes, in the order in which they are
    /// checked.
    pub open spec fn spec_writable(self) -> Seq<AccountView> {
        seq![
            self.vault,
            self.top_staker_list,
            self.full_balance_list,
            self.stake_escrow,
            self.smallest_stake_escrow,
            self.user_quote_token,
            self.stake_token_vault,
            self.quote_token_vault,
            self.pool,
            self.lp_mint,
            self.lock_escrow,
            self.escrow_vault,
            self.a_token_vault,
            self.b_token_vault,
            self.a_vault,
            self.b_vault,
            self.a_vault_lp,
            self.b_vault_lp,
            self.a_vault_lp_mint,
            self.b_vault_lp_mint,
        ]
    }

    /// The accounts that must have signed, in the order in which they are
    /// checked.
    pub open spec fn spec_signers(self) -> Seq<AccountView> {
        seq![
            self.owner,
        ]
    }
}

/// Checks that every account that the instruction for claiming fees writes may be
/// written; reports the first that may not.
pub fn claim_fee_verify_writable_privileges(accounts: &ClaimFeeAccounts) -> (r: Result<
    (),
    (AccountView, PrivilegeError),
>)
    ensures
        privilege_verdict(
            writable_of(accounts.spec_writable()),
            accounts.spec_writable(),
            PrivilegeError::InvalidAccountData,
            r,
        ),
{
    let checked: [AccountView; 20] = [
        accounts.vault,
        accounts.top_staker_list,
        accounts.full_balance_list,
        accounts.stake_escrow,
        accounts.smallest_stake_escrow,
        accounts.user_quote_token,
        accounts.stake_token_vault,
        accounts.quote_token_vault,
        accounts.pool,
        accounts.lp_mint,
        accounts.lock_escrow,
        accounts.escrow_vault,
        accounts.a_token_vault,
        accounts.b_token_vault,
        accounts.a_vault,
        accounts.b_vault,
        accounts.a_vault_lp,
        accounts.b_vault_lp,
        accounts.a_vault_lp_mint,
        accounts.b_vault_lp_mint,
    ];
    assert(checked@ =~= accounts.spec_writable());
    verify_writable(&checked)
}

/// Checks that every account that must sign the instruction for claiming fees has
/// signed; reports the first that has not.
pub fn claim_fee_verify_signer_privileges(accounts: &ClaimFeeAccounts) -> (r: Result<
    (),
    (AccountView, PrivilegeError),
>)
    ensures
        privilege_verdict(
            signer_of(accounts.spec_signers()),
            accounts.spec_signers(),
            PrivilegeError::MissingRequiredSignature,
            r,
        ),
{
    let checked: [AccountView; 1] = [
        accounts.owner,
    ];
    assert(checked@ =~= accounts.spec_signers());
    verify_signer(&checked)
}

/// Checks the privileges of the accounts handed to the instruction for claiming fees:
/// first that those it writes may be written, then that those that must sign
/// have signed.
pub fn claim_fee_verify_account_privileges(accounts: &ClaimFeeAccounts) -> (r: Result<
    (),
    (AccountView, PrivilegeError),
>)
    ensures
        r is Ok ==> privilege_verdict(
            writable_of(accounts.spec_writable()),
            accounts.spec_writable(),
            PrivilegeError::InvalidAccountData,
            r,
        ) && privilege_verdict(
            signer_of(accounts.spec_signers()),
            accounts.spec_signers(),
            PrivilegeError::MissingRequiredSignature,
            r,
        ),
        r is Err && r->Err_0.1 == PrivilegeError::InvalidAccountData ==> privilege_verdict(
            writable_of(accounts.spec_writable()),
            accounts.spec_writable(),
            PrivilegeError::InvalidAccountData,
            r,
        ),
        r is Err && r->Err_0.1 == PrivilegeError::MissingRequiredSignature ==> privilege_verdict(
            signer_of(accounts.spec_signers()),
            accounts.spec_signers(),
            PrivilegeError::MissingRequiredSignature,
            r,
        ) && privilege_verdict(
            writable_of(accounts.spec_writable()),
            accounts.spec_writable(),
            PrivilegeError::InvalidAccountData,
            Ok(()),
        ),
{
    claim_fee_verify_writable_privileges(accounts)?;
    claim_fee_verify_signer_privileges(accounts)?;
    Ok(())
}

/// Number of accounts of the instruction for requesting an unstake.
pub const REQUEST_UNSTAKE_IX_ACCOUNTS_LEN: usize = 26;

/// The accounts handed to the instruction for requesting an unstake.
#[derive(Clone, Copy, Debug, PartialEq, Eq)]
pub struct RequestUnstakeAccounts {
    pub unstake: AccountView,
    pub vault: AccountView,
    pub top_staker_list: AccountView,
    pub full_balance_list: AccountView,
    pub stake_escrow: AccountView,
    pub stake_token_vault: AccountView,
    pub quote_token_vault: AccountView,
    pub owner: AccountView,
    pub pool: AccountView,
    pub lp_mint: AccountView,
    pub lock_escrow: AccountView,
    pub escrow_vault: AccountView,
    pub a_token_vault: AccountView,
    pub b_token_vault: AccountView,
    pub a_vault: AccountView,
    pub b_vault: AccountView,
    pub a_vault_lp: AccountView,
    pub b_vault_lp: AccountView,
    pub a_vault_lp_mint: AccountView,
    pub b_vault_lp_mint: AccountView,
    pub amm_program: AccountView,
    pub vault_program: AccountView,
    pub token_program: AccountView,
    pub system_program: AccountView,
    pub event_authority: AccountView,
    pub program: AccountView,
}

/// The addresses of the accounts of the instruction for requesting an unstake.
#[derive(Clone, Copy, Debug, PartialEq, Eq)]
pub struct RequestUnstakeKeys {
    pub unstake: Pubkey,
    pub vault: Pubkey,
    pub top_staker_list: Pubkey,
    pub full_balance_list: Pubkey,
    pub stake_escrow: Pubkey,
    pub stake_token_vault: Pubkey,
    pub quote_token_vault: Pubkey,
    pub owner: Pubkey,
    pub pool: Pubkey,
    pub lp_mint: Pubkey,
    pub lock_escrow: Pubkey,
    pub escrow_vault: Pubkey,
    pub a_token_vault: Pubkey,
    pub b_token_vault: Pubkey,
    pub a_vault: Pubkey,
    pub b_vault: Pubkey,
    pub a_vault_lp: Pubkey,
    pub b_vault_lp: Pubkey,
    pub a_vault_lp_mint: Pubkey,
    pub b_vault_lp_mint: Pubkey,
    pub amm_program: Pubkey,
    pub vault_program: Pubkey,
    pub token_program: Pubkey,
    pub system_program: Pubkey,
    pub event_authority: Pubkey,
    pub program: Pubkey,
}

impl RequestUnstakeAccounts {
    /// The accounts in the order of the instruction.
    pub open spec fn spec_views(self) -> Seq<AccountView> {
        seq![
            self.unstake,
            self.vault,
            self.top_staker_list,
            self.full_balance_list,
            self.stake_escrow,
            self.stake_token_vault,
            self.quote_token_vault,
            self.owner,
            self.pool,
            self.lp_mint,
            self.lock_escrow,
            self.escrow_vault,
            self.a_token_vault,
            self.b_token_vault,
            self.a_vault,
            self.b_vault,
            self.a_vault_lp,
            self.b_vault_lp,
            self.a_vault_lp_mint,
            self.b_vault_lp_mint,
            self.amm_program,
            self.vault_program,
            self.token_program,
            self.system_program,
            self.event_authority,
            self.program,
        ]
    }

    /// Returns the accounts in the order of the instruction.
    pub fn to_array(&self) -> (r: [AccountView; 26])
        ensures
            r@ == self.spec_views(),
    {
        let r = [
            self.unstake,
            self.vault,
            self.top_staker_list,
            self.full_balance_list,
            self.stake_escrow,
            self.stake_token_vault,
            self.quote_token_vault,
            self.owner,
            self.pool,
            self.lp_mint,
            self.lock_escrow,
            self.escrow_vault,
            self.a_token_vault,
            self.b_token_vault,
            self.a_vault,
            self.b_vault,
            self.a_vault_lp,
            self.b_vault_lp,
            self.a_vault_lp_mint,
            self.b_vault_lp_mint,
            self.amm_program,
            self.vault_program,
            self.token_program,
            self.system_program,
            self.event_authority,
            self.program,
        ];
        assert(r@ =~= self.spec_views());
        r
    }

    /// Names the accounts of an array in the order of the instruction.
    pub fn from_array(accounts: &[AccountView; 26]) -> (r: RequestUnstakeAccounts)
        ensures
            r.spec_views() == accounts@,
    {
        let r = RequestUnstakeAccounts {
            unstake: accounts[0],
            vault: accounts[1],
            top_staker_list: accounts[2],
            full_balance_list: accounts[3],
            stake_escrow: accounts[4],
            stake_token_vault: accounts[5],
            quote_token_vault: accounts[6],
            owner: accounts[7],
            pool: accounts[8],
            lp_mint: accounts[9],
            lock_escrow: accounts[10],
            escrow_vault: accounts[11],
            a_token_vault: accounts[12],
            b_token_vault: accounts[13],
            a_vault: accounts[14],
            b_vault: accounts[15],
            a_vault_lp: accounts[16],
            b_vault_lp: accounts[17],
            a_vault_lp_mint: accounts[18],
            b_vault_lp_mint: accounts[19],
            amm_program: accounts[20],
            vault_program: accounts[21],
            token_program: accounts[22],
            system_program: accounts[23],
            event_authority: accounts[24],
            program: accounts[25],
        };
        assert(r.spec_views() =~= accounts@);
        r
    }
}

impl RequestUnstakeKeys {
    /// The addresses in the order of the instruction.
    pub open spec fn spec_pubkeys(self) -> Seq<Pubkey> {
        seq![
            self.unstake,
            self.vault,
            self.top_staker_list,
            self.full_balance_list,
            self.stake_escrow,
            self.stake_token_vault,
            self.quote_token_vault,
            self.owner,
            self.pool,
            self.lp_mint,
            self.lock_escrow,
            self.escrow_vault,
            self.a_token_vault,
            self.b_token_vault,
            self.a_vault,
            self.b_vault,
            self.a_vault_lp,
            self.b_vault_lp,
            self.a_vault_lp_mint,
            self.b_vault_lp_mint,
            self.amm_program,
            self.vault_program,
            self.token_program,
            self.system_program,
            self.event_authority,
            self.program,
        ]
    }

    /// The accounts as the instruction names them: each address with what the
    /// instruction may do with the account.
    pub open spec fn spec_metas(self) -> Seq<AccountMeta> {
        seq![
            AccountMeta { pubkey: self.unstake, is_signer: true, is_writable: true },
            AccountMeta { pubkey: self.vault, is_signer: false, is_writable: true },
            AccountMeta { pubkey: self.top_staker_list, is_signer: false, is_writable: true },
            AccountMeta { pubkey: self.full_balance_list, is_signer: false, is_writable: true },
            AccountMeta { pubkey: self.stake_escrow, is_signer: false, is_writable: true },
            AccountMeta { pubkey: self.stake_token_vault, is_signer: false, is_writable: true },
            AccountMeta { pubkey: self.quote_token_vault, is_signer: false, is_writable: true },
            AccountMeta { pubkey: self.owner, is_signer: true, is_writable: true },
            AccountMeta { pubkey: self.pool, is_signer: false, is_writable: true },
            AccountMeta { pubkey: self.lp_mint, is_signer: false, is_writable: true },
            AccountMeta { pubkey: self.lock_escrow, is_signer: false, is_writable: true },
            AccountMeta { pubkey: self.escrow_vault, is_signer: false, is_writable: true },
            AccountMeta { pubkey: self.a_token_vault, is_signer: false, is_writable: true },
            AccountMeta { pubkey: self.b_token_vault, is_signer: false, is_writable: true },
            AccountMeta { pubkey: self.a_vault, is_signer: false, is_writable: true },
            AccountMeta { pubkey: self.b_vault, is_signer: false, is_writable: true },
            AccountMeta { pubkey: self.a_vault_lp, is_signer: false, is_writable: true },
            AccountMeta { pubkey: self.b_vault_lp, is_signer: false, is_writable: true },
            AccountMeta { pubkey: self.a_vault_lp_mint, is_signer: false, is_writable: true },
            AccountMeta { pubkey: self.b_vault_lp_mint, is_signer: false, is_writable: true },
            AccountMeta { pubkey: self.amm_program, is_signer: false, is_writable: false },
            AccountMeta { pubkey: self.vault_program, is_signer: false, is_writable: false },
            AccountMeta { pubkey: self.token_program, is_signer: false, is_writable: false },
            AccountMeta { pubkey: self.system_program, is_signer: false, is_writable: false },
            AccountMeta { pubkey: self.event_authority, is_signer: false, is_writable: false },
            AccountMeta { pubkey: self.program, is_signer: false, is_writable: false },
        ]
    }

    /// Takes the addresses of the accounts handed in.
    pub fn from_accounts(accounts: &RequestUnstakeAccounts) -> (r: RequestUnstakeKeys)
        ensures
            r.spec_pubkeys() == keys_of(accounts.spec_views()),
    {
        let r = RequestUnstakeKeys {
            unstake: accounts.unstake.key,
            vault: accounts.vault.key,
            top_staker_list: accounts.top_staker_list.key,
            full_balance_list: accounts.full_balance_list.key,
            stake_escrow: accounts.stake_escrow.key,
            stake_token_vault: accounts.stake_token_vault.key,
            quote_token_vault: accounts.quote_token_vault.key,
            owner: accounts.owner.key,
            pool: accounts.pool.key,
            lp_mint: accounts.lp_mint.key,
            lock_escrow: accounts.lock_escrow.key,
            escrow_vault: accounts.escrow_vault.key,
            a_token_vault: accounts.a_token_vault.key,
            b_token_vault: accounts.b_token_vault.key,
            a_vault: accounts.a_vault.key,
            b_vault: accounts.b_vault.key,
            a_vault_lp: accounts.a_vault_lp.key,
            b_vault_lp: accounts.b_vault_lp.key,
            a_vault_lp_mint: accounts.a_vault_lp_mint.key,
            b_vault_lp_mint: accounts.b_vault_lp_mint.key,
            amm_program: accounts.amm_program.key,
            vault_program: accounts.vault_program.key,
            token_program: accounts.token_program.key,
            system_program: accounts.system_program.key,
            event_authority: accounts.event_authority.key,
            program: accounts.program.key,
        };
        assert(r.spec_pubkeys() =~= keys_of(accounts.spec_views()));
        r
    }

    /// Names the addresses of an array in the order of the instruction.
    pub fn from_pubkeys(pubkeys: &[Pubkey; 26]) -> (r: RequestUnstakeKeys)
        ensures
            r.spec_pubkeys() == pubkeys@,
    {
        let r = RequestUnstakeKeys {
            unstake: pubkeys[0],
            vault: pubkeys[1],
            top_staker_list: pubkeys[2],
            full_balance_list: pubkeys[3],
            stake_escrow: pubkeys[4],
            stake_token_vault: pubkeys[5],
            quote_token_vault: pubkeys[6],
            owner: pubkeys[7],
            pool: pubkeys[8],
            lp_mint: pubkeys[9],
            lock_escrow: pubkeys[10],
            escrow_vault: pubkeys[11],
            a_token_vault: pubkeys[12],
            b_token_vault: pubkeys[13],
            a_vault: pubkeys[14],
            b_vault: pubkeys[15],
            a_vault_lp: pubkeys[16],
            b_vault_lp: pubkeys[17],
            a_vault_lp_mint: pubkeys[18],
            b_vault_lp_mint: pubkeys[19],
            amm_program: pubkeys[20],
            vault_program: pubkeys[21],
            token_program: pubkeys[22],
            system_program: pubkeys[23],
            event_authority: pubkeys[24],
            program: pubkeys[25],
        };
        assert(r.spec_pubkeys() =~= pubkeys@);
        r
    }

    /// Returns the addresses in the order of the instruction.
    pub fn to_pubkeys(&self) -> (r: [Pubkey; 26])
        ensures
            r@ == self.spec_pubkeys(),
    {
        let r = [
            self.unstake,
            self.vault,
            self.top_staker_list,
            self.full_balance_list,
            self.stake_escrow,
            self.stake_token_vault,
            self.quote_token_vault,
            self.owner,
            self.pool,
            self.lp_mint,
            self.lock_escrow,
            self.escrow_vault,
            self.a_token_vault,
            self.b_token_vault,
            self.a_vault,
            self.b_vault,
            self.a_vault_lp,
            self.b_vault_lp,
            self.a_vault_lp_mint,
            self.b_vault_lp_mint,
            self.amm_program,
            self.vault_program,
            self.token_program,
            self.system_program,
            self.event_authority,
            self.program,
        ];
        assert(r@ =~= self.spec_pubkeys());
        r
    }

    /// Returns the accounts as the instruction names them.
    pub fn to_account_metas(&self) -> (r: [AccountMeta; 26])
        ensures
            r@ == self.spec_metas(),
    {
        let r = [
            AccountMeta { pubkey: self.unstake, is_signer: true, is_writable: true },
            AccountMeta { pubkey: self.vault, is_signer: false, is_writable: true },
            AccountMeta { pubkey: self.top_staker_list, is_signer: false, is_writable: true },
            AccountMeta { pubkey: self.full_balance_list, is_signer: false, is_writable: true },
            AccountMeta { pubkey: self.stake_escrow, is_signer: false, is_writable: true },
            AccountMeta { pubkey: self.stake_token_vault, is_signer: false, is_writable: true },
            AccountMeta { pubkey: self.quote_token_vault, is_signer: false, is_writable: true },
            AccountMeta { pubkey: self.owner, is_signer: true, is_writable: true },
            AccountMeta { pubkey: self.pool, is_signer: false, is_writable: true },
            AccountMeta { pubkey: self.lp_mint, is_signer: false, is_writable: true },
            AccountMeta { pubkey: self.lock_escrow, is_signer: false, is_writable: true },
            AccountMeta { pubkey: self.escrow_vault, is_signer: false, is_writable: true },
            AccountMeta { pubkey: self.a_token_vault, is_signer: false, is_writable: true },
            AccountMeta { pubkey: self.b_token_vault, is_signer: false, is_writable: true },
            AccountMeta { pubkey: self.a_vault, is_signer: false, is_writable: true },
            AccountMeta { pubkey: self.b_vault, is_signer: false, is_writable: true },
            AccountMeta { pubkey: self.a_vault_lp, is_signer: false, is_writable: true },
            AccountMeta { pubkey: self.b_vault_lp, is_signer: false, is_writable: true },
            AccountMeta { pubkey: self.a_vault_lp_mint, is_signer: false, is_writable: true },
            AccountMeta { pubkey: self.b_vault_lp_mint, is_signer: false, is_writable: true },
            AccountMeta { pubkey: self.amm_program, is_signer: false, is_writable: false },
            AccountMeta { pubkey: self.vault_program, is_signer: false, is_writable: false },
            AccountMeta { pubkey: self.token_program, is_signer: false, is_writable: false },
            AccountMeta { pubkey: self.system_program, is_signer: false, is_writable: false },
            AccountMeta { pubkey: self.event_authority, is_signer: false, is_writable: false },
            AccountMeta { pubkey: self.program, is_signer: false, is_writable: false },
        ];
        assert(r@ =~= self.spec_metas());
        r
    }
}

/// Builds the instruction for requesting an unstake, for the program at `program_id`.
pub fn request_unstake_ix_with_program_id(program_id: Pubkey, keys: RequestUnstakeKeys, args: RequestUnstakeIxArgs) -> (r: Result<
    Instruction,
    IxError,
>)
    ensures
        r is Ok,
        r->Ok_0.program_id == program_id,
        r->Ok_0.accounts@ == keys.spec_metas(),
        r->Ok_0.data@ == RequestUnstakeIxData(args).spec_bytes(),
{
    let metas = keys.to_account_metas();
    let data = RequestUnstakeIxData(args).try_to_vec()?;
    Ok(Instruction { program_id, accounts: metas_to_vec(&metas), data })
}

/// Builds the instruction for requesting an unstake, for this program.
pub fn request_unstake_ix(keys: RequestUnstakeKeys, args: RequestUnstakeIxArgs) -> (r: Result<Instruction, IxError>)
    ensures
        r is Ok,
        r->Ok_0.program_id@ == ID@,
        r->Ok_0.accounts@ == keys.spec_metas(),
        r->Ok_0.data@ == RequestUnstakeIxData(args).spec_bytes(),
{
    request_unstake_ix_with_program_id(Pubkey::new_from_array(ID), keys, args)
}

/// Checks that the accounts handed to the instruction for requesting an unstake are the
/// ones expected; reports the first that is not, with the address found and the
/// address expected.
pub fn request_unstake_verify_account_keys(accounts: &RequestUnstakeAccounts, keys: &RequestUnstakeKeys) -> (r: Result<
    (),
    (Pubkey, Pubkey),
>)
    ensures
        keys_verdict(keys_of(accounts.spec_views()), keys.spec_pubkeys(), r),
{
    let actual = accounts.to_array();
    let expected = keys.to_pubkeys();
    verify_keys(&actual, &expected)
}

impl RequestUnstakeAccounts {
    /// The accounts that the instruction writes, in the order in which they are
    /// checked.
    pub open spec fn spec_writable(self) -> Seq<AccountView> {
        seq![
            self.unstake,
            self.vault,
            self.top_staker_list,
            self.full_balance_list,
            self.stake_escrow,
            self.stake_token_vault,
            self.quote_token_vault,
            self.owner,
            self.pool,
            self.lp_mint,
            self.lock_escrow,
            self.escrow_vault,
            self.a_token_vault,
            self.b_token_vault,
            self.a_vault,
            self.b_vault,
            self.a_vault_lp,
            self.b_vault_lp,
            self.a_vault_lp_mint,
            self.b_vault_lp_mint,
        ]
    }

    /// The accounts that must have signed, in the order in which they are
    /// checked.
    pub open spec fn spec_signers(self) -> Seq<AccountView> {
        seq![
            self.unstake,
            self.owner,
        ]
    }
}

/// Checks that every account that the instruction for requesting an unstake writes may be
/// written; reports the first that may not.
pub fn request_unstake_verify_writable_privileges(accounts: &RequestUnstakeAccounts) -> (r: Result<
    (),
    (AccountView, PrivilegeError),
>)
    ensures
        privilege_verdict(
            writable_of(accounts.spec_writable()),
            accounts.spec_writable(),
            PrivilegeError::InvalidAccountData,
            r,
        ),
{
    let checked: [AccountView; 20] = [
        accounts.unstake,
        accounts.vault,
        accounts.top_staker_list,
        accounts.full_balance_list,
        accounts.stake_escrow,
        accounts.stake_token_vault,
        accounts.quote_token_vault,
        accounts.owner,
        accounts.pool,
        accounts.lp_mint,
        accounts.lock_escrow,
        accounts.escrow_vault,
        accounts.a_token_vault,
        accounts.b_token_vault,
        accounts.a_vault,
        accounts.b_vault,
        accounts.a_vault_lp,
        accounts.b_vault_lp,
        accounts.a_vault_lp_mint,
        accounts.b_vault_lp_mint,
    ];
    assert(checked@ =~= accounts.spec_writable());
    verify_writable(&checked)
}

/// Checks that every account that must sign the instruction for requesting an unstake has
/// signed; reports the first that has not.
pub fn request_unstake_verify_signer_privileges(accounts: &RequestUnstakeAccounts) -> (r: Result<
    (),
    (AccountView, PrivilegeError),
>)
    ensures
        privilege_verdict(
            signer_of(accounts.spec_signers()),
            accounts.spec_signers(),
            PrivilegeError::MissingRequiredSignature,
            r,
        ),
{
    let checked: [AccountView; 2] = [
        accounts.unstake,
        accounts.owner,
    ];
    assert(checked@ =~= accounts.spec_signers());
    verify_signer(&checked)
}

/// Checks the privileges of the accounts handed to the instruction for requesting an unstake:
/// first that those it writes may be written, then that those that must sign
/// have signed.
pub fn request_unstake_verify_account_privileges(accounts: &RequestUnstakeAccounts) -> (r: Result<
    (),
    (AccountView, PrivilegeError),
>)
    ensures
        r is Ok ==> privilege_verdict(
            writable_of(accounts.spec_writable()),
            accounts.spec_writable(),
            PrivilegeError::InvalidAccountData,
            r,
        ) && privilege_verdict(
            signer_of(accounts.spec_signers()),
            accounts.spec_signers(),
            PrivilegeError::MissingRequiredSignature,
            r,
        ),
        r is Err && r->Err_0.1 == PrivilegeError::InvalidAccountData ==> privilege_verdict(
            writable_of(accounts.spec_writable()),
            accounts.spec_writable(),
            PrivilegeError::InvalidAccountData,
            r,
        ),
        r is Err && r->Err_0.1 == PrivilegeError::MissingRequiredSignature ==> privilege_verdict(
            signer_of(accounts.spec_signers()),
            accounts.spec_signers(),
            PrivilegeError::MissingRequiredSignature,
            r,
        ) && privilege_verdict(
            writable_of(accounts.spec_writable()),
            accounts.spec_writable(),
            PrivilegeError::InvalidAccountData,
            Ok(()),
        ),
{
    request_unstake_verify_writable_privileges(accounts)?;
    request_unstake_verify_signer_privileges(accounts)?;
    Ok(())
}

/// Number of accounts of the instruction for cancelling an unstake.
pub const CANCEL_UNSTAKE_IX_ACCOUNTS_LEN: usize = 26;

/// The accounts handed to the instruction for cancelling an unstake.
#[derive(Clone, Copy, Debug, PartialEq, Eq)]
pub struct CancelUnstakeAccounts {
    pub unstake: AccountView,
    pub stake_escrow: AccountView,
    pub smallest_stake_escrow: AccountView,
    pub top_staker_list: AccountView,
    pub full_balance_list: AccountView,
    pub vault: AccountView,
    pub stake_token_vault: AccountView,
    pub quote_token_vault: AccountView,
    pub owner: AccountView,
    pub pool: AccountView,
    pub lp_mint: AccountView,
    pub lock_escrow: AccountView,
    pub escrow_vault: AccountView,
    pub a_token_vault: AccountView,
    pub b_token_vault: AccountView,
    pub a_vault: AccountView,
    pub b_vault: AccountView,
    pub a_vault_lp: AccountView,
    pub b_vault_lp: AccountView,
    pub a_vault_lp_mint: AccountView,
    pub b_vault_lp_mint: AccountView,
    pub amm_program: AccountView,
    pub vault_program: AccountView,
    pub token_program: AccountView,
    pub event_authority: AccountView,
    pub program: AccountView,
}

/// The addresses of the accounts of the instruction for cancelling an unstake.
#[derive(Clone, Copy, Debug, PartialEq, Eq)]
pub struct CancelUnstakeKeys {
    pub unstake: Pubkey,
    pub stake_escrow: Pubkey,
    pub smallest_stake_escrow: Pubkey,
    pub top_staker_list: Pubkey,
    pub full_balance_list: Pubkey,
    pub vault: Pubkey,
    pub stake_token_vault: Pubkey,
    pub quote_token_vault: Pubkey,
    pub owner: Pubkey,
    pub pool: Pubkey,
    pub lp_mint: Pubkey,
    pub lock_escrow: Pubkey,
    pub escrow_vault: Pubkey,
    pub a_token_vault: Pubkey,
    pub b_token_vault: Pubkey,
    pub a_vault: Pubkey,
    pub b_vault: Pubkey,
    pub a_vault_lp: Pubkey,
    pub b_vault_lp: Pubkey,
    pub a_vault_lp_mint: Pubkey,
    pub b_vault_lp_mint: Pubkey,
    pub amm_program: Pubkey,
    pub vault_program: Pubkey,
    pub token_program: Pubkey,
    pub event_authority: Pubkey,
    pub program: Pubkey,
}

impl CancelUnstakeAccounts {
    /// The accounts in the order of the instruction.
    pub open spec fn spec_views(self) -> Seq<AccountView> {
        seq![
            self.unstake,
            self.stake_escrow,
            self.smallest_stake_escrow,
            self.top_staker_list,
            self.full_balance_list,
            self.vault,
            self.stake_token_vault,
            self.quote_token_vault,
            self.owner,
            self.pool,
            self.lp_mint,
            self.lock_escrow,
            self.escrow_vault,
            self.a_token_vault,
            self.b_token_vault,
            self.a_vault,
            self.b_vault,
            self.a_vault_lp,
            self.b_vault_lp,
            self.a_vault_lp_mint,
            self.b_vault_lp_mint,
            self.amm_program,
            self.vault_program,
            self.token_program,
            self.event_authority,
            self.program,
        ]
    }

    /// Returns the accounts in the order of the instruction.
    pub fn to_array(&self) -> (r: [AccountView; 26])
        ensures
            r@ == self.spec_views(),
    {
        let r = [
            self.unstake,
            self.stake_escrow,
            self.smallest_stake_escrow,
            self.top_staker_list,
            self.full_balance_list,
            self.vault,
            self.stake_token_vault,
            self.quote_token_vault,
            self.owner,
            self.pool,
            self.lp_mint,
            self.lock_escrow,
            self.escrow_vault,
            self.a_token_vault,
            self.b_token_vault,
            self.a_vault,
            self.b_vault,
            self.a_vault_lp,
            self.b_vault_lp,
            self.a_vault_lp_mint,
            self.b_vault_lp_mint,
            self.amm_program,
            self.vault_program,
            self.token_program,
            self.event_authority,
            self.program,
        ];
        assert(r@ =~= self.spec_views());
        r
    }

    /// Names the accounts of an array in the order of the instruction.
    pub fn from_array(accounts: &[AccountView; 26]) -> (r: CancelUnstakeAccounts)
        ensures
            r.spec_views() == accounts@,
    {
        let r = CancelUnstakeAccounts {
            unstake: accounts[0],
            stake_escrow: accounts[1],
            smallest_stake_escrow: accounts[2],
            top_staker_list: accounts[3],
            full_balance_list: accounts[4],
            vault: accounts[5],
            stake_token_vault: accounts[6],
            quote_token_vault: accounts[7],
            owner: accounts[8],
            pool: accounts[9],
            lp_mint: accounts[10],
            lock_escrow: accounts[11],
            escrow_vault: accounts[12],
            a_token_vault: accounts[13],
            b_token_vault: accounts[14],
            a_vault: accounts[15],
            b_vault: accounts[16],
            a_vault_lp: accounts[17],
            b_vault_lp: accounts[18],
            a_vault_lp_mint: accounts[19],
            b_vault_lp_mint: accounts[20],
            amm_program: accounts[21],
            vault_program: accounts[22],
            token_program: accounts[23],
            event_authority: accounts[24],
            program: accounts[25],
        };
        assert(r.spec_views() =~= accounts@);
        r
    }
}

impl CancelUnstakeKeys {
    /// The addresses in the order of the instruction.
    pub open spec fn spec_pubkeys(self) -> Seq<Pubkey> {
        seq![
            self.unstake,
            self.stake_escrow,
            self.smallest_stake_escrow,
            self.top_staker_list,
            self.full_balance_list,
            self.vault,
            self.stake_token_vault,
            self.quote_token_vault,
            self.owner,
            self.pool,
            self.lp_mint,
            self.lock_escrow,
            self.escrow_vault,
            self.a_token_vault,
            self.b_token_vault,
            self.a_vault,
            self.b_vault,
            self.a_vault_lp,
            self.b_vault_lp,
            self.a_vault_lp_mint,
            self.b_vault_lp_mint,
            self.amm_program,
            self.vault_program,
            self.token_program,
            self.event_authority,
            self.program,
        ]
    }

    /// The accounts as the instruction names them: each address with what the
    /// instruction may do with the account.
    pub open spec fn spec_metas(self) -> Seq<AccountMeta> {
        seq![
            AccountMeta { pubkey: self.unstake, is_signer: false, is_writable: true },
            AccountMeta { pubkey: self.stake_escrow, is_signer: false, is_writable: true },
            AccountMeta { pubkey: self.smallest_stake_escrow, is_signer: false, is_writable: true },
            AccountMeta { pubkey: self.top_staker_list, is_signer: false, is_writable: true },
            AccountMeta { pubkey: self.full_balance_list, is_signer: false, is_writable: true },
            AccountMeta { pubkey: self.vault, is_signer: false, is_writable: true },
            AccountMeta { pubkey: self.stake_token_vault, is_signer: false, is_writable: true },
            AccountMeta { pubkey: self.quote_token_vault, is_signer: false, is_writable: true },
            AccountMeta { pubkey: self.owner, is_signer: true, is_writable: true },
            AccountMeta { pubkey: self.pool, is_signer: false, is_writable: true },
            AccountMeta { pubkey: self.lp_mint, is_signer: false, is_writable: true },
            AccountMeta { pubkey: self.lock_escrow, is_signer: false, is_writable: true },
            AccountMeta { pubkey: self.escrow_vault, is_signer: false, is_writable: true },
            AccountMeta { pubkey: self.a_token_vault, is_signer: false, is_writable: true },
            AccountMeta { pubkey: self.b_token_vault, is_signer: false, is_writable: true },
            AccountMeta { pubkey: self.a_vault, is_signer: false, is_writable: true },
            AccountMeta { pubkey: self.b_vault, is_signer: false, is_writable: true },
            AccountMeta { pubkey: self.a_vault_lp, is_signer: false, is_writable: true },
            AccountMeta { pubkey: self.b_vault_lp, is_signer: false, is_writable: true },
            AccountMeta { pubkey: self.a_vault_lp_mint, is_signer: false, is_writable: true },
            AccountMeta { pubkey: self.b_vault_lp_mint, is_signer: false, is_writable: true },
            AccountMeta { pubkey: self.amm_program, is_signer: false, is_writable: false },
            AccountMeta { pubkey: self.vault_program, is_signer: false, is_writable: false },
            AccountMeta { pubkey: self.token_program, is_signer: false, is_writable: false },
            AccountMeta { pubkey: self.event_authority, is_signer: false, is_writable: false },
            AccountMeta { pubkey: self.program, is_signer: false, is_writable: false },
        ]
    }

    /// Takes the addresses of the accounts handed in.
    pub fn from_accounts(accounts: &CancelUnstakeAccounts) -> (r: CancelUnstakeKeys)
        ensures
            r.spec_pubkeys() == keys_of(accounts.spec_views()),
    {
        let r = CancelUnstakeKeys {
            unstake: accounts.unstake.key,
            stake_escrow: accounts.stake_escrow.key,
            smallest_stake_escrow: accounts.smallest_stake_escrow.key,
            top_staker_list: accounts.top_staker_list.key,
            full_balance_list: accounts.full_balance_list.key,
            vault: accounts.vault.key,
            stake_token_vault: accounts.stake_token_vault.key,
            quote_token_vault: accounts.quote_token_vault.key,
            owner: accounts.owner.key,
            pool: accounts.pool.key,
            lp_mint: accounts.lp_mint.key,
            lock_escrow: accounts.lock_escrow.key,
            escrow_vault: accounts.escrow_vault.key,
            a_token_vault: accounts.a_token_vault.key,
            b_token_vault: accounts.b_token_vault.key,
            a_vault: accounts.a_vault.key,
            b_vault: accounts.b_vault.key,
            a_vault_lp: accounts.a_vault_lp.key,
            b_vault_lp: accounts.b_vault_lp.key,
            a_vault_lp_mint: accounts.a_vault_lp_mint.key,
            b_vault_lp_mint: accounts.b_vault_lp_mint.key,
            amm_program: accounts.amm_program.key,
            vault_program: accounts.vault_program.key,
            token_program: accounts.token_program.key,
            event_authority: accounts.event_authority.key,
            program: accounts.program.key,
        };
        assert(r.spec_pubkeys() =~= keys_of(accounts.spec_views()));
        r
    }

    /// Names the addresses of an array in the order of the instruction.
    pub fn from_pubkeys(pubkeys: &[Pubkey; 26]) -> (r: CancelUnstakeKeys)
        ensures
            r.spec_pubkeys() == pubkeys@,
    {
        let r = CancelUnstakeKeys {
            unstake: pubkeys[0],
            stake_escrow: pubkeys[1],
            smallest_stake_escrow: pubkeys[2],
            top_staker_list: pubkeys[3],
            full_balance_list: pubkeys[4],
            vault: pubkeys[5],
            stake_token_vault: pubkeys[6],
            quote_token_vault: pubkeys[7],
            owner: pubkeys[8],
            pool: pubkeys[9],
            lp_mint: pubkeys[10],
            lock_escrow: pubkeys[11],
            escrow_vault: pubkeys[12],
            a_token_vault: pubkeys[13],
            b_token_vault: pubkeys[14],
            a_vault: pubkeys[15],
            b_vault: pubkeys[16],
            a_vault_lp: pubkeys[17],
            b_vault_lp: pubkeys[18],
            a_vault_lp_mint: pubkeys[19],
            b_vault_lp_mint: pubkeys[20],
            amm_program: pubkeys[21],
            vault_program: pubkeys[22],
            token_program: pubkeys[23],
            event_authority: pubkeys[24],
            program: pubkeys[25],
        };
        assert(r.spec_pubkeys() =~= pubkeys@);
        r
    }

    /// Returns the addresses in the order of the instruction.
    pub fn to_pubkeys(&self) -> (r: [Pubkey; 26])
        ensures
            r@ == self.spec_pubkeys(),
    {
        let r = [
            self.unstake,
            self.stake_escrow,
            self.smallest_stake_escrow,
            self.top_staker_list,
            self.full_balance_list,
            self.vault,
            self.stake_token_vault,
            self.quote_token_vault,
            self.owner,
            self.pool,
            self.lp_mint,
            self.lock_escrow,
            self.escrow_vault,
            self.a_token_vault,
            self.b_token_vault,
            self.a_vault,
            self.b_vault,
            self.a_vault_lp,
            self.b_vault_lp,
            self.a_vault_lp_mint,
            self.b_vault_lp_mint,
            self.amm_program,
            self.vault_program,
            self.token_program,
            self.event_authority,
            self.program,
        ];
        assert(r@ =~= self.spec_pubkeys());
        r
    }

    /// Returns the accounts as the instruction names them.
    pub fn to_account_metas(&self) -> (r: [AccountMeta; 26])
        ensures
            r@ == self.spec_metas(),
    {
        let r = [
            AccountMeta { pubkey: self.unstake, is_signer: false, is_writable: true },
            AccountMeta { pubkey: self.stake_escrow, is_signer: false, is_writable: true },
            AccountMeta { pubkey: self.smallest_stake_escrow, is_signer: false, is_writable: true },
            AccountMeta { pubkey: self.top_staker_list, is_signer: false, is_writable: true },
            AccountMeta { pubkey: self.full_balance_list, is_signer: false, is_writable: true },
            AccountMeta { pubkey: self.vault, is_signer: false, is_writable: true },
            AccountMeta { pubkey: self.stake_token_vault, is_signer: false, is_writable: true },
            AccountMeta { pubkey: self.quote_token_vault, is_signer: false, is_writable: true },
            AccountMeta { pubkey: self.owner, is_signer: true, is_writable: true },
            AccountMeta { pubkey: self.pool, is_signer: false, is_writable: true },
            AccountMeta { pubkey: self.lp_mint, is_signer: false, is_writable: true },
            AccountMeta { pubkey: self.lock_escrow, is_signer: false, is_writable: true },
            AccountMeta { pubkey: self.escrow_vault, is_signer: false, is_writable: true },
            AccountMeta { pubkey: self.a_token_vault, is_signer: false, is_writable: true },
            AccountMeta { pubkey: self.b_token_vault, is_signer: false, is_writable: true },
            AccountMeta { pubkey: self.a_vault, is_signer: false, is_writable: true },
            AccountMeta { pubkey: self.b_vault, is_signer: false, is_writable: true },
            AccountMeta { pubkey: self.a_vault_lp, is_signer: false, is_writable: true },
            AccountMeta { pubkey: self.b_vault_lp, is_signer: false, is_writable: true },
            AccountMeta { pubkey: self.a_vault_lp_mint, is_signer: false, is_writable: true },
            AccountMeta { pubkey: self.b_vault_lp_mint, is_signer: false, is_writable: true },
            AccountMeta { pubkey: self.amm_program, is_signer: false, is_writable: false },
            AccountMeta { pubkey: self.vault_program, is_signer: false, is_writable: false },
            AccountMeta { pubkey: self.token_program, is_signer: false, is_writable: false },
            AccountMeta { pubkey: self.event_authority, is_signer: false, is_writable: false },
            AccountMeta { pubkey: self.program, is_signer: false, is_writable: false },
        ];
        assert(r@ =~= self.spec_metas());
        r
    }
}

/// Builds the instruction for cancelling an unstake, for the program at `program_id`.
pub fn cancel_unstake_ix_with_program_id(program_id: Pubkey, keys: CancelUnstakeKeys) -> (r: Result<
    Instruction,
    IxError,
>)
    ensures
        r is Ok,
        r->Ok_0.program_id == program_id,
        r->Ok_0.accounts@ == keys.spec_metas(),
        r->Ok_0.data@ == CancelUnstakeIxData.spec_bytes(),
{
    let metas = keys.to_account_metas();
    let data = CancelUnstakeIxData.try_to_vec()?;
    Ok(Instruction { program_id, accounts: metas_to_vec(&metas), data })
}

/// Builds the instruction for cancelling an unstake, for this program.
pub fn cancel_unstake_ix(keys: CancelUnstakeKeys) -> (r: Result<Instruction, IxError>)
    ensures
        r is Ok,
        r->Ok_0.program_id@ == ID@,
        r->Ok_0.accounts@ == keys.spec_metas(),
        r->Ok_0.data@ == CancelUnstakeIxData.spec_bytes(),
{
    cancel_unstake_ix_with_program_id(Pubkey::new_from_array(ID), keys)
}

/// Checks that the accounts handed to the instruction for cancelling an unstake are the
/// ones expected; reports the first that is not, with the address found and the
/// address expected.
pub fn cancel_unstake_verify_account_keys(accounts: &CancelUnstakeAccounts, keys: &CancelUnstakeKeys) -> (r: Result<
    (),
    (Pubkey, Pubkey),
>)
    ensures
        keys_verdict(keys_of(accounts.spec_views()), keys.spec_pubkeys(), r),
{
    let actual = accounts.to_array();
    let expected = keys.to_pubkeys();
    verify_keys(&actual, &expected)
}

impl CancelUnstakeAccounts {
    /// The accounts that the instruction writes, in the order in which they are
    /// checked.
    pub open spec fn spec_writable(self) -> Seq<AccountView> {
        seq![
            self.unstake,
            self.stake_escrow,
            self.smallest_stake_escrow,
            self.top_staker_list,
            self.full_balance_list,
            self.vault,
            self.stake_token_vault,
            self.quote_token_vault,
            self.owner,
            self.pool,
            self.lp_mint,
            self.lock_escrow,
            self.escrow_vault,
            self.a_token_vault,
            self.b_token_vault,
            self.a_vault,
            self.b_vault,
            self.a_vault_lp,
            self.b_vault_lp,
            self.a_vault_lp_mint,
            self.b_vault_lp_mint,
        ]
    }

    /// The accounts that must have signed, in the order in which they are
    /// checked.
    pub open spec fn spec_signers(self) -> Seq<AccountView> {
        seq![
            self.owner,
        ]
    }
}

/// Checks that every account that the instruction for cancelling an unstake writes may be
/// written; reports the first that may not.
pub fn cancel_unstake_verify_writable_privileges(accounts: &CancelUnstakeAccounts) -> (r: Result<
    (),
    (AccountView, PrivilegeError),
>)
    ensures
        privilege_verdict(
            writable_of(accounts.spec_writable()),
            accounts.spec_writable(),
            PrivilegeError::InvalidAccountData,
            r,
        ),
{
    let checked: [AccountView; 21] = [
        accounts.unstake,
        accounts.stake_escrow,
        accounts.smallest_stake_escrow,
        accounts.top_staker_list,
        accounts.full_balance_list,
        accounts.vault,
        accounts.stake_token_vault,
        accounts.quote_token_vault,
        accounts.owner,
        accounts.pool,
        accounts.lp_mint,
        accounts.lock_escrow,
        accounts.escrow_vault,
        accounts.a_token_vault,
        accounts.b_token_vault,
        accounts.a_vault,
        accounts.b_vault,
        accounts.a_vault_lp,
        accounts.b_vault_lp,
        accounts.a_vault_lp_mint,
        accounts.b_vault_lp_mint,
    ];
    assert(checked@ =~= accounts.spec_writable());
    verify_writable(&checked)
}

/// Checks that every account that must sign the instruction for cancelling an unstake has
/// signed; reports the first that has not.
pub fn cancel_unstake_verify_signer_privileges(accounts: &CancelUnstakeAccounts) -> (r: Result<
    (),
    (AccountView, PrivilegeError),
>)
    ensures
        privilege_verdict(
            signer_of(accounts.spec_signers()),
            accounts.spec_signers(),
            PrivilegeError::MissingRequiredSignature,
            r,
        ),
{
    let checked: [AccountView; 1] = [
        accounts.owner,
    ];
    assert(checked@ =~= accounts.spec_signers());
    verify_signer(&checked)
}

/// Checks the privileges of the accounts handed to the instruction for cancelling an unstake:
/// first that those it writes may be written, then that those that must sign
/// have signed.
pub fn cancel_unstake_verify_account_privileges(accounts: &CancelUnstakeAccounts) -> (r: Result<
    (),
    (AccountView, PrivilegeError),
>)
    ensures
        r is Ok ==> privilege_verdict(
            writable_of(accounts.spec_writable()),
            accounts.spec_writable(),
            PrivilegeError::InvalidAccountData,
            r,
        ) && privilege_verdict(
            signer_of(accounts.spec_signers()),
            accounts.spec_signers(),
            PrivilegeError::MissingRequiredSignature,
            r,
        ),
        r is Err && r->Err_0.1 == PrivilegeError::InvalidAccountData ==> privilege_verdict(
            writable_of(accounts.spec_writable()),
            accounts.spec_writable(),
            PrivilegeError::InvalidAccountData,
            r,
        ),
        r is Err && r->Err_0.1 == PrivilegeError::MissingRequiredSignature ==> privilege_verdict(
            signer_of(accounts.spec_signers()),
            accounts.spec_signers(),
            PrivilegeError::MissingRequiredSignature,
            r,
        ) && privilege_verdict(
            writable_of(accounts.spec_writable()),
            accounts.spec_writable(),
            PrivilegeError::InvalidAccountData,
            Ok(()),
        ),
{
    cancel_unstake_verify_writable_privileges(accounts)?;
    cancel_unstake_verify_signer_privileges(accounts)?;
    Ok(())
}

/// Number of accounts of the instruction for withdrawing an unstaked amount.
pub const WITHDRAW_IX_ACCOUNTS_LEN: usize = 9;

/// The accounts handed to the instruction for withdrawing an unstaked amount.
#[derive(Clone, Copy, Debug, PartialEq, Eq)]
pub struct WithdrawAccounts {
    pub unstake: AccountView,
    pub stake_escrow: AccountView,
    pub stake_token_vault: AccountView,
    pub vault: AccountView,
    pub user_stake_token: AccountView,
    pub owner: AccountView,
    pub token_program: AccountView,
    pub event_authority: AccountView,
    pub program: AccountView,
}

/// The addresses of the accounts of the instruction for withdrawing an unstaked amount.
#[derive(Clone, Copy, Debug, PartialEq, Eq)]
pub struct WithdrawKeys {
    pub unstake: Pubkey,
    pub stake_escrow: Pubkey,
    pub stake_token_vault: Pubkey,
    pub vault: Pubkey,
    pub user_stake_token: Pubkey,
    pub owner: Pubkey,
    pub token_program: Pubkey,
    pub event_authority: Pubkey,
    pub program: Pubkey,
}

impl WithdrawAccounts {
    /// The accounts in the order of the instruction.
    pub open spec fn spec_views(self) -> Seq<AccountView> {
        seq![
            self.unstake,
            self.stake_escrow,
            self.stake_token_vault,
            self.vault,
            self.user_stake_token,
            self.owner,
            self.token_program,
            self.event_authority,
            self.program,
        ]
    }

    /// Returns the accounts in the order of the instruction.
    pub fn to_array(&self) -> (r: [AccountView; 9])
        ensures
            r@ == self.spec_views(),
    {
        let r = [
            self.unstake,
            self.stake_escrow,
            self.stake_token_vault,
            self.vault,
            self.user_stake_token,
            self.owner,
            self.token_program,
            self.event_authority,
            self.program,
        ];
        assert(r@ =~= self.spec_views());
        r
    }

    /// Names the accounts of an array in the order of the instruction.
    pub fn from_array(accounts: &[AccountView; 9]) -> (r: WithdrawAccounts)
        ensures
            r.spec_views() == accounts@,
    {
        let r = WithdrawAccounts {
            unstake: accounts[0],
            stake_escrow: accounts[1],
            stake_token_vault: accounts[2],
            vault: accounts[3],
            user_stake_token: accounts[4],
            owner: accounts[5],
            token_program: accounts[6],
            event_authority: accounts[7],
            program: accounts[8],
        };
        assert(r.spec_views() =~= accounts@);
        r
    }
}

impl WithdrawKeys {
    /// The addresses in the order of the instruction.
    pub open spec fn spec_pubkeys(self) -> Seq<Pubkey> {
        seq![
            self.unstake,
            self.stake_escrow,
            self.stake_token_vault,
            self.vault,
            self.user_stake_token,
            self.owner,
            self.token_program,
            self.event_authority,
            self.program,
        ]
    }

    /// The accounts as the instruction names them: each address with what the
    /// instruction may do with the account.
    pub open spec fn spec_metas(self) -> Seq<AccountMeta> {
        seq![
            AccountMeta { pubkey: self.unstake, is_signer: false, is_writable: true },
            AccountMeta { pubkey: self.stake_escrow, is_signer: false, is_writable: true },
            AccountMeta { pubkey: self.stake_token_vault, is_signer: false, is_writable: true },
            AccountMeta { pubkey: self.vault, is_signer: false, is_writable: true },
            AccountMeta { pubkey: self.user_stake_token, is_signer: false, is_writable: true },
            AccountMeta { pubkey: self.owner, is_signer: true, is_writable: true },
            AccountMeta { pubkey: self.token_program, is_signer: false, is_writable: false },
            AccountMeta { pubkey: self.event_authority, is_signer: false, is_writable: false },
            AccountMeta { pubkey: self.program, is_signer: false, is_writable: false },
        ]
    }

    /// Takes the addresses of the accounts handed in.
    pub fn from_accounts(accounts: &WithdrawAccounts) -> (r: WithdrawKeys)
        ensures
            r.spec_pubkeys() == keys_of(accounts.spec_views()),
    {
        let r = WithdrawKeys {
            unstake: accounts.unstake.key,
            stake_escrow: accounts.stake_escrow.key,
            stake_token_vault: accounts.stake_token_vault.key,
            vault: accounts.vault.key,
            user_stake_token: accounts.user_stake_token.key,
            owner: accounts.owner.key,
            token_program: accounts.token_program.key,
            event_authority: accounts.event_authority.key,
            program: accounts.program.key,
        };
        assert(r.spec_pubkeys() =~= keys_of(accounts.spec_views()));
        r
    }

    /// Names the addresses of an array in the order of the instruction.
    pub fn from_pubkeys(pubkeys: &[Pubkey; 9]) -> (r: WithdrawKeys)
        ensures
            r.spec_pubkeys() == pubkeys@,
    {
        let r = WithdrawKeys {
            unstake: pubkeys[0],
            stake_escrow: pubkeys[1],
            stake_token_vault: pubkeys[2],
            vault: pubkeys[3],
            user_stake_token: pubkeys[4],
            owner: pubkeys[5],
            token_program: pubkeys[6],
            event_authority: pubkeys[7],
            program: pubkeys[8],
        };
        assert(r.spec_pubkeys() =~= pubkeys@);
        r
    }

    /// Returns the addresses in the order of the instruction.
    pub fn to_pubkeys(&self) -> (r: [Pubkey; 9])
        ensures
            r@ == self.spec_pubkeys(),
    {
        let r = [
            self.unstake,
            self.stake_escrow,
            self.stake_token_vault,
            self.vault,
            self.user_stake_token,
            self.owner,
            self.token_program,
            self.event_authority,
            self.program,
        ];
        assert(r@ =~= self.spec_pubkeys());
        r
    }

    /// Returns the accounts as the instruction names them.
    pub fn to_account_metas(&self) -> (r: [AccountMeta; 9])
        ensures
            r@ == self.spec_metas(),
    {
        let r = [
            AccountMeta { pubkey: self.unstake, is_signer: false, is_writable: true },
            AccountMeta { pubkey: self.stake_escrow, is_signer: false, is_writable: true },
            AccountMeta { pubkey: self.stake_token_vault, is_signer: false, is_writable: true },
            AccountMeta { pubkey: self.vault, is_signer: false, is_writable: true },
            AccountMeta { pubkey: self.user_stake_token, is_signer: false, is_writable: true },
            AccountMeta { pubkey: self.owner, is_signer: true, is_writable: true },
            AccountMeta { pubkey: self.token_program, is_signer: false, is_writable: false },
            AccountMeta { pubkey: self.event_authority, is_signer: false, is_writable: false },
            AccountMeta { pubkey: self.program, is_signer: false, is_writable: false },
        ];
        assert(r@ =~= self.spec_metas());
        r
    }
}

/// Builds the instruction for withdrawing an unstaked amount, for the program at `program_id`.
pub fn withdraw_ix_with_program_id(program_id: Pubkey, keys: WithdrawKeys) -> (r: Result<
    Instruction,
    IxError,
>)
    ensures
        r is Ok,
        r->Ok_0.program_id == program_id,
        r->Ok_0.accounts@ == keys.spec_metas(),
        r->Ok_0.data@ == WithdrawIxData.spec_bytes(),
{
    let metas = keys.to_account_metas();
    let data = WithdrawIxData.try_to_vec()?;
    Ok(Instruction { program_id, accounts: metas_to_vec(&metas), data })
}

/// Builds the instruction for withdrawing an unstaked amount, for this program.
pub fn withdraw_ix(keys: WithdrawKeys) -> (r: Result<Instruction, IxError>)
    ensures
        r is Ok,
        r->Ok_0.program_id@ == ID@,
        r->Ok_0.accounts@ == keys.spec_metas(),
        r->Ok_0.data@ == WithdrawIxData.spec_bytes(),
{
    withdraw_ix_with_program_id(Pubkey::new_from_array(ID), keys)
}

/// Checks that the accounts handed to the instruction for withdrawing an unstaked amount are the
/// ones expected; reports the first that is not, with the address found and the
/// address expected.
pub fn withdraw_verify_account_keys(accounts: &WithdrawAccounts, keys: &WithdrawKeys) -> (r: Result<
    (),
    (Pubkey, Pubkey),
>)
    ensures
        keys_verdict(keys_of(accounts.spec_views()), keys.spec_pubkeys(), r),
{
    let actual = accounts.to_array();
    let expected = keys.to_pubkeys();
    verify_keys(&actual, &expected)
}

impl WithdrawAccounts {
    /// The accounts that the instruction writes, in the order in which they are
    /// checked.
    pub open spec fn spec_writable(self) -> Seq<AccountView> {
        seq![
            self.unstake,
            self.stake_escrow,
            self.stake_token_vault,
            self.vault,
            self.user_stake_token,
            self.owner,
        ]
    }

    /// The accounts that must have signed, in the order in which they are
    /// checked.
    pub open spec fn spec_signers(self) -> Seq<AccountView> {
        seq![
            self.owner,
        ]
    }
}

/// Checks that every account that the instruction for withdrawing an unstaked amount writes may be
/// written; reports the first that may not.
pub fn withdraw_verify_writable_privileges(accounts: &WithdrawAccounts) -> (r: Result<
    (),
    (AccountView, PrivilegeError),
>)
    ensures
        privilege_verdict(
            writable_of(accounts.spec_writable()),
            accounts.spec_writable(),
            PrivilegeError::InvalidAccountData,
            r,
        ),
{
    let checked: [AccountView; 6] = [
        accounts.unstake,
        accounts.stake_escrow,
        accounts.stake_token_vault,
        accounts.vault,
        accounts.user_stake_token,
        accounts.owner,
    ];
    assert(checked@ =~= accounts.spec_writable());
    verify_writable(&checked)
}

/// Checks that every account that must sign the instruction for withdrawing an unstaked amount has
/// signed; reports the first that has not.
pub fn withdraw_verify_signer_privileges(accounts: &WithdrawAccounts) -> (r: Result<
    (),
    (AccountView, PrivilegeError),
>)
    ensures
        privilege_verdict(
            signer_of(accounts.spec_signers()),
            accounts.spec_signers(),
            PrivilegeError::MissingRequiredSignature,
            r,
        ),
{
    let checked: [AccountView; 1] = [
        accounts.owner,
    ];
    assert(checked@ =~= accounts.spec_signers());
    verify_signer(&checked)
}

/// Checks the privileges of the accounts handed to the instruction for withdrawing an unstaked amount:
/// first that those it writes may be written, then that those that must sign
/// have signed.
pub fn withdraw_verify_account_privileges(accounts: &WithdrawAccounts) -> (r: Result<
    (),
    (AccountView, PrivilegeError),
>)
    ensures
        r is Ok ==> privilege_verdict(
            writable_of(accounts.spec_writable()),
            accounts.spec_writable(),
            PrivilegeError::InvalidAccountData,
            r,
        ) && privilege_verdict(
            signer_of(accounts.spec_signers()),
            accounts.spec_signers(),
            PrivilegeError::MissingRequiredSignature,
            r,
        ),
        r is Err && r->Err_0.1 == PrivilegeError::InvalidAccountData ==> privilege_verdict(
            writable_of(accounts.spec_writable()),
            accounts.spec_writable(),
            PrivilegeError::InvalidAccountData,
            r,
        ),
        r is Err && r->Err_0.1 == PrivilegeError::MissingRequiredSignature ==> privilege_verdict(
            signer_of(accounts.spec_signers()),
            accounts.spec_signers(),
            PrivilegeError::MissingRequiredSignature,
            r,
        ) && privilege_verdict(
            writable_of(accounts.spec_writable()),
            accounts.spec_writable(),
            PrivilegeError::InvalidAccountData,
            Ok(()),
        ),
{
    withdraw_verify_writable_privileges(accounts)?;
    withdraw_verify_signer_privileges(accounts)?;
    Ok(())
}

/// Number of accounts of the instruction for cranking the fee release.
pub const CLAIM_FEE_CRANK_IX_ACCOUNTS_LEN: usize = 20;

/// The accounts handed to the instruction for cranking the fee release.
#[derive(Clone, Copy, Debug, PartialEq, Eq)]
pub struct ClaimFeeCrankAccounts {
    pub vault: AccountView,
    pub stake_token_vault: AccountView,
    pub quote_token_vault: AccountView,
    pub pool: AccountView,
    pub lp_mint: AccountView,
    pub lock_escrow: AccountView,
    pub escrow_vault: AccountView,
    pub a_token_vault: AccountView,
    pub b_token_vault: AccountView,
    pub a_vault: AccountView,
    pub b_vault: AccountView,
    pub a_vault_lp: AccountView,
    pub b_vault_lp: AccountView,
    pub a_vault_lp_mint: AccountView,
    pub b_vault_lp_mint: AccountView,
    pub amm_program: AccountView,
    pub vault_program: AccountView,
    pub token_program: AccountView,
    pub event_authority: AccountView,
    pub program: AccountView,
}

/// The addresses of the accounts of the instruction for cranking the fee release.
#[derive(Clone, Copy, Debug, PartialEq, Eq)]
pub struct ClaimFeeCrankKeys {
    pub vault: Pubkey,
    pub stake_token_vault: Pubkey,
    pub quote_token_vault: Pubkey,
    pub pool: Pubkey,
    pub lp_mint: Pubkey,
    pub lock_escrow: Pubkey,
    pub escrow_vault: Pubkey,
    pub a_token_vault: Pubkey,
    pub b_token_vault: Pubkey,
    pub a_vault: Pubkey,
    pub b_vault: Pubkey,
    pub a_vault_lp: Pubkey,
    pub b_vault_lp: Pubkey,
    pub a_vault_lp_mint: Pubkey,
    pub b_vault_lp_mint: Pubkey,
    pub amm_program: Pubkey,
    pub vault_program: Pubkey,
    pub token_program: Pubkey,
    pub event_authority: Pubkey,
    pub program: Pubkey,
}

impl ClaimFeeCrankAccounts {
    /// The accounts in the order of the instruction.
    pub open spec fn spec_views(self) -> Seq<AccountView> {
        seq![
            self.vault,
            self.stake_token_vault,
            self.quote_token_vault,
            self.pool,
            self.lp_mint,
            self.lock_escrow,
            self.escrow_vault,
            self.a_token_vault,
            self.b_token_vault,
            self.a_vault,
            self.b_vault,
            self.a_vault_lp,
            self.b_vault_lp,
            self.a_vault_lp_mint,
            self.b_vault_lp_mint,
            self.amm_program,
            self.vault_program,
            self.token_program,
            self.event_authority,
            self.program,
        ]
    }

    /// Returns the accounts in the order of the instruction.
    pub fn to_array(&self) -> (r: [AccountView; 20])
        ensures
            r@ == self.spec_views(),
    {
        let r = [
            self.vault,
            self.stake_token_vault,
            self.quote_token_vault,
            self.pool,
            self.lp_mint,
            self.lock_escrow,
            self.escrow_vault,
            self.a_token_vault,
            self.b_token_vault,
            self.a_vault,
            self.b_vault,
            self.a_vault_lp,
            self.b_vault_lp,
            self.a_vault_lp_mint,
            self.b_vault_lp_mint,
            self.amm_program,
            self.vault_program,
            self.token_program,
            self.event_authority,
            self.program,
        ];
        assert(r@ =~= self.spec_views());
        r
    }

    /// Names the accounts of an array in the order of the instruction.
    pub fn from_array(accounts: &[AccountView; 20]) -> (r: ClaimFeeCrankAccounts)
        ensures
            r.spec_views() == accounts@,
    {
        let r = ClaimFeeCrankAccounts {
            vault: accounts[0],
            stake_token_vault: accounts[1],
            quote_token_vault: accounts[2],
            pool: accounts[3],
            lp_mint: accounts[4],
            lock_escrow: accounts[5],
            escrow_vault: accounts[6],
            a_token_vault: accounts[7],
            b_token_vault: accounts[8],
            a_vault: accounts[9],
            b_vault: accounts[10],
            a_vault_lp: accounts[11],
            b_vault_lp: accounts[12],
            a_vault_lp_mint: accounts[13],
            b_vault_lp_mint: accounts[14],
            amm_program: accounts[15],
            vault_program: accounts[16],
            token_program: accounts[17],
            event_authority: accounts[18],
            program: accounts[19],
        };
        assert(r.spec_views() =~= accounts@);
        r
    }
}

impl ClaimFeeCrankKeys {
    /// The addresses in the order of the instruction.
    pub open spec fn spec_pubkeys(self) -> Seq<Pubkey> {
        seq![
            self.vault,
            self.stake_token_vault,
            self.quote_token_vault,
            self.pool,
            self.lp_mint,
            self.lock_escrow,
            self.escrow_vault,
            self.a_token_vault,
            self.b_token_vault,
            self.a_vault,
            self.b_vault,
            self.a_vault_lp,
            self.b_vault_lp,
            self.a_vault_lp_mint,
            self.b_vault_lp_mint,
            self.amm_program,
            self.vault_program,
            self.token_program,
            self.event_authority,
            self.program,
        ]
    }

    /// The accounts as the instruction names them: each address with what the
    /// instruction may do with the account.
    pub open spec fn spec_metas(self) -> Seq<AccountMeta> {
        seq![
            AccountMeta { pubkey: self.vault, is_signer: false, is_writable: true },
            AccountMeta { pubkey: self.stake_token_vault, is_signer: false, is_writable: true },
            AccountMeta { pubkey: self.quote_token_vault, is_signer: false, is_writable: true },
            AccountMeta { pubkey: self.pool, is_signer: false, is_writable: true },
            AccountMeta { pubkey: self.lp_mint, is_signer: false, is_writable: true },
            AccountMeta { pubkey: self.lock_escrow, is_signer: false, is_writable: true },
            AccountMeta { pubkey: self.escrow_vault, is_signer: false, is_writable: true },
            AccountMeta { pubkey: self.a_token_vault, is_signer: false, is_writable: true },
            AccountMeta { pubkey: self.b_token_vault, is_signer: false, is_writable: true },
            AccountMeta { pubkey: self.a_vault, is_signer: false, is_writable: true },
            AccountMeta { pubkey: self.b_vault, is_signer: false, is_writable: true },
            AccountMeta { pubkey: self.a_vault_lp, is_signer: false, is_writable: true },
            AccountMeta { pubkey: self.b_vault_lp, is_signer: false, is_writable: true },
            AccountMeta { pubkey: self.a_vault_lp_mint, is_signer: false, is_writable: true },
            AccountMeta { pubkey: self.b_vault_lp_mint, is_signer: false, is_writable: true },
            AccountMeta { pubkey: self.amm_program, is_signer: false, is_writable: false },
            AccountMeta { pubkey: self.vault_program, is_signer: false, is_writable: false },
            AccountMeta { pubkey: self.token_program, is_signer: false, is_writable: false },
            AccountMeta { pubkey: self.event_authority, is_signer: false, is_writable: false },
            AccountMeta { pubkey: self.program, is_signer: false, is_writable: false },
        ]
    }

    /// Takes the addresses of the accounts handed in.
    pub fn from_accounts(accounts: &ClaimFeeCrankAccounts) -> (r: ClaimFeeCrankKeys)
        ensures
            r.spec_pubkeys() == keys_of(accounts.spec_views()),
    {
        let r = ClaimFeeCrankKeys {
            vault: accounts.vault.key,
            stake_token_vault: accounts.stake_token_vault.key,
            quote_token_vault: accounts.quote_token_vault.key,
            pool: accounts.pool.key,
            lp_mint: accounts.lp_mint.key,
            lock_escrow: accounts.lock_escrow.key,
            escrow_vault: accounts.escrow_vault.key,
            a_token_vault: accounts.a_token_vault.key,
            b_token_vault: accounts.b_token_vault.key,
            a_vault: accounts.a_vault.key,
            b_vault: accounts.b_vault.key,
            a_vault_lp: accounts.a_vault_lp.key,
            b_vault_lp: accounts.b_vault_lp.key,
            a_vault_lp_mint: accounts.a_vault_lp_mint.key,
            b_vault_lp_mint: accounts.b_vault_lp_mint.key,
            amm_program: accounts.amm_program.key,
            vault_program: accounts.vault_program.key,
            token_program: accounts.token_program.key,
            event_authority: accounts.event_authority.key,
            program: accounts.program.key,
        };
        assert(r.spec_pubkeys() =~= keys_of(accounts.spec_views()));
        r
    }

    /// Names the addresses of an array in the order of the instruction.
    pub fn from_pubkeys(pubkeys: &[Pubkey; 20]) -> (r: ClaimFeeCrankKeys)
        ensures
            r.spec_pubkeys() == pubkeys@,
    {
        let r = ClaimFeeCrankKeys {
            vault: pubkeys[0],
            stake_token_vault: pubkeys[1],
            quote_token_vault: pubkeys[2],
            pool: pubkeys[3],
            lp_mint: pubkeys[4],
            lock_escrow: pubkeys[5],
            escrow_vault: pubkeys[6],
            a_token_vault: pubkeys[7],
            b_token_vault: pubkeys[8],
            a_vault: pubkeys[9],
            b_vault: pubkeys[10],
            a_vault_lp: pubkeys[11],
            b_vault_lp: pubkeys[12],
            a_vault_lp_mint: pubkeys[13],
            b_vault_lp_mint: pubkeys[14],
            amm_program: pubkeys[15],
            vault_program: pubkeys[16],
            token_program: pubkeys[17],
            event_authority: pubkeys[18],
            program: pubkeys[19],
        };
        assert(r.spec_pubkeys() =~= pubkeys@);
        r
    }

    /// Returns the addresses in the order of the instruction.
    pub fn to_pubkeys(&self) -> (r: [Pubkey; 20])
        ensures
            r@ == self.spec_pubkeys(),
    {
        let r = [
            self.vault,
            self.stake_token_vault,
            self.quote_token_vault,
            self.pool,
            self.lp_mint,
            self.lock_escrow,
            self.escrow_vault,
            self.a_token_vault,
            self.b_token_vault,
            self.a_vault,
            self.b_vault,
            self.a_vault_lp,
            self.b_vault_lp,
            self.a_vault_lp_mint,
            self.b_vault_lp_mint,
            self.amm_program,
            self.vault_program,
            self.token_program,
            self.event_authority,
            self.program,
        ];
        assert(r@ =~= self.spec_pubkeys());
        r
    }

    /// Returns the accounts as the instruction names them.
    pub fn to_account_metas(&self) -> (r: [AccountMeta; 20])
        ensures
            r@ == self.spec_metas(),
    {
        let r = [
            AccountMeta { pubkey: self.vault, is_signer: false, is_writable: true },
            AccountMeta { pubkey: self.stake_token_vault, is_signer: false, is_writable: true },
            AccountMeta { pubkey: self.quote_token_vault, is_signer: false, is_writable: true },
            AccountMeta { pubkey: self.pool, is_signer: false, is_writable: true },
            AccountMeta { pubkey: self.lp_mint, is_signer: false, is_writable: true },
            AccountMeta { pubkey: self.lock_escrow, is_signer: false, is_writable: true },
            AccountMeta { pubkey: self.escrow_vault, is_signer: false, is_writable: true },
            AccountMeta { pubkey: self.a_token_vault, is_signer: false, is_writable: true },
            AccountMeta { pubkey: self.b_token_vault, is_signer: false, is_writable: true },
            AccountMeta { pubkey: self.a_vault, is_signer: false, is_writable: true },
            AccountMeta { pubkey: self.b_vault, is_signer: false, is_writable: true },
            AccountMeta { pubkey: self.a_vault_lp, is_signer: false, is_writable: true },
            AccountMeta { pubkey: self.b_vault_lp, is_signer: false, is_writable: true },
            AccountMeta { pubkey: self.a_vault_lp_mint, is_signer: false, is_writable: true },
            AccountMeta { pubkey: self.b_vault_lp_mint, is_signer: false, is_writable: true },
            AccountMeta { pubkey: self.amm_program, is_signer: false, is_writable: false },
            AccountMeta { pubkey: self.vault_program, is_signer: false, is_writable: false },
            AccountMeta { pubkey: self.token_program, is_signer: false, is_writable: false },
            AccountMeta { pubkey: self.event_authority, is_signer: false, is_writable: false },
            AccountMeta { pubkey: self.program, is_signer: false, is_writable: false },
        ];
        assert(r@ =~= self.spec_metas());
        r
    }
}

/// Builds the instruction for cranking the fee release, for the program at `program_id`.
pub fn claim_fee_crank_ix_with_program_id(program_id: Pubkey, keys: ClaimFeeCrankKeys) -> (r: Result<
    Instruction,
    IxError,
>)
    ensures
        r is Ok,
        r->Ok_0.program_id == program_id,
        r->Ok_0.accounts@ == keys.spec_metas(),
        r->Ok_0.data@ == ClaimFeeCrankIxData.spec_bytes(),
{
    let metas = keys.to_account_metas();
    let data = ClaimFeeCrankIxData.try_to_vec()?;
    Ok(Instruction { program_id, accounts: metas_to_vec(&metas), data })
}

/// Builds the instruction for cranking the fee release, for this program.
pub fn claim_fee_crank_ix(keys: ClaimFeeCrankKeys) -> (r: Result<Instruction, IxError>)
    ensures
        r is Ok,
        r->Ok_0.program_id@ == ID@,
        r->Ok_0.accounts@ == keys.spec_metas(),
        r->Ok_0.data@ == ClaimFeeCrankIxData.spec_bytes(),
{
    claim_fee_crank_ix_with_program_id(Pubkey::new_from_array(ID), keys)
}

/// Checks that the accounts handed to the instruction for cranking the fee release are the
/// ones expected; reports the first that is not, with the address found and the
/// address expected.
pub fn claim_fee_crank_verify_account_keys(accounts: &ClaimFeeCrankAccounts, keys: &ClaimFeeCrankKeys) -> (r: Result<
    (),
    (Pubkey, Pubkey),
>)
    ensures
        keys_verdict(keys_of(accounts.spec_views()), keys.spec_pubkeys(), r),
{
    let actual = accounts.to_array();
    let expected = keys.to_pubkeys();
    verify_keys(&actual, &expected)
}

impl ClaimFeeCrankAccounts {
    /// The accounts that the instruction writes, in the order in which they are
    /// checked.
    pub open spec fn spec_writable(self) -> Seq<AccountView> {
        seq![
            self.vault,
            self.stake_token_vault,
            self.quote_token_vault,
            self.pool,
            self.lp_mint,
            self.lock_escrow,
            self.escrow_vault,
            self.a_token_vault,
            self.b_token_vault,
            self.a_vault,
            self.b_vault,
            self.a_vault_lp,
            self.b_vault_lp,
            self.a_vault_lp_mint,
            self.b_vault_lp_mint,
        ]
    }

    /// The accounts that must have signed, in the order in which they are
    /// checked.
    pub open spec fn spec_signers(self) -> Seq<AccountView> {
        Seq::empty()
    }
}

/// Checks that every account that the instruction for cranking the fee release writes may be
/// written; reports the first that may not.
pub fn claim_fee_crank_verify_writable_privileges(accounts: &ClaimFeeCrankAccounts) -> (r: Result<
    (),
    (AccountView, PrivilegeError),
>)
    ensures
        privilege_verdict(
            writable_of(accounts.spec_writable()),
            accounts.spec_writable(),
            PrivilegeError::InvalidAccountData,
            r,
        ),
{
    let checked: [AccountView; 15] = [
        accounts.vault,
        accounts.stake_token_vault,
        accounts.quote_token_vault,
        accounts.pool,
        accounts.lp_mint,
        accounts.lock_escrow,
        accounts.escrow_vault,
        accounts.a_token_vault,
        accounts.b_token_vault,
        accounts.a_vault,
        accounts.b_vault,
        accounts.a_vault_lp,
        accounts.b_vault_lp,
        accounts.a_vault_lp_mint,
        accounts.b_vault_lp_mint,
    ];
    assert(checked@ =~= accounts.spec_writable());
    verify_writable(&checked)
}

/// Checks the privileges of the accounts handed to the instruction for cranking the fee release:
/// first that those it writes may be written, then that those that must sign
/// have signed.
pub fn claim_fee_crank_verify_account_privileges(accounts: &ClaimFeeCrankAccounts) -> (r: Result<
    (),
    (AccountView, PrivilegeError),
>)
    ensures
        r is Ok ==> privilege_verdict(
            writable_of(accounts.spec_writable()),
            accounts.spec_writable(),
            PrivilegeError::InvalidAccountData,
            r,
        ) && privilege_verdict(
            signer_of(accounts.spec_signers()),
            accounts.spec_signers(),
            PrivilegeError::MissingRequiredSignature,
            r,
        ),
        r is Err && r->Err_0.1 == PrivilegeError::InvalidAccountData ==> privilege_verdict(
            writable_of(accounts.spec_writable()),
            accounts.spec_writable(),
            PrivilegeError::InvalidAccountData,
            r,
        ),
        r is Err && r->Err_0.1 == PrivilegeError::MissingRequiredSignature ==> privilege_verdict(
            signer_of(accounts.spec_signers()),
            accounts.spec_signers(),
            PrivilegeError::MissingRequiredSignature,
            r,
        ) && privilege_verdict(
            writable_of(accounts.spec_writable()),
            accounts.spec_writable(),
            PrivilegeError::InvalidAccountData,
            Ok(()),
        ),
{
    claim_fee_crank_verify_writable_privileges(accounts)?;
    Ok(())
}

/// Number of accounts of the instruction for changing the unstake lock duration.
pub const UPDATE_UNSTAKE_LOCK_DURATION_IX_ACCOUNTS_LEN: usize = 4;

/// The accounts handed to the instruction for changing the unstake lock duration.
#[derive(Clone, Copy, Debug, PartialEq, Eq)]
pub struct UpdateUnstakeLockDurationAccounts {
    pub vault: AccountView,
    pub admin: AccountView,
    pub event_authority: AccountView,
    pub program: AccountView,
}

/// The addresses of the accounts of the instruction for changing the unstake lock duration.
#[derive(Clone, Copy, Debug, PartialEq, Eq)]
pub struct UpdateUnstakeLockDurationKeys {
    pub vault: Pubkey,
    pub admin: Pubkey,
    pub event_authority: Pubkey,
    pub program: Pubkey,
}

impl UpdateUnstakeLockDurationAccounts {
    /// The accounts in the order of the instruction.
    pub open spec fn spec_views(self) -> Seq<AccountView> {
        seq![
            self.vault,
            self.admin,
            self.event_authority,
            self.program,
        ]
    }

    /// Returns the accounts in the order of the instruction.
    pub fn to_array(&self) -> (r: [AccountView; 4])
        ensures
            r@ == self.spec_views(),
    {
        let r = [
            self.vault,
            self.admin,
            self.event_authority,
            self.program,
        ];
        assert(r@ =~= self.spec_views());
        r
    }

    /// Names the accounts of an array in the order of the instruction.
    pub fn from_array(accounts: &[AccountView; 4]) -> (r: UpdateUnstakeLockDurationAccounts)
        ensures
            r.spec_views() == accounts@,
    {
        let r = UpdateUnstakeLockDurationAccounts {
            vault: accounts[0],
            admin: accounts[1],
            event_authority: accounts[2],
            program: accounts[3],
        };
        assert(r.spec_views() =~= accounts@);
        r
    }
}

impl UpdateUnstakeLockDurationKeys {
    /// The addresses in the order of the instruction.
    pub open spec fn spec_pubkeys(self) -> Seq<Pubkey> {
        seq![
            self.vault,
            self.admin,
            self.event_authority,
            self.program,
        ]
    }

    /// The accounts as the instruction names them: each address with what the
    /// instruction may do with the account.
    pub open spec fn spec_metas(self) -> Seq<AccountMeta> {
        seq![
            AccountMeta { pubkey: self.vault, is_signer: false, is_writable: true },
            AccountMeta { pubkey: self.admin, is_signer: true, is_writable: false },
            AccountMeta { pubkey: self.event_authority, is_signer: false, is_writable: false },
            AccountMeta { pubkey: self.program, is_signer: false, is_writable: false },
        ]
    }

    /// Takes the addresses of the accounts handed in.
    pub fn from_accounts(accounts: &UpdateUnstakeLockDurationAccounts) -> (r: UpdateUnstakeLockDurationKeys)
        ensures
            r.spec_pubkeys() == keys_of(accounts.spec_views()),
    {
        let r = UpdateUnstakeLockDurationKeys {
            vault: accounts.vault.key,
            admin: accounts.admin.key,
            event_authority: accounts.event_authority.key,
            program: accounts.program.key,
        };
        assert(r.spec_pubkeys() =~= keys_of(accounts.spec_views()));
        r
    }

    /// Names the addresses of an array in the order of the instruction.
    pub fn from_pubkeys(pubkeys: &[Pubkey; 4]) -> (r: UpdateUnstakeLockDurationKeys)
        ensures
            r.spec_pubkeys() == pubkeys@,
    {
        let r = UpdateUnstakeLockDurationKeys {
            vault: pubkeys[0],
            admin: pubkeys[1],
            event_authority: pubkeys[2],
            program: pubkeys[3],
        };
        assert(r.spec_pubkeys() =~= pubkeys@);
        r
    }

    /// Returns the addresses in the order of the instruction.
    pub fn to_pubkeys(&self) -> (r: [Pubkey; 4])
        ensures
            r@ == self.spec_pubkeys(),
    {
        let r = [
            self.vault,
            self.admin,
            self.event_authority,
            self.program,
        ];
        assert(r@ =~= self.spec_pubkeys());
        r
    }

    /// Returns the accounts as the instruction names them.
    pub fn to_account_metas(&self) -> (r: [AccountMeta; 4])
        ensures
            r@ == self.spec_metas(),
    {
        let r = [
            AccountMeta { pubkey: self.vault, is_signer: false, is_writable: true },
            AccountMeta { pubkey: self.admin, is_signer: true, is_writable: false },
            AccountMeta { pubkey: self.event_authority, is_signer: false, is_writable: false },
            AccountMeta { pubkey: self.program, is_signer: false, is_writable: false },
        ];
        assert(r@ =~= self.spec_metas());
        r
    }
}

/// Builds the instruction for changing the unstake lock duration, for the program at `program_id`.
pub fn update_unstake_lock_duration_ix_with_program_id(program_id: Pubkey, keys: UpdateUnstakeLockDurationKeys, args: UpdateUnstakeLockDurationIxArgs) -> (r: Result<
    Instruction,
    IxError,
>)
    ensures
        r is Ok,
        r->Ok_0.program_id == program_id,
        r->Ok_0.accounts@ == keys.spec_metas(),
        r->Ok_0.data@ == UpdateUnstakeLockDurationIxData(args).spec_bytes(),
{
    let metas = keys.to_account_metas();
    let data = UpdateUnstakeLockDurationIxData(args).try_to_vec()?;
    Ok(Instruction { program_id, accounts: metas_to_vec(&metas), data })
}

/// Builds the instruction for changing the unstake lock duration, for this program.
pub fn update_unstake_lock_duration_ix(keys: UpdateUnstakeLockDurationKeys, args: UpdateUnstakeLockDurationIxArgs) -> (r: Result<Instruction, IxError>)
    ensures
        r is Ok,
        r->Ok_0.program_id@ == ID@,
        r->Ok_0.accounts@ == keys.spec_metas(),
        r->Ok_0.data@ == UpdateUnstakeLockDurationIxData(args).spec_bytes(),
{
    update_unstake_lock_duration_ix_with_program_id(Pubkey::new_from_array(ID), keys, args)
}

/// Checks that the accounts handed to the instruction for changing the unstake lock duration are the
/// ones expected; reports the first that is not, with the address found and the
/// address expected.
pub fn update_unstake_lock_duration_verify_account_keys(accounts: &UpdateUnstakeLockDurationAccounts, keys: &UpdateUnstakeLockDurationKeys) -> (r: Result<
    (),
    (Pubkey, Pubkey),
>)
    ensures
        keys_verdict(keys_of(accounts.spec_views()), keys.spec_pubkeys(), r),
{
    let actual = accounts.to_array();
    let expected = keys.to_pubkeys();
    verify_keys(&actual, &expected)
}

impl UpdateUnstakeLockDurationAccounts {
    /// The accounts that the instruction writes, in the order in which they are
    /// checked.
    pub open spec fn spec_writable(self) -> Seq<AccountView> {
        seq![
            self.vault,
        ]
    }

    /// The accounts that must have signed, in the order in which they are
    /// checked.
    pub open spec fn spec_signers(self) -> Seq<AccountView> {
        seq![
            self.admin,
        ]
    }
}

/// Checks that every account that the instruction for changing the unstake lock duration writes may be
/// written; reports the first that may not.
pub fn update_unstake_lock_duration_verify_writable_privileges(accounts: &UpdateUnstakeLockDurationAccounts) -> (r: Result<
    (),
    (AccountView, PrivilegeError),
>)
    ensures
        privilege_verdict(
            writable_of(accounts.spec_writable()),
            accounts.spec_writable(),
            PrivilegeError::InvalidAccountData,
            r,
        ),
{
    let checked: [AccountView; 1] = [
        accounts.vault,
    ];
    assert(checked@ =~= accounts.spec_writable());
    verify_writable(&checked)
}

/// Checks that every account that must sign the instruction for changing the unstake lock duration has
/// signed; reports the first that has not.
pub fn update_unstake_lock_duration_verify_signer_privileges(accounts: &UpdateUnstakeLockDurationAccounts) -> (r: Result<
    (),
    (AccountView, PrivilegeError),
>)
    ensures
        privilege_verdict(
            signer_of(accounts.spec_signers()),
            accounts.spec_signers(),
            PrivilegeError::MissingRequiredSignature,
            r,
        ),
{
    let checked: [AccountView; 1] = [
        accounts.admin,
    ];
    assert(checked@ =~= accounts.spec_signers());
    verify_signer(&checked)
}

/// Checks the privileges of the accounts handed to the instruction for changing the unstake lock duration:
/// first that those it writes may be written, then that those that must sign
/// have signed.
pub fn update_unstake_lock_duration_verify_account_privileges(accounts: &UpdateUnstakeLockDurationAccounts) -> (r: Result<
    (),
    (AccountView, PrivilegeError),
>)
    ensures
        r is Ok ==> privilege_verdict(
            writable_of(accounts.spec_writable()),
            accounts.spec_writable(),
            PrivilegeError::InvalidAccountData,
            r,
        ) && privilege_verdict(
            signer_of(accounts.spec_signers()),
            accounts.spec_signers(),
            PrivilegeError::MissingRequiredSignature,
            r,
        ),
        r is Err && r->Err_0.1 == PrivilegeError::InvalidAccountData ==> privilege_verdict(
            writable_of(accounts.spec_writable()),
            accounts.spec_writable(),
            PrivilegeError::InvalidAccountData,
            r,
        ),
        r is Err && r->Err_0.1 == PrivilegeError::MissingRequiredSignature ==> privilege_verdict(
            signer_of(accounts.spec_signers()),
            accounts.spec_signers(),
            PrivilegeError::MissingRequiredSignature,
            r,
        ) && privilege_verdict(
            writable_of(accounts.spec_writable()),
            accounts.spec_writable(),
            PrivilegeError::InvalidAccountData,
            Ok(()),
        ),
{
    update_unstake_lock_duration_verify_writable_privileges(accounts)?;
    update_unstake_lock_duration_verify_signer_privileges(accounts)?;
    Ok(())
}

/// Number of accounts of the instruction for changing the release window.
pub const UPDATE_SECONDS_TO_FULL_UNLOCK_IX_ACCOUNTS_LEN: usize = 5;

/// The accounts handed to the instruction for changing the release window.
#[derive(Clone, Copy, Debug, PartialEq, Eq)]
pub struct UpdateSecondsToFullUnlockAccounts {
    pub vault: AccountView,
    pub instructions_sysvar: AccountView,
    pub admin: AccountView,
    pub event_authority: AccountView,
    pub program: AccountView,
}

/// The addresses of the accounts of the instruction for changing the release window.
#[derive(Clone, Copy, Debug, PartialEq, Eq)]
pub struct UpdateSecondsToFullUnlockKeys {
    pub vault: Pubkey,
    pub instructions_sysvar: Pubkey,
    pub admin: Pubkey,
    pub event_authority: Pubkey,
    pub program: Pubkey,
}

impl UpdateSecondsToFullUnlockAccounts {
    /// The accounts in the order of the instruction.
    pub open spec fn spec_views(self) -> Seq<AccountView> {
        seq![
            self.vault,
            self.instructions_sysvar,
            self.admin,
            self.event_authority,
            self.program,
        ]
    }

    /// Returns the accounts in the order of the instruction.
    pub fn to_array(&self) -> (r: [AccountView; 5])
        ensures
            r@ == self.spec_views(),
    {
        let r = [
            self.vault,
            self.instructions_sysvar,
            self.admin,
            self.event_authority,
            self.program,
        ];
        assert(r@ =~= self.spec_views());
        r
    }

    /// Names the accounts of an array in the order of the instruction.
    pub fn from_array(accounts: &[AccountView; 5]) -> (r: UpdateSecondsToFullUnlockAccounts)
        ensures
            r.spec_views() == accounts@,
    {
        let r = UpdateSecondsToFullUnlockAccounts {
            vault: accounts[0],
            instructions_sysvar: accounts[1],
            admin: accounts[2],
            event_authority: accounts[3],
            program: accounts[4],
        };
        assert(r.spec_views() =~= accounts@);
        r
    }
}

impl UpdateSecondsToFullUnlockKeys {
    /// The addresses in the order of the instruction.
    pub open spec fn spec_pubkeys(self) -> Seq<Pubkey> {
        seq![
            self.vault,
            self.instructions_sysvar,
            self.admin,
            self.event_authority,
            self.program,
        ]
    }

    /// The accounts as the instruction names them: each address with what the
    /// instruction may do with the account.
    pub open spec fn spec_metas(self) -> Seq<AccountMeta> {
        seq![
            AccountMeta { pubkey: self.vault, is_signer: false, is_writable: true },
            AccountMeta { pubkey: self.instructions_sysvar, is_signer: false, is_writable: false },
            AccountMeta { pubkey: self.admin, is_signer: true, is_writable: false },
            AccountMeta { pubkey: self.event_authority, is_signer: false, is_writable: false },
            AccountMeta { pubkey: self.program, is_signer: false, is_writable: false },
        ]
    }

    /// Takes the addresses of the accounts handed in.
    pub fn from_accounts(accounts: &UpdateSecondsToFullUnlockAccounts) -> (r: UpdateSecondsToFullUnlockKeys)
        ensures
            r.spec_pubkeys() == keys_of(accounts.spec_views()),
    {
        let r = UpdateSecondsToFullUnlockKeys {
            vault: accounts.vault.key,
            instructions_sysvar: accounts.instructions_sysvar.key,
            admin: accounts.admin.key,
            event_authority: accounts.event_authority.key,
            program: accounts.program.key,
        };
        assert(r.spec_pubkeys() =~= keys_of(accounts.spec_views()));
        r
    }

    /// Names the addresses of an array in the order of the instruction.
    pub fn from_pubkeys(pubkeys: &[Pubkey; 5]) -> (r: UpdateSecondsToFullUnlockKeys)
        ensures
            r.spec_pubkeys() == pubkeys@,
    {
        let r = UpdateSecondsToFullUnlockKeys {
            vault: pubkeys[0],
            instructions_sysvar: pubkeys[1],
            admin: pubkeys[2],
            event_authority: pubkeys[3],
            program: pubkeys[4],
        };
        assert(r.spec_pubkeys() =~= pubkeys@);
        r
    }

    /// Returns the addresses in the order of the instruction.
    pub fn to_pubkeys(&self) -> (r: [Pubkey; 5])
        ensures
            r@ == self.spec_pubkeys(),
    {
        let r = [
            self.vault,
            self.instructions_sysvar,
            self.admin,
            self.event_authority,
            self.program,
        ];
        assert(r@ =~= self.spec_pubkeys());
        r
    }

    /// Returns the accounts as the instruction names them.
    pub fn to_account_metas(&self) -> (r: [AccountMeta; 5])
        ensures
            r@ == self.spec_metas(),
    {
        let r = [
            AccountMeta { pubkey: self.vault, is_signer: false, is_writable: true },
            AccountMeta { pubkey: self.instructions_sysvar, is_signer: false, is_writable: false },
            AccountMeta { pubkey: self.admin, is_signer: true, is_writable: false },
            AccountMeta { pubkey: self.event_authority, is_signer: false, is_writable: false },
            AccountMeta { pubkey: self.program, is_signer: false, is_writable: false },
        ];
        assert(r@ =~= self.spec_metas());
        r
    }
}

/// Builds the instruction for changing the release window, for the program at `program_id`.
pub fn update_seconds_to_full_unlock_ix_with_program_id(program_id: Pubkey, keys: UpdateSecondsToFullUnlockKeys, args: UpdateSecondsToFullUnlockIxArgs) -> (r: Result<
    Instruction,
    IxError,
>)
    ensures
        r is Ok,
        r->Ok_0.program_id == program_id,
        r->Ok_0.accounts@ == keys.spec_metas(),
        r->Ok_0.data@ == UpdateSecondsToFullUnlockIxData(args).spec_bytes(),
{
    let metas = keys.to_account_metas();
    let data = UpdateSecondsToFullUnlockIxData(args).try_to_vec()?;
    Ok(Instruction { program_id, accounts: metas_to_vec(&metas), data })
}

/// Builds the instruction for changing the release window, for this program.
pub fn update_seconds_to_full_unlock_ix(keys: UpdateSecondsToFullUnlockKeys, args: UpdateSecondsToFullUnlockIxArgs) -> (r: Result<Instruction, IxError>)
    ensures
        r is Ok,
        r->Ok_0.program_id@ == ID@,
        r->Ok_0.accounts@ == keys.spec_metas(),
        r->Ok_0.data@ == UpdateSecondsToFullUnlockIxData(args).spec_bytes(),
{
    update_seconds_to_full_unlock_ix_with_program_id(Pubkey::new_from_array(ID), keys, args)
}

/// Checks that the accounts handed to the instruction for changing the release window are the
/// ones expected; reports the first that is not, with the address found and the
/// address expected.
pub fn update_seconds_to_full_unlock_verify_account_keys(accounts: &UpdateSecondsToFullUnlockAccounts, keys: &UpdateSecondsToFullUnlockKeys) -> (r: Result<
    (),
    (Pubkey, Pubkey),
>)
    ensures
        keys_verdict(keys_of(accounts.spec_views()), keys.spec_pubkeys(), r),
{
    let actual = accounts.to_array();
    let expected = keys.to_pubkeys();
    verify_keys(&actual, &expected)
}

impl UpdateSecondsToFullUnlockAccounts {
    /// The accounts that the instruction writes, in the order in which they are
    /// checked.
    pub open spec fn spec_writable(self) -> Seq<AccountView> {
        seq![
            self.vault,
        ]
    }

    /// The accounts that must have signed, in the order in which they are
    /// checked.
    pub open spec fn spec_signers(self) -> Seq<AccountView> {
        seq![
            self.admin,
        ]
    }
}

/// Checks that every account that the instruction for changing the release window writes may be
/// written; reports the first that may not.
pub fn update_seconds_to_full_unlock_verify_writable_privileges(accounts: &UpdateSecondsToFullUnlockAccounts) -> (r: Result<
    (),
    (AccountView, PrivilegeError),
>)
    ensures
        privilege_verdict(
            writable_of(accounts.spec_writable()),
            accounts.spec_writable(),
            PrivilegeError::InvalidAccountData,
            r,
        ),
{
    let checked: [AccountView; 1] = [
        accounts.vault,
    ];
    assert(checked@ =~= accounts.spec_writable());
    verify_writable(&checked)
}

/// Checks that every account that must sign the instruction for changing the release window has
/// signed; reports the first that has not.
pub fn update_seconds_to_full_unlock_verify_signer_privileges(accounts: &UpdateSecondsToFullUnlockAccounts) -> (r: Result<
    (),
    (AccountView, PrivilegeError),
>)
    ensures
        privilege_verdict(
            signer_of(accounts.spec_signers()),
            accounts.spec_signers(),
            PrivilegeError::MissingRequiredSignature,
            r,
        ),
{
    let checked: [AccountView; 1] = [
        accounts.admin,
    ];
    assert(checked@ =~= accounts.spec_signers());
    verify_signer(&checked)
}

/// Checks the privileges of the accounts handed to the instruction for changing the release window:
/// first that those it writes may be written, then that those that must sign
/// have signed.
pub fn update_seconds_to_full_unlock_verify_account_privileges(accounts: &UpdateSecondsToFullUnlockAccounts) -> (r: Result<
    (),
    (AccountView, PrivilegeError),
>)
    ensures
        r is Ok ==> privilege_verdict(
            writable_of(accounts.spec_writable()),
            accounts.spec_writable(),
            PrivilegeError::InvalidAccountData,
            r,
        ) && privilege_verdict(
            signer_of(accounts.spec_signers()),
            accounts.spec_signers(),
            PrivilegeError::MissingRequiredSignature,
            r,
        ),
        r is Err && r->Err_0.1 == PrivilegeError::InvalidAccountData ==> privilege_verdict(
            writable_of(accounts.spec_writable()),
            accounts.spec_writable(),
            PrivilegeError::InvalidAccountData,
            r,
        ),
        r is Err && r->Err_0.1 == PrivilegeError::MissingRequiredSignature ==> privilege_verdict(
            signer_of(accounts.spec_signers()),
            accounts.spec_signers(),
            PrivilegeError::MissingRequiredSignature,
            r,
        ) && privilege_verdict(
            writable_of(accounts.spec_writable()),
            accounts.spec_writable(),
            PrivilegeError::InvalidAccountData,
            Ok(()),
        ),
{
    update_seconds_to_full_unlock_verify_writable_privileges(accounts)?;
    update_seconds_to_full_unlock_verify_signer_privileges(accounts)?;
    Ok(())
}

/// Number of accounts of the instruction for the placeholder instruction.
pub const DUMMY_IX_ACCOUNTS_LEN: usize = 2;

/// The accounts handed to the instruction for the placeholder instruction.
#[derive(Clone, Copy, Debug, PartialEq, Eq)]
pub struct DummyAccounts {
    pub staker_metadata: AccountView,
    pub staker_balance: AccountView,
}

/// The addresses of the accounts of the instruction for the placeholder instruction.
#[derive(Clone, Copy, Debug, PartialEq, Eq)]
pub struct DummyKeys {
    pub staker_metadata: Pubkey,
    pub staker_balance: Pubkey,
}

impl DummyAccounts {
    /// The accounts in the order of the instruction.
    pub open spec fn spec_views(self) -> Seq<AccountView> {
        seq![
            self.staker_metadata,
            self.staker_balance,
        ]
    }

    /// Returns the accounts in the order of the instruction.
    pub fn to_array(&self) -> (r: [AccountView; 2])
        ensures
            r@ == self.spec_views(),
    {
        let r = [
            self.staker_metadata,
            self.staker_balance,
        ];
        assert(r@ =~= self.spec_views());
        r
    }

    /// Names the accounts of an array in the order of the instruction.
    pub fn from_array(accounts: &[AccountView; 2]) -> (r: DummyAccounts)
        ensures
            r.spec_views() == accounts@,
    {
        let r = DummyAccounts {
            staker_metadata: accounts[0],
            staker_balance: accounts[1],
        };
        assert(r.spec_views() =~= accounts@);
        r
    }
}

impl DummyKeys {
    /// The addresses in the order of the instruction.
    pub open spec fn spec_pubkeys(self) -> Seq<Pubkey> {
        seq![
            self.staker_metadata,
            self.staker_balance,
        ]
    }

    /// The accounts as the instruction names them: each address with what the
    /// instruction may do with the account.
    pub open spec fn spec_metas(self) -> Seq<AccountMeta> {
        seq![
            AccountMeta { pubkey: self.staker_metadata, is_signer: false, is_writable: false },
            AccountMeta { pubkey: self.staker_balance, is_signer: false, is_writable: false },
        ]
    }

    /// Takes the addresses of the accounts handed in.
    pub fn from_accounts(accounts: &DummyAccounts) -> (r: DummyKeys)
        ensures
            r.spec_pubkeys() == keys_of(accounts.spec_views()),
    {
        let r = DummyKeys {
            staker_metadata: accounts.staker_metadata.key,
            staker_balance: accounts.staker_balance.key,
        };
        assert(r.spec_pubkeys() =~= keys_of(accounts.spec_views()));
        r
    }

    /// Names the addresses of an array in the order of the instruction.
    pub fn from_pubkeys(pubkeys: &[Pubkey; 2]) -> (r: DummyKeys)
        ensures
            r.spec_pubkeys() == pubkeys@,
    {
        let r = DummyKeys {
            staker_metadata: pubkeys[0],
            staker_balance: pubkeys[1],
        };
        assert(r.spec_pubkeys() =~= pubkeys@);
        r
    }

    /// Returns the addresses in the order of the instruction.
    pub fn to_pubkeys(&self) -> (r: [Pubkey; 2])
        ensures
            r@ == self.spec_pubkeys(),
    {
        let r = [
            self.staker_metadata,
            self.staker_balance,
        ];
        assert(r@ =~= self.spec_pubkeys());
        r
    }

    /// Returns the accounts as the instruction names them.
    pub fn to_account_metas(&self) -> (r: [AccountMeta; 2])
        ensures
            r@ == self.spec_metas(),
    {
        let r = [
            AccountMeta { pubkey: self.staker_metadata, is_signer: false, is_writable: false },
            AccountMeta { pubkey: self.staker_balance, is_signer: false, is_writable: false },
        ];
        assert(r@ =~= self.spec_metas());
        r
    }
}

/// Builds the instruction for the placeholder instruction, for the program at `program_id`.
pub fn dummy_ix_with_program_id(program_id: Pubkey, keys: DummyKeys) -> (r: Result<
    Instruction,
    IxError,
>)
    ensures
        r is Ok,
        r->Ok_0.program_id == program_id,
        r->Ok_0.accounts@ == keys.spec_metas(),
        r->Ok_0.data@ == DummyIxData.spec_bytes(),
{
    let metas = keys.to_account_metas();
    let data = DummyIxData.try_to_vec()?;
    Ok(Instruction { program_id, accounts: metas_to_vec(&metas), data })
}

/// Builds the instruction for the placeholder instruction, for this program.
pub fn dummy_ix(keys: DummyKeys) -> (r: Result<Instruction, IxError>)
    ensures
        r is Ok,
        r->Ok_0.program_id@ == ID@,
        r->Ok_0.accounts@ == keys.spec_metas(),
        r->Ok_0.data@ == DummyIxData.spec_bytes(),
{
    dummy_ix_with_program_id(Pubkey::new_from_array(ID), keys)
}

/// Checks that the accounts handed to the instruction for the placeholder instruction are the
/// ones expected; reports the first that is not, with the address found and the
/// address expected.
pub fn dummy_verify_account_keys(accounts: &DummyAccounts, keys: &DummyKeys) -> (r: Result<
    (),
    (Pubkey, Pubkey),
>)
    ensures
        keys_verdict(keys_of(accounts.spec_views()), keys.spec_pubkeys(), r),
{
    let actual = accounts.to_array();
    let expected = keys.to_pubkeys();
    verify_keys(&actual, &expected)
}

} // verus!
