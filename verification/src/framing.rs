use crate::instructions::has_discriminator;
use crate::instructions::after_discriminator;
use vstd::prelude::*;

verus! {

/// Discriminator that starts the data of the placeholder account that holds a top list slot.
pub const STAKER_METADATA_DUMMY_ACCOUNT_ACCOUNT_DISCM: [u8; 8] = [164, 41, 91, 148, 225, 107, 235, 174];

/// Discriminator that starts the data of the placeholder account that holds a full balance list entry.
pub const STAKER_BALANCE_DUMMY_ACCOUNT_ACCOUNT_DISCM: [u8; 8] = [27, 66, 207, 61, 128, 77, 48, 26];

/// Discriminator that starts the data of a full balance list.
pub const FULL_BALANCE_LIST_METADATA_ACCOUNT_DISCM: [u8; 8] = [169, 43, 13, 23, 89, 89, 173, 27];

/// Discriminator that starts the data of a stake escrow.
pub const STAKE_ESCROW_ACCOUNT_DISCM: [u8; 8] = [115, 173, 53, 77, 43, 219, 85, 124];

/// Discriminator that starts the data of a top staker list.
pub const TOP_LIST_METADATA_ACCOUNT_DISCM: [u8; 8] = [129, 203, 39, 239, 234, 197, 215, 74];

/// Discriminator that starts the data of an unstake ticket.
pub const UNSTAKE_ACCOUNT_DISCM: [u8; 8] = [154, 148, 131, 67, 52, 244, 244, 19];

/// Discriminator that starts the data of a vault.
pub const FEE_VAULT_ACCOUNT_DISCM: [u8; 8] = [192, 178, 69, 232, 58, 149, 157, 132];

/// Discriminator that starts the data of the event that says that a vault was created.
pub const VAULT_CREATED_EVENT_DISCM: [u8; 8] = [117, 25, 120, 254, 75, 236, 78, 115];

/// Discriminator that starts the data of the event that says that a stake escrow was created.
pub const STAKE_ESCROW_CREATED_EVENT_DISCM: [u8; 8] = [30, 193, 6, 249, 124, 123, 229, 152];

/// Discriminator that starts the data of the event that says that a template was created.
pub const CONFIG_CREATED_EVENT_DISCM: [u8; 8] = [195, 73, 104, 161, 166, 245, 4, 120];

/// Discriminator that starts the data of the event that says that a template was closed.
pub const CONFIG_CLOSED_EVENT_DISCM: [u8; 8] = [4, 138, 208, 218, 204, 236, 118, 199];

/// Discriminator that starts the data of the event that says that an unstake was requested.
pub const UNSTAKE_CREATED_EVENT_DISCM: [u8; 8] = [8, 148, 18, 227, 107, 164, 235, 112];

/// Discriminator that starts the data of the event that says that an unstake request was cancelled.
pub const CANCEL_UNSTAKE_SUCCEED_EVENT_DISCM: [u8; 8] = [82, 107, 69, 158, 67, 109, 78, 147];

/// Discriminator that starts the data of the event that says that an unstaked amount was withdrawn.
pub const WITHDRAW_SUCCEED_EVENT_DISCM: [u8; 8] = [14, 37, 122, 205, 115, 39, 159, 28];

/// Discriminator that starts the data of the event that says that fees were claimed.
pub const CLAIM_FEE_SUCCEED_EVENT_DISCM: [u8; 8] = [254, 25, 29, 83, 115, 189, 144, 18];

/// Discriminator that starts the data of the event that says that fees were pulled or released.
pub const FEE_EMISSION_EVENT_DISCM: [u8; 8] = [109, 105, 68, 86, 142, 4, 115, 27];

/// Discriminator that starts the data of the event that says that a staker entered the top list.
pub const ADD_NEW_USER_TO_TOP_HOLDER_EVENT_DISCM: [u8; 8] = [215, 17, 200, 127, 224, 180, 114, 200];

/// Discriminator that starts the data of the event that says that a staker left the top list.
pub const REMOVE_USER_FROM_TOP_HOLDER_EVENT_DISCM: [u8; 8] = [244, 213, 191, 20, 241, 134, 37, 235];

/// Discriminator that starts the data of the event that says that a staker staked.
pub const USER_STAKE_EVENT_DISCM: [u8; 8] = [195, 190, 70, 231, 232, 75, 51, 151];

/// Discriminator that starts the data of the event that says that an entry of the full balance list changed hands.
pub const RECLAIM_INDEX_EVENT_DISCM: [u8; 8] = [134, 152, 42, 196, 107, 132, 35, 222];

/// Discriminator that starts the data of the event that says that the unstake lock duration was changed.
pub const UPDATE_UNSTAKE_LOCK_DURATION_EVENT_DISCM: [u8; 8] = [117, 134, 16, 232, 145, 24, 175, 95];

/// Discriminator that starts the data of the event that says that the release window was changed.
pub const UPDATE_SECONDS_TO_FULL_UNLOCK_EVENT_DISCM: [u8; 8] = [82, 125, 66, 63, 78, 209, 125, 196];

/// Frames a record: appends its discriminator and then its encoded fields to
/// `writer`.
pub fn write_framed(writer: &mut Vec<u8>, discm: &[u8; 8], payload: &[u8])
    ensures
        final(writer)@ == old(writer)@ + discm@ + payload@,
        has_discriminator(discm@ + payload@, discm@),
        after_discriminator(discm@ + payload@) == payload@,
{
    writer.extend_from_slice(discm);
    writer.extend_from_slice(payload);
    assert((discm@ + payload@).subrange(0, 8) =~= discm@);
    assert((discm@ + payload@).subrange(8, (discm@ + payload@).len() as int) =~= payload@);
}

} // verus!
