use crate::typedefs::InitializeVaultParams;
use crate::wire::decode_u64;
use crate::wire::encode_u64;
use crate::wire::byte_range;
use crate::wire::le_bytes;
use crate::wire::lemma_le_bytes_len;
use crate::wire::lemma_le_round_trip;
use crate::wire::le_value;
use vstd::prelude::*;
use vstd::slice::slice_subrange;

verus! {

/// Why instruction data could not be read or written.
#[derive(Clone, Copy, Debug, PartialEq, Eq, Structural)]
pub enum IxError {
    /// The data is shorter than a discriminator.
    UnexpectedEof,
    /// The data starts with a discriminator other than the expected one.
    DiscriminatorMismatch,
    /// The bytes after the discriminator are not the encoding of the arguments.
    InvalidArgs,
    /// The byte codec refused to encode a value.
    EncodingFailed,
}

/// Discriminator of the instruction for creating a vault.
pub const INITIALIZE_VAULT_IX_DISCM: [u8; 8] = [48, 191, 163, 44, 71, 129, 63, 164];

/// Discriminator of the instruction for creating a stake escrow.
pub const INITIALIZE_STAKE_ESCROW_IX_DISCM: [u8; 8] = [67, 237, 111, 110, 218, 214, 29, 153];

/// Discriminator of the instruction for staking.
pub const STAKE_IX_DISCM: [u8; 8] = [206, 176, 202, 18, 200, 209, 179, 108];

/// Discriminator of the instruction for claiming fees.
pub const CLAIM_FEE_IX_DISCM: [u8; 8] = [169, 32, 79, 137, 136, 232, 70, 137];

/// Discriminator of the instruction for requesting an unstake.
pub const REQUEST_UNSTAKE_IX_DISCM: [u8; 8] = [44, 154, 110, 253, 160, 202, 54, 34];

/// Discriminator of the instruction for cancelling an unstake.
pub const CANCEL_UNSTAKE_IX_DISCM: [u8; 8] = [64, 65, 53, 227, 125, 153, 3, 167];

/// Discriminator of the instruction for withdrawing an unstaked amount.
pub const WITHDRAW_IX_DISCM: [u8; 8] = [183, 18, 70, 156, 148, 109, 161, 34];

/// Discriminator of the instruction for cranking the fee release.
pub const CLAIM_FEE_CRANK_IX_DISCM: [u8; 8] = [202, 199, 147, 2, 255, 199, 1, 222];

/// Discriminator of the instruction for changing the unstake lock duration.
pub const UPDATE_UNSTAKE_LOCK_DURATION_IX_DISCM: [u8; 8] = [83, 195, 196, 224, 200, 81, 70, 96];

/// Discriminator of the instruction for changing the release window.
pub const UPDATE_SECONDS_TO_FULL_UNLOCK_IX_DISCM: [u8; 8] = [22, 2, 54, 36, 74, 146, 7, 141];

/// Discriminator of the instruction for the placeholder instruction.
pub const DUMMY_IX_DISCM: [u8; 8] = [167, 117, 211, 79, 251, 254, 47, 135];

/// Whether `buf` starts with the eight bytes `discm`.
pub open spec fn has_discriminator(buf: Seq<u8>, discm: Seq<u8>) -> bool {
    buf.len() >= 8 && buf.subrange(0, 8) == discm
}

/// What follows the discriminator in `buf`.
pub open spec fn after_discriminator(buf: Seq<u8>) -> Seq<u8> {
    buf.subrange(8, buf.len() as int)
}

/// Whether `buf` starts with the discriminator of one of the instructions.
pub open spec fn has_known_discriminator(buf: Seq<u8>) -> bool {
    ||| has_discriminator(buf, INITIALIZE_VAULT_IX_DISCM@)
    ||| has_discriminator(buf, INITIALIZE_STAKE_ESCROW_IX_DISCM@)
    ||| has_discriminator(buf, STAKE_IX_DISCM@)
    ||| has_discriminator(buf, CLAIM_FEE_IX_DISCM@)
    ||| has_discriminator(buf, REQUEST_UNSTAKE_IX_DISCM@)
    ||| has_discriminator(buf, CANCEL_UNSTAKE_IX_DISCM@)
    ||| has_discriminator(buf, WITHDRAW_IX_DISCM@)
    ||| has_discriminator(buf, CLAIM_FEE_CRANK_IX_DISCM@)
    ||| has_discriminator(buf, UPDATE_UNSTAKE_LOCK_DURATION_IX_DISCM@)
    ||| has_discriminator(buf, UPDATE_SECONDS_TO_FULL_UNLOCK_IX_DISCM@)
    ||| has_discriminator(buf, DUMMY_IX_DISCM@)
}

/// Tells whether `buf`, of at least eight bytes, starts with `discm`.
fn starts_with(buf: &[u8], discm: &[u8; 8]) -> (r: bool)
    requires
        buf@.len() >= 8,
    ensures
        r == has_discriminator(buf@, discm@),
{
    let mut i: usize = 0;
    while i < 8
        invariant
            i <= 8,
            buf@.len() >= 8,
            forall|k: int| 0 <= k < i ==> buf@[k] == discm@[k],
        decreases 8 - i,
    {
        if buf[i] != discm[i] {
            assert(buf@.subrange(0, 8)[i as int] == buf@[i as int]);
            return false;
        }
        i += 1;
    }
    assert(buf@.subrange(0, 8) =~= discm@);
    true
}

/// Checks that `buf` starts with `discm` and returns what follows it: the framing
/// that instruction data, account data and event data share.
pub fn strip_discriminator<'a>(buf: &'a [u8], discm: &[u8; 8]) -> (r: Result<&'a [u8], IxError>)
    ensures
        buf@.len() < 8 ==> r == Err::<&[u8], IxError>(IxError::UnexpectedEof),
        buf@.len() >= 8 && !has_discriminator(buf@, discm@) ==> r == Err::<&[u8], IxError>(
            IxError::DiscriminatorMismatch,
        ),
        has_discriminator(buf@, discm@) ==> r is Ok && r->Ok_0@ == after_discriminator(buf@),
{
    if buf.len() < 8 {
        return Err(IxError::UnexpectedEof);
    }
    if !starts_with(buf, discm) {
        return Err(IxError::DiscriminatorMismatch);
    }
    Ok(slice_subrange(buf, 8, buf.len()))
}

/// Reads the one 64-bit argument that follows a discriminator.
fn read_u64_arg(rest: &[u8]) -> (r: Result<u64, IxError>)
    ensures
        rest@.len() < 8 ==> r == Err::<u64, IxError>(IxError::InvalidArgs),
        rest@.len() >= 8 ==> r == Ok::<u64, IxError>(le_value(rest@.subrange(0, 8)) as u64),
{
    match decode_u64(rest) {
        Ok(value) => Ok(value),
        Err(_) => Err(IxError::InvalidArgs),
    }
}

/// Appends a discriminator and one 64-bit argument to `writer`.
fn write_u64_ix(writer: &mut Vec<u8>, discm: &[u8; 8], value: u64) -> (r: Result<(), IxError>)
    ensures
        r is Ok,
        final(writer)@ == old(writer)@ + (discm@ + le_bytes(value as nat, 8)),
{
    let bytes = match encode_u64(value) {
        Ok(bytes) => bytes,
        Err(_) => {
            return Err(IxError::EncodingFailed);
        },
    };
    writer.extend_from_slice(discm);
    writer.extend_from_slice(bytes.as_slice());
    assert(final(writer)@ =~= old(writer)@ + (discm@ + le_bytes(value as nat, 8)));
    Ok(())
}

/// Arguments of the instruction for creating a vault.
#[derive(Clone, Copy, Debug, PartialEq)]
pub struct InitializeVaultIxArgs {
    pub params: InitializeVaultParams,
}

/// Data of the instruction for creating a vault: its discriminator, then its arguments.
#[derive(Clone, Copy, Debug, PartialEq)]
pub struct InitializeVaultIxData(pub InitializeVaultIxArgs);

impl From<InitializeVaultIxArgs> for InitializeVaultIxData {
    /// Wraps the arguments as the instruction's data.
    fn from(args: InitializeVaultIxArgs) -> (r: Self) {
        InitializeVaultIxData(args)
    }
}

impl vstd::std_specs::convert::FromSpecImpl<InitializeVaultIxArgs> for InitializeVaultIxData {
    open spec fn obeys_from_spec() -> bool {
        true
    }

    open spec fn from_spec(args: InitializeVaultIxArgs) -> Self {
        InitializeVaultIxData(args)
    }
}

impl InitializeVaultIxData {
    /// The bytes of this instruction's data.
    pub open spec fn spec_bytes(self) -> Seq<u8> {
        INITIALIZE_VAULT_IX_DISCM@ + self.0.params.spec_bytes()
    }

    /// Reads the instruction's data from the front of `buf`; bytes after it are ignored.
    pub fn deserialize(buf: &[u8]) -> (r: Result<Self, IxError>)
        ensures
            buf@.len() < 8 ==> r == Err::<Self, IxError>(IxError::UnexpectedEof),
            buf@.len() >= 8 && !has_discriminator(buf@, INITIALIZE_VAULT_IX_DISCM@) ==> r == Err::<
                Self,
                IxError,
            >(IxError::DiscriminatorMismatch),
            has_discriminator(buf@, INITIALIZE_VAULT_IX_DISCM@) && InitializeVaultParams::spec_padding_start(
                after_discriminator(buf@),
            ) is None ==> r == Err::<Self, IxError>(IxError::InvalidArgs),
            has_discriminator(buf@, INITIALIZE_VAULT_IX_DISCM@) && InitializeVaultParams::spec_padding_start(
                after_discriminator(buf@),
            ) is Some ==> r is Ok && r->Ok_0.0.params.spec_parsed_from(
                after_discriminator(buf@),
            ),
    {
        let rest = strip_discriminator(buf, &INITIALIZE_VAULT_IX_DISCM)?;
        let params = InitializeVaultParams::deserialize(rest)?;
        Ok(InitializeVaultIxData(InitializeVaultIxArgs { params }))
    }

    /// Appends the instruction's data to `writer`.
    pub fn serialize(&self, writer: &mut Vec<u8>) -> (r: Result<(), IxError>)
        ensures
            r is Ok,
            final(writer)@ == old(writer)@ + self.spec_bytes(),
    {
        writer.extend_from_slice(&INITIALIZE_VAULT_IX_DISCM);
        self.0.params.serialize(writer)?;
        assert(final(writer)@ =~= old(writer)@ + self.spec_bytes());
        Ok(())
    }

    /// Returns the instruction's data as a fresh vector.
    pub fn try_to_vec(&self) -> (r: Result<Vec<u8>, IxError>)
        ensures
            r is Ok,
            r->Ok_0@ == self.spec_bytes(),
    {
        let mut data = Vec::new();
        self.serialize(&mut data)?;
        Ok(data)
    }
}

/// Data of the instruction for creating a stake escrow: its discriminator alone.
#[derive(Clone, Copy, Debug, PartialEq, Eq, Structural)]
pub struct InitializeStakeEscrowIxData;

impl InitializeStakeEscrowIxData {
    /// The bytes of this instruction's data.
    pub open spec fn spec_bytes(self) -> Seq<u8> {
        INITIALIZE_STAKE_ESCROW_IX_DISCM@
    }

    /// Reads the instruction's data from the front of `buf`; bytes after it are ignored.
    pub fn deserialize(buf: &[u8]) -> (r: Result<Self, IxError>)
        ensures
            buf@.len() < 8 ==> r == Err::<Self, IxError>(IxError::UnexpectedEof),
            buf@.len() >= 8 && !has_discriminator(buf@, INITIALIZE_STAKE_ESCROW_IX_DISCM@) ==> r == Err::<
                Self,
                IxError,
            >(IxError::DiscriminatorMismatch),
            has_discriminator(buf@, INITIALIZE_STAKE_ESCROW_IX_DISCM@) ==> r == Ok::<Self, IxError>(
                InitializeStakeEscrowIxData,
            ),
    {
        let _ = strip_discriminator(buf, &INITIALIZE_STAKE_ESCROW_IX_DISCM)?;
        Ok(InitializeStakeEscrowIxData)
    }

    /// Appends the instruction's data to `writer`.
    pub fn serialize(&self, writer: &mut Vec<u8>) -> (r: Result<(), IxError>)
        ensures
            r is Ok,
            final(writer)@ == old(writer)@ + self.spec_bytes(),
    {
        writer.extend_from_slice(&INITIALIZE_STAKE_ESCROW_IX_DISCM);
        Ok(())
    }

    /// Returns the instruction's data as a fresh vector.
    pub fn try_to_vec(&self) -> (r: Result<Vec<u8>, IxError>)
        ensures
            r is Ok,
            r->Ok_0@ == self.spec_bytes(),
    {
        let mut data = Vec::new();
        self.serialize(&mut data)?;
        Ok(data)
    }
}

/// Arguments of the instruction for staking.
#[derive(Clone, Copy, Debug, PartialEq, Eq, Structural)]
pub struct StakeIxArgs {
    pub amount: u64,
}

/// Data of the instruction for staking: its discriminator, then its arguments.
#[derive(Clone, Copy, Debug, PartialEq, Eq, Structural)]
pub struct StakeIxData(pub StakeIxArgs);

impl From<StakeIxArgs> for StakeIxData {
    /// Wraps the arguments as the instruction's data.
    fn from(args: StakeIxArgs) -> (r: Self) {
        StakeIxData(args)
    }
}

impl vstd::std_specs::convert::FromSpecImpl<StakeIxArgs> for StakeIxData {
    open spec fn obeys_from_spec() -> bool {
        true
    }

    open spec fn from_spec(args: StakeIxArgs) -> Self {
        StakeIxData(args)
    }
}

impl StakeIxData {
    /// The bytes of this instruction's data.
    pub open spec fn spec_bytes(self) -> Seq<u8> {
        STAKE_IX_DISCM@ + le_bytes(self.0.amount as nat, 8)
    }

    /// Reads the instruction's data from the front of `buf`; bytes after it are ignored.
    pub fn deserialize(buf: &[u8]) -> (r: Result<Self, IxError>)
        ensures
            buf@.len() < 8 ==> r == Err::<Self, IxError>(IxError::UnexpectedEof),
            buf@.len() >= 8 && !has_discriminator(buf@, STAKE_IX_DISCM@) ==> r == Err::<
                Self,
                IxError,
            >(IxError::DiscriminatorMismatch),
            has_discriminator(buf@, STAKE_IX_DISCM@) && buf@.len() < 16 ==> r == Err::<
                Self,
                IxError,
            >(IxError::InvalidArgs),
            has_discriminator(buf@, STAKE_IX_DISCM@) && buf@.len() >= 16 ==> r == Ok::<
                Self,
                IxError,
            >(
                StakeIxData(
                    StakeIxArgs { amount: le_value(buf@.subrange(8, 16)) as u64 },
                ),
            ),
    {
        let rest = strip_discriminator(buf, &STAKE_IX_DISCM)?;
        let amount = read_u64_arg(rest)?;
        assert(buf@.len() >= 16 ==> rest@.subrange(0, 8) =~= buf@.subrange(8, 16));
        Ok(StakeIxData(StakeIxArgs { amount }))
    }

    /// Appends the instruction's data to `writer`.
    pub fn serialize(&self, writer: &mut Vec<u8>) -> (r: Result<(), IxError>)
        ensures
            r is Ok,
            final(writer)@ == old(writer)@ + self.spec_bytes(),
    {
        write_u64_ix(writer, &STAKE_IX_DISCM, self.0.amount)
    }

    /// Returns the instruction's data as a fresh vector.
    pub fn try_to_vec(&self) -> (r: Result<Vec<u8>, IxError>)
        ensures
            r is Ok,
            r->Ok_0@ == self.spec_bytes(),
    {
        let mut data = Vec::new();
        self.serialize(&mut data)?;
        Ok(data)
    }
}

/// Arguments of the instruction for claiming fees.
#[derive(Clone, Copy, Debug, PartialEq, Eq, Structural)]
pub struct ClaimFeeIxArgs {
    pub max_fee: u64,
}

/// Data of the instruction for claiming fees: its discriminator, then its arguments.
#[derive(Clone, Copy, Debug, PartialEq, Eq, Structural)]
pub struct ClaimFeeIxData(pub ClaimFeeIxArgs);

impl From<ClaimFeeIxArgs> for ClaimFeeIxData {
    /// Wraps the arguments as the instruction's data.
    fn from(args: ClaimFeeIxArgs) -> (r: Self) {
        ClaimFeeIxData(args)
    }
}

impl vstd::std_specs::convert::FromSpecImpl<ClaimFeeIxArgs> for ClaimFeeIxData {
    open spec fn obeys_from_spec() -> bool {
        true
    }

    open spec fn from_spec(args: ClaimFeeIxArgs) -> Self {
        ClaimFeeIxData(args)
    }
}

impl ClaimFeeIxData {
    /// The bytes of this instruction's data.
    pub open spec fn spec_bytes(self) -> Seq<u8> {
        CLAIM_FEE_IX_DISCM@ + le_bytes(self.0.max_fee as nat, 8)
    }

    /// Reads the instruction's data from the front of `buf`; bytes after it are ignored.
    pub fn deserialize(buf: &[u8]) -> (r: Result<Self, IxError>)
        ensures
            buf@.len() < 8 ==> r == Err::<Self, IxError>(IxError::UnexpectedEof),
            buf@.len() >= 8 && !has_discriminator(buf@, CLAIM_FEE_IX_DISCM@) ==> r == Err::<
                Self,
                IxError,
            >(IxError::DiscriminatorMismatch),
            has_discriminator(buf@, CLAIM_FEE_IX_DISCM@) && buf@.len() < 16 ==> r == Err::<
                Self,
                IxError,
            >(IxError::InvalidArgs),
            has_discriminator(buf@, CLAIM_FEE_IX_DISCM@) && buf@.len() >= 16 ==> r == Ok::<
                Self,
                IxError,
            >(
                ClaimFeeIxData(
                    ClaimFeeIxArgs { max_fee: le_value(buf@.subrange(8, 16)) as u64 },
                ),
            ),
    {
        let rest = strip_discriminator(buf, &CLAIM_FEE_IX_DISCM)?;
        let max_fee = read_u64_arg(rest)?;
        assert(buf@.len() >= 16 ==> rest@.subrange(0, 8) =~= buf@.subrange(8, 16));
        Ok(ClaimFeeIxData(ClaimFeeIxArgs { max_fee }))
    }

    /// Appends the instruction's data to `writer`.
    pub fn serialize(&self, writer: &mut Vec<u8>) -> (r: Result<(), IxError>)
        ensures
            r is Ok,
            final(writer)@ == old(writer)@ + self.spec_bytes(),
    {
        write_u64_ix(writer, &CLAIM_FEE_IX_DISCM, self.0.max_fee)
    }

    /// Returns the instruction's data as a fresh vector.
    pub fn try_to_vec(&self) -> (r: Result<Vec<u8>, IxError>)
        ensures
            r is Ok,
            r->Ok_0@ == self.spec_bytes(),
    {
        let mut data = Vec::new();
        self.serialize(&mut data)?;
        Ok(data)
    }
}

/// Arguments of the instruction for requesting an unstake.
#[derive(Clone, Copy, Debug, PartialEq, Eq, Structural)]
pub struct RequestUnstakeIxArgs {
    pub unstake_amount: u64,
}

/// Data of the instruction for requesting an unstake: its discriminator, then its arguments.
#[derive(Clone, Copy, Debug, PartialEq, Eq, Structural)]
pub struct RequestUnstakeIxData(pub RequestUnstakeIxArgs);

impl From<RequestUnstakeIxArgs> for RequestUnstakeIxData {
    /// Wraps the arguments as the instruction's data.
    fn from(args: RequestUnstakeIxArgs) -> (r: Self) {
        RequestUnstakeIxData(args)
    }
}

impl vstd::std_specs::convert::FromSpecImpl<RequestUnstakeIxArgs> for RequestUnstakeIxData {
    open spec fn obeys_from_spec() -> bool {
        true
    }

    open spec fn from_spec(args: RequestUnstakeIxArgs) -> Self {
        RequestUnstakeIxData(args)
    }
}

impl RequestUnstakeIxData {
    /// The bytes of this instruction's data.
    pub open spec fn spec_bytes(self) -> Seq<u8> {
        REQUEST_UNSTAKE_IX_DISCM@ + le_bytes(self.0.unstake_amount as nat, 8)
    }

    /// Reads the instruction's data from the front of `buf`; bytes after it are ignored.
    pub fn deserialize(buf: &[u8]) -> (r: Result<Self, IxError>)
        ensures
            buf@.len() < 8 ==> r == Err::<Self, IxError>(IxError::UnexpectedEof),
            buf@.len() >= 8 && !has_discriminator(buf@, REQUEST_UNSTAKE_IX_DISCM@) ==> r == Err::<
                Self,
                IxError,
            >(IxError::DiscriminatorMismatch),
            has_discriminator(buf@, REQUEST_UNSTAKE_IX_DISCM@) && buf@.len() < 16 ==> r == Err::<
                Self,
                IxError,
            >(IxError::InvalidArgs),
            has_discriminator(buf@, REQUEST_UNSTAKE_IX_DISCM@) && buf@.len() >= 16 ==> r == Ok::<
                Self,
                IxError,
            >(
                RequestUnstakeIxData(
                    RequestUnstakeIxArgs { unstake_amount: le_value(buf@.subrange(8, 16)) as u64 },
                ),
            ),
    {
        let rest = strip_discriminator(buf, &REQUEST_UNSTAKE_IX_DISCM)?;
        let unstake_amount = read_u64_arg(rest)?;
        assert(buf@.len() >= 16 ==> rest@.subrange(0, 8) =~= buf@.subrange(8, 16));
        Ok(RequestUnstakeIxData(RequestUnstakeIxArgs { unstake_amount }))
    }

    /// Appends the instruction's data to `writer`.
    pub fn serialize(&self, writer: &mut Vec<u8>) -> (r: Result<(), IxError>)
        ensures
            r is Ok,
            final(writer)@ == old(writer)@ + self.spec_bytes(),
    {
        write_u64_ix(writer, &REQUEST_UNSTAKE_IX_DISCM, self.0.unstake_amount)
    }

    /// Returns the instruction's data as a fresh vector.
    pub fn try_to_vec(&self) -> (r: Result<Vec<u8>, IxError>)
        ensures
            r is Ok,
            r->Ok_0@ == self.spec_bytes(),
    {
        let mut data = Vec::new();
        self.serialize(&mut data)?;
        Ok(data)
    }
}

/// Data of the instruction for cancelling an unstake: its discriminator alone.
#[derive(Clone, Copy, Debug, PartialEq, Eq, Structural)]
pub struct CancelUnstakeIxData;

impl CancelUnstakeIxData {
    /// The bytes of this instruction's data.
    pub open spec fn spec_bytes(self) -> Seq<u8> {
        CANCEL_UNSTAKE_IX_DISCM@
    }

    /// Reads the instruction's data from the front of `buf`; bytes after it are ignored.
    pub fn deserialize(buf: &[u8]) -> (r: Result<Self, IxError>)
        ensures
            buf@.len() < 8 ==> r == Err::<Self, IxError>(IxError::UnexpectedEof),
            buf@.len() >= 8 && !has_discriminator(buf@, CANCEL_UNSTAKE_IX_DISCM@) ==> r == Err::<
                Self,
                IxError,
            >(IxError::DiscriminatorMismatch),
            has_discriminator(buf@, CANCEL_UNSTAKE_IX_DISCM@) ==> r == Ok::<Self, IxError>(
                CancelUnstakeIxData,
            ),
    {
        let _ = strip_discriminator(buf, &CANCEL_UNSTAKE_IX_DISCM)?;
        Ok(CancelUnstakeIxData)
    }

    /// Appends the instruction's data to `writer`.
    pub fn serialize(&self, writer: &mut Vec<u8>) -> (r: Result<(), IxError>)
        ensures
            r is Ok,
            final(writer)@ == old(writer)@ + self.spec_bytes(),
    {
        writer.extend_from_slice(&CANCEL_UNSTAKE_IX_DISCM);
        Ok(())
    }

    /// Returns the instruction's data as a fresh vector.
    pub fn try_to_vec(&self) -> (r: Result<Vec<u8>, IxError>)
        ensures
            r is Ok,
            r->Ok_0@ == self.spec_bytes(),
    {
        let mut data = Vec::new();
        self.serialize(&mut data)?;
        Ok(data)
    }
}

/// Data of the instruction for withdrawing an unstaked amount: its discriminator alone.
#[derive(Clone, Copy, Debug, PartialEq, Eq, Structural)]
pub struct WithdrawIxData;

impl WithdrawIxData {
    /// The bytes of this instruction's data.
    pub open spec fn spec_bytes(self) -> Seq<u8> {
        WITHDRAW_IX_DISCM@
    }

    /// Reads the instruction's data from the front of `buf`; bytes after it are ignored.
    pub fn deserialize(buf: &[u8]) -> (r: Result<Self, IxError>)
        ensures
            buf@.len() < 8 ==> r == Err::<Self, IxError>(IxError::UnexpectedEof),
            buf@.len() >= 8 && !has_discriminator(buf@, WITHDRAW_IX_DISCM@) ==> r == Err::<
                Self,
                IxError,
            >(IxError::DiscriminatorMismatch),
            has_discriminator(buf@, WITHDRAW_IX_DISCM@) ==> r == Ok::<Self, IxError>(
                WithdrawIxData,
            ),
    {
        let _ = strip_discriminator(buf, &WITHDRAW_IX_DISCM)?;
        Ok(WithdrawIxData)
    }

    /// Appends the instruction's data to `writer`.
    pub fn serialize(&self, writer: &mut Vec<u8>) -> (r: Result<(), IxError>)
        ensures
            r is Ok,
            final(writer)@ == old(writer)@ + self.spec_bytes(),
    {
        writer.extend_from_slice(&WITHDRAW_IX_DISCM);
        Ok(())
    }

    /// Returns the instruction's data as a fresh vector.
    pub fn try_to_vec(&self) -> (r: Result<Vec<u8>, IxError>)
        ensures
            r is Ok,
            r->Ok_0@ == self.spec_bytes(),
    {
        let mut data = Vec::new();
        self.serialize(&mut data)?;
        Ok(data)
    }
}

/// Data of the instruction for cranking the fee release: its discriminator alone.
#[derive(Clone, Copy, Debug, PartialEq, Eq, Structural)]
pub struct ClaimFeeCrankIxData;

impl ClaimFeeCrankIxData {
    /// The bytes of this instruction's data.
    pub open spec fn spec_bytes(self) -> Seq<u8> {
        CLAIM_FEE_CRANK_IX_DISCM@
    }

    /// Reads the instruction's data from the front of `buf`; bytes after it are ignored.
    pub fn deserialize(buf: &[u8]) -> (r: Result<Self, IxError>)
        ensures
            buf@.len() < 8 ==> r == Err::<Self, IxError>(IxError::UnexpectedEof),
            buf@.len() >= 8 && !has_discriminator(buf@, CLAIM_FEE_CRANK_IX_DISCM@) ==> r == Err::<
                Self,
                IxError,
            >(IxError::DiscriminatorMismatch),
            has_discriminator(buf@, CLAIM_FEE_CRANK_IX_DISCM@) ==> r == Ok::<Self, IxError>(
                ClaimFeeCrankIxData,
            ),
    {
        let _ = strip_discriminator(buf, &CLAIM_FEE_CRANK_IX_DISCM)?;
        Ok(ClaimFeeCrankIxData)
    }

    /// Appends the instruction's data to `writer`.
    pub fn serialize(&self, writer: &mut Vec<u8>) -> (r: Result<(), IxError>)
        ensures
            r is Ok,
            final(writer)@ == old(writer)@ + self.spec_bytes(),
    {
        writer.extend_from_slice(&CLAIM_FEE_CRANK_IX_DISCM);
        Ok(())
    }

    /// Returns the instruction's data as a fresh vector.
    pub fn try_to_vec(&self) -> (r: Result<Vec<u8>, IxError>)
        ensures
            r is Ok,
            r->Ok_0@ == self.spec_bytes(),
    {
        let mut data = Vec::new();
        self.serialize(&mut data)?;
        Ok(data)
    }
}

/// Arguments of the instruction for changing the unstake lock duration.
#[derive(Clone, Copy, Debug, PartialEq, Eq, Structural)]
pub struct UpdateUnstakeLockDurationIxArgs {
    pub unstake_lock_duration: u64,
}

/// Data of the instruction for changing the unstake lock duration: its discriminator, then its arguments.
#[derive(Clone, Copy, Debug, PartialEq, Eq, Structural)]
pub struct UpdateUnstakeLockDurationIxData(pub UpdateUnstakeLockDurationIxArgs);

impl From<UpdateUnstakeLockDurationIxArgs> for UpdateUnstakeLockDurationIxData {
    /// Wraps the arguments as the instruction's data.
    fn from(args: UpdateUnstakeLockDurationIxArgs) -> (r: Self) {
        UpdateUnstakeLockDurationIxData(args)
    }
}

impl vstd::std_specs::convert::FromSpecImpl<UpdateUnstakeLockDurationIxArgs> for UpdateUnstakeLockDurationIxData {
    open spec fn obeys_from_spec() -> bool {
        true
    }

    open spec fn from_spec(args: UpdateUnstakeLockDurationIxArgs) -> Self {
        UpdateUnstakeLockDurationIxData(args)
    }
}

impl UpdateUnstakeLockDurationIxData {
    /// The bytes of this instruction's data.
    pub open spec fn spec_bytes(self) -> Seq<u8> {
        UPDATE_UNSTAKE_LOCK_DURATION_IX_DISCM@ + le_bytes(self.0.unstake_lock_duration as nat, 8)
    }

    /// Reads the instruction's data from the front of `buf`; bytes after it are ignored.
    pub fn deserialize(buf: &[u8]) -> (r: Result<Self, IxError>)
        ensures
            buf@.len() < 8 ==> r == Err::<Self, IxError>(IxError::UnexpectedEof),
            buf@.len() >= 8 && !has_discriminator(buf@, UPDATE_UNSTAKE_LOCK_DURATION_IX_DISCM@) ==> r == Err::<
                Self,
                IxError,
            >(IxError::DiscriminatorMismatch),
            has_discriminator(buf@, UPDATE_UNSTAKE_LOCK_DURATION_IX_DISCM@) && buf@.len() < 16 ==> r == Err::<
                Self,
                IxError,
            >(IxError::InvalidArgs),
            has_discriminator(buf@, UPDATE_UNSTAKE_LOCK_DURATION_IX_DISCM@) && buf@.len() >= 16 ==> r == Ok::<
                Self,
                IxError,
            >(
                UpdateUnstakeLockDurationIxData(
                    UpdateUnstakeLockDurationIxArgs { unstake_lock_duration: le_value(buf@.subrange(8, 16)) as u64 },
                ),
            ),
    {
        let rest = strip_discriminator(buf, &UPDATE_UNSTAKE_LOCK_DURATION_IX_DISCM)?;
        let unstake_lock_duration = read_u64_arg(rest)?;
        assert(buf@.len() >= 16 ==> rest@.subrange(0, 8) =~= buf@.subrange(8, 16));
        Ok(UpdateUnstakeLockDurationIxData(UpdateUnstakeLockDurationIxArgs { unstake_lock_duration }))
    }

    /// Appends the instruction's data to `writer`.
    pub fn serialize(&self, writer: &mut Vec<u8>) -> (r: Result<(), IxError>)
        ensures
            r is Ok,
            final(writer)@ == old(writer)@ + self.spec_bytes(),
    {
        write_u64_ix(writer, &UPDATE_UNSTAKE_LOCK_DURATION_IX_DISCM, self.0.unstake_lock_duration)
    }

    /// Returns the instruction's data as a fresh vector.
    pub fn try_to_vec(&self) -> (r: Result<Vec<u8>, IxError>)
        ensures
            r is Ok,
            r->Ok_0@ == self.spec_bytes(),
    {
        let mut data = Vec::new();
        self.serialize(&mut data)?;
        Ok(data)
    }
}

/// Arguments of the instruction for changing the release window.
#[derive(Clone, Copy, Debug, PartialEq, Eq, Structural)]
pub struct UpdateSecondsToFullUnlockIxArgs {
    pub seconds_to_full_unlock: u64,
}

/// Data of the instruction for changing the release window: its discriminator, then its arguments.
#[derive(Clone, Copy, Debug, PartialEq, Eq, Structural)]
pub struct UpdateSecondsToFullUnlockIxData(pub UpdateSecondsToFullUnlockIxArgs);

impl From<UpdateSecondsToFullUnlockIxArgs> for UpdateSecondsToFullUnlockIxData {
    /// Wraps the arguments as the instruction's data.
    fn from(args: UpdateSecondsToFullUnlockIxArgs) -> (r: Self) {
        UpdateSecondsToFullUnlockIxData(args)
    }
}

impl vstd::std_specs::convert::FromSpecImpl<UpdateSecondsToFullUnlockIxArgs> for UpdateSecondsToFullUnlockIxData {
    open spec fn obeys_from_spec() -> bool {
        true
    }

    open spec fn from_spec(args: UpdateSecondsToFullUnlockIxArgs) -> Self {
        UpdateSecondsToFullUnlockIxData(args)
    }
}

impl UpdateSecondsToFullUnlockIxData {
    /// The bytes of this instruction's data.
    pub open spec fn spec_bytes(self) -> Seq<u8> {
        UPDATE_SECONDS_TO_FULL_UNLOCK_IX_DISCM@ + le_bytes(self.0.seconds_to_full_unlock as nat, 8)
    }

    /// Reads the instruction's data from the front of `buf`; bytes after it are ignored.
    pub fn deserialize(buf: &[u8]) -> (r: Result<Self, IxError>)
        ensures
            buf@.len() < 8 ==> r == Err::<Self, IxError>(IxError::UnexpectedEof),
            buf@.len() >= 8 && !has_discriminator(buf@, UPDATE_SECONDS_TO_FULL_UNLOCK_IX_DISCM@) ==> r == Err::<
                Self,
                IxError,
            >(IxError::DiscriminatorMismatch),
            has_discriminator(buf@, UPDATE_SECONDS_TO_FULL_UNLOCK_IX_DISCM@) && buf@.len() < 16 ==> r == Err::<
                Self,
                IxError,
            >(IxError::InvalidArgs),
            has_discriminator(buf@, UPDATE_SECONDS_TO_FULL_UNLOCK_IX_DISCM@) && buf@.len() >= 16 ==> r == Ok::<
                Self,
                IxError,
            >(
                UpdateSecondsToFullUnlockIxData(
                    UpdateSecondsToFullUnlockIxArgs { seconds_to_full_unlock: le_value(buf@.subrange(8, 16)) as u64 },
                ),
            ),
    {
        let rest = strip_discriminator(buf, &UPDATE_SECONDS_TO_FULL_UNLOCK_IX_DISCM)?;
        let seconds_to_full_unlock = read_u64_arg(rest)?;
        assert(buf@.len() >= 16 ==> rest@.subrange(0, 8) =~= buf@.subrange(8, 16));
        Ok(UpdateSecondsToFullUnlockIxData(UpdateSecondsToFullUnlockIxArgs { seconds_to_full_unlock }))
    }

    /// Appends the instruction's data to `writer`.
    pub fn serialize(&self, writer: &mut Vec<u8>) -> (r: Result<(), IxError>)
        ensures
            r is Ok,
            final(writer)@ == old(writer)@ + self.spec_bytes(),
    {
        write_u64_ix(writer, &UPDATE_SECONDS_TO_FULL_UNLOCK_IX_DISCM, self.0.seconds_to_full_unlock)
    }

    /// Returns the instruction's data as a fresh vector.
    pub fn try_to_vec(&self) -> (r: Result<Vec<u8>, IxError>)
        ensures
            r is Ok,
            r->Ok_0@ == self.spec_bytes(),
    {
        let mut data = Vec::new();
        self.serialize(&mut data)?;
        Ok(data)
    }
}

/// Data of the instruction for the placeholder instruction: its discriminator alone.
#[derive(Clone, Copy, Debug, PartialEq, Eq, Structural)]
pub struct DummyIxData;

impl DummyIxData {
    /// The bytes of this instruction's data.
    pub open spec fn spec_bytes(self) -> Seq<u8> {
        DUMMY_IX_DISCM@
    }

    /// Reads the instruction's data from the front of `buf`; bytes after it are ignored.
    pub fn deserialize(buf: &[u8]) -> (r: Result<Self, IxError>)
        ensures
            buf@.len() < 8 ==> r == Err::<Self, IxError>(IxError::UnexpectedEof),
            buf@.len() >= 8 && !has_discriminator(buf@, DUMMY_IX_DISCM@) ==> r == Err::<
                Self,
                IxError,
            >(IxError::DiscriminatorMismatch),
            has_discriminator(buf@, DUMMY_IX_DISCM@) ==> r == Ok::<Self, IxError>(
                DummyIxData,
            ),
    {
        let _ = strip_discriminator(buf, &DUMMY_IX_DISCM)?;
        Ok(DummyIxData)
    }

    /// Appends the instruction's data to `writer`.
    pub fn serialize(&self, writer: &mut Vec<u8>) -> (r: Result<(), IxError>)
        ensures
            r is Ok,
            final(writer)@ == old(writer)@ + self.spec_bytes(),
    {
        writer.extend_from_slice(&DUMMY_IX_DISCM);
        Ok(())
    }

    /// Returns the instruction's data as a fresh vector.
    pub fn try_to_vec(&self) -> (r: Result<Vec<u8>, IxError>)
        ensures
            r is Ok,
            r->Ok_0@ == self.spec_bytes(),
    {
        let mut data = Vec::new();
        self.serialize(&mut data)?;
        Ok(data)
    }
}

/// Any instruction of the program, with its arguments.
#[derive(Clone, Copy, Debug, PartialEq)]
pub enum StakeForFeeProgramIx {
    InitializeVault(InitializeVaultIxArgs),
    InitializeStakeEscrow,
    Stake(StakeIxArgs),
    ClaimFee(ClaimFeeIxArgs),
    RequestUnstake(RequestUnstakeIxArgs),
    CancelUnstake,
    Withdraw,
    ClaimFeeCrank,
    UpdateUnstakeLockDuration(UpdateUnstakeLockDurationIxArgs),
    UpdateSecondsToFullUnlock(UpdateSecondsToFullUnlockIxArgs),
    Dummy,
}

impl StakeForFeeProgramIx {
    /// The bytes of the instruction's data: its discriminator, then its arguments.
    pub open spec fn spec_bytes(self) -> Seq<u8> {
        match self {
            StakeForFeeProgramIx::InitializeVault(args) => InitializeVaultIxData(args).spec_bytes(),
            StakeForFeeProgramIx::InitializeStakeEscrow => InitializeStakeEscrowIxData.spec_bytes(),
            StakeForFeeProgramIx::Stake(args) => StakeIxData(args).spec_bytes(),
            StakeForFeeProgramIx::ClaimFee(args) => ClaimFeeIxData(args).spec_bytes(),
            StakeForFeeProgramIx::RequestUnstake(args) => RequestUnstakeIxData(args).spec_bytes(),
            StakeForFeeProgramIx::CancelUnstake => CancelUnstakeIxData.spec_bytes(),
            StakeForFeeProgramIx::Withdraw => WithdrawIxData.spec_bytes(),
            StakeForFeeProgramIx::ClaimFeeCrank => ClaimFeeCrankIxData.spec_bytes(),
            StakeForFeeProgramIx::UpdateUnstakeLockDuration(args) => UpdateUnstakeLockDurationIxData(args).spec_bytes(),
            StakeForFeeProgramIx::UpdateSecondsToFullUnlock(args) => UpdateSecondsToFullUnlockIxData(args).spec_bytes(),
            StakeForFeeProgramIx::Dummy => DummyIxData.spec_bytes(),
        }
    }

    /// Reads an instruction from the front of `buf`, telling the instructions apart
    /// by their discriminators; bytes after the instruction are ignored.
    pub fn deserialize(buf: &[u8]) -> (r: Result<Self, IxError>)
        ensures
            buf@.len() < 8 ==> r == Err::<Self, IxError>(IxError::UnexpectedEof),
            buf@.len() >= 8 && !has_known_discriminator(buf@) ==> r == Err::<Self, IxError>(
                IxError::DiscriminatorMismatch,
            ),
            has_discriminator(buf@, INITIALIZE_VAULT_IX_DISCM@) && InitializeVaultParams::spec_padding_start(
                after_discriminator(buf@),
            ) is None ==> r == Err::<Self, IxError>(IxError::InvalidArgs),
            has_discriminator(buf@, INITIALIZE_VAULT_IX_DISCM@) && InitializeVaultParams::spec_padding_start(
                after_discriminator(buf@),
            ) is Some ==> r is Ok && r->Ok_0 is InitializeVault
                && r->Ok_0->InitializeVault_0.params.spec_parsed_from(after_discriminator(buf@)),
            has_discriminator(buf@, INITIALIZE_STAKE_ESCROW_IX_DISCM@) ==> r == Ok::<Self, IxError>(
                StakeForFeeProgramIx::InitializeStakeEscrow,
            ),
            has_discriminator(buf@, STAKE_IX_DISCM@) && buf@.len() < 16 ==> r == Err::<
                Self,
                IxError,
            >(IxError::InvalidArgs),
            has_discriminator(buf@, STAKE_IX_DISCM@) && buf@.len() >= 16 ==> r == Ok::<
                Self,
                IxError,
            >(
                StakeForFeeProgramIx::Stake(
                    StakeIxArgs { amount: le_value(buf@.subrange(8, 16)) as u64 },
                ),
            ),
            has_discriminator(buf@, CLAIM_FEE_IX_DISCM@) && buf@.len() < 16 ==> r == Err::<
                Self,
                IxError,
            >(IxError::InvalidArgs),
            has_discriminator(buf@, CLAIM_FEE_IX_DISCM@) && buf@.len() >= 16 ==> r == Ok::<
                Self,
                IxError,
            >(
                StakeForFeeProgramIx::ClaimFee(
                    ClaimFeeIxArgs { max_fee: le_value(buf@.subrange(8, 16)) as u64 },
                ),
            ),
            has_discriminator(buf@, REQUEST_UNSTAKE_IX_DISCM@) && buf@.len() < 16 ==> r == Err::<
                Self,
                IxError,
            >(IxError::InvalidArgs),
            has_discriminator(buf@, REQUEST_UNSTAKE_IX_DISCM@) && buf@.len() >= 16 ==> r == Ok::<
                Self,
                IxError,
            >(
                StakeForFeeProgramIx::RequestUnstake(
                    RequestUnstakeIxArgs { unstake_amount: le_value(buf@.subrange(8, 16)) as u64 },
                ),
            ),
            has_discriminator(buf@, CANCEL_UNSTAKE_IX_DISCM@) ==> r == Ok::<Self, IxError>(
                StakeForFeeProgramIx::CancelUnstake,
            ),
            has_discriminator(buf@, WITHDRAW_IX_DISCM@) ==> r == Ok::<Self, IxError>(
                StakeForFeeProgramIx::Withdraw,
            ),
            has_discriminator(buf@, CLAIM_FEE_CRANK_IX_DISCM@) ==> r == Ok::<Self, IxError>(
                StakeForFeeProgramIx::ClaimFeeCrank,
            ),
            has_discriminator(buf@, UPDATE_UNSTAKE_LOCK_DURATION_IX_DISCM@) && buf@.len() < 16 ==> r == Err::<
                Self,
                IxError,
            >(IxError::InvalidArgs),
            has_discriminator(buf@, UPDATE_UNSTAKE_LOCK_DURATION_IX_DISCM@) && buf@.len() >= 16 ==> r == Ok::<
                Self,
                IxError,
            >(
                StakeForFeeProgramIx::UpdateUnstakeLockDuration(
                    UpdateUnstakeLockDurationIxArgs { unstake_lock_duration: le_value(buf@.subrange(8, 16)) as u64 },
                ),
            ),
            has_discriminator(buf@, UPDATE_SECONDS_TO_FULL_UNLOCK_IX_DISCM@) && buf@.len() < 16 ==> r == Err::<
                Self,
                IxError,
            >(IxError::InvalidArgs),
            has_discriminator(buf@, UPDATE_SECONDS_TO_FULL_UNLOCK_IX_DISCM@) && buf@.len() >= 16 ==> r == Ok::<
                Self,
                IxError,
            >(
                StakeForFeeProgramIx::UpdateSecondsToFullUnlock(
                    UpdateSecondsToFullUnlockIxArgs { seconds_to_full_unlock: le_value(buf@.subrange(8, 16)) as u64 },
                ),
            ),
            has_discriminator(buf@, DUMMY_IX_DISCM@) ==> r == Ok::<Self, IxError>(
                StakeForFeeProgramIx::Dummy,
            ),
    {
        if buf.len() < 8 {
            return Err(IxError::UnexpectedEof);
        }
        if starts_with(buf, &INITIALIZE_VAULT_IX_DISCM) {
            let data = InitializeVaultIxData::deserialize(buf)?;
            Ok(StakeForFeeProgramIx::InitializeVault(data.0))
        } else if starts_with(buf, &INITIALIZE_STAKE_ESCROW_IX_DISCM) {
            Ok(StakeForFeeProgramIx::InitializeStakeEscrow)
        } else if starts_with(buf, &STAKE_IX_DISCM) {
            let data = StakeIxData::deserialize(buf)?;
            Ok(StakeForFeeProgramIx::Stake(data.0))
        } else if starts_with(buf, &CLAIM_FEE_IX_DISCM) {
            let data = ClaimFeeIxData::deserialize(buf)?;
            Ok(StakeForFeeProgramIx::ClaimFee(data.0))
        } else if starts_with(buf, &REQUEST_UNSTAKE_IX_DISCM) {
            let data = RequestUnstakeIxData::deserialize(buf)?;
            Ok(StakeForFeeProgramIx::RequestUnstake(data.0))
        } else if starts_with(buf, &CANCEL_UNSTAKE_IX_DISCM) {
            Ok(StakeForFeeProgramIx::CancelUnstake)
        } else if starts_with(buf, &WITHDRAW_IX_DISCM) {
            Ok(StakeForFeeProgramIx::Withdraw)
        } else if starts_with(buf, &CLAIM_FEE_CRANK_IX_DISCM) {
            Ok(StakeForFeeProgramIx::ClaimFeeCrank)
        } else if starts_with(buf, &UPDATE_UNSTAKE_LOCK_DURATION_IX_DISCM) {
            let data = UpdateUnstakeLockDurationIxData::deserialize(buf)?;
            Ok(StakeForFeeProgramIx::UpdateUnstakeLockDuration(data.0))
        } else if starts_with(buf, &UPDATE_SECONDS_TO_FULL_UNLOCK_IX_DISCM) {
            let data = UpdateSecondsToFullUnlockIxData::deserialize(buf)?;
            Ok(StakeForFeeProgramIx::UpdateSecondsToFullUnlock(data.0))
        } else if starts_with(buf, &DUMMY_IX_DISCM) {
            Ok(StakeForFeeProgramIx::Dummy)
        } else {
            Err(IxError::DiscriminatorMismatch)
        }
    }

    /// Appends the instruction's data to `writer`.
    pub fn serialize(&self, writer: &mut Vec<u8>) -> (r: Result<(), IxError>)
        ensures
            r is Ok,
            final(writer)@ == old(writer)@ + self.spec_bytes(),
    {
        match self {
            StakeForFeeProgramIx::InitializeVault(args) => InitializeVaultIxData(*args).serialize(writer),
            StakeForFeeProgramIx::InitializeStakeEscrow => InitializeStakeEscrowIxData.serialize(writer),
            StakeForFeeProgramIx::Stake(args) => StakeIxData(*args).serialize(writer),
            StakeForFeeProgramIx::ClaimFee(args) => ClaimFeeIxData(*args).serialize(writer),
            StakeForFeeProgramIx::RequestUnstake(args) => RequestUnstakeIxData(*args).serialize(writer),
            StakeForFeeProgramIx::CancelUnstake => CancelUnstakeIxData.serialize(writer),
            StakeForFeeProgramIx::Withdraw => WithdrawIxData.serialize(writer),
            StakeForFeeProgramIx::ClaimFeeCrank => ClaimFeeCrankIxData.serialize(writer),
            StakeForFeeProgramIx::UpdateUnstakeLockDuration(args) => UpdateUnstakeLockDurationIxData(*args).serialize(writer),
            StakeForFeeProgramIx::UpdateSecondsToFullUnlock(args) => UpdateSecondsToFullUnlockIxData(*args).serialize(writer),
            StakeForFeeProgramIx::Dummy => DummyIxData.serialize(writer),
        }
    }

    /// Returns the instruction's data as a fresh vector.
    pub fn try_to_vec(&self) -> (r: Result<Vec<u8>, IxError>)
        ensures
            r is Ok,
            r->Ok_0@ == self.spec_bytes(),
    {
        let mut data = Vec::new();
        self.serialize(&mut data)?;
        Ok(data)
    }
}

/// Reading back what was written: the data of an instruction with one 64-bit
/// argument starts with its discriminator, is sixteen bytes long, and its last
/// eight bytes decode to the argument.
pub proof fn lemma_u64_ix_round_trip(discm: Seq<u8>, value: u64)
    requires
        discm.len() == 8,
    ensures
        has_discriminator(discm + le_bytes(value as nat, 8), discm),
        (discm + le_bytes(value as nat, 8)).len() == 16,
        le_value((discm + le_bytes(value as nat, 8)).subrange(8, 16)) == value,
{
    let bytes = discm + le_bytes(value as nat, 8);
    lemma_le_bytes_len(value as nat, 8);
    assert(bytes.subrange(0, 8) =~= discm);
    assert(bytes.subrange(8, 16) =~= le_bytes(value as nat, 8));
    assert(byte_range(8) == 0x1_0000_0000_0000_0000) by {
        reveal_with_fuel(byte_range, 9);
    }
    lemma_le_round_trip(value as nat, 8);
}

/// No two instructions share a discriminator, so the data of an instruction
/// is never read as another one.
pub proof fn lemma_discriminators_distinct()
    ensures
        forall|buf: Seq<u8>|
            has_known_discriminator(buf) ==> #[trigger] discriminator_count(buf) == 1,
{
    assert forall|buf: Seq<u8>| has_known_discriminator(buf) implies #[trigger] discriminator_count(
        buf,
    ) == 1 by {
        let head = buf.subrange(0, 8);
        assert(head[0] == buf[0]);
    }
}

/// The number of instructions whose discriminator `buf` starts with.
pub open spec fn discriminator_count(buf: Seq<u8>) -> int {
    (if has_discriminator(buf, INITIALIZE_VAULT_IX_DISCM@) {
        1int
    } else {
        0int
    }) + (if has_discriminator(buf, INITIALIZE_STAKE_ESCROW_IX_DISCM@) {
        1int
    } else {
        0int
    }) + (if has_discriminator(buf, STAKE_IX_DISCM@) {
        1int
    } else {
        0int
    }) + (if has_discriminator(buf, CLAIM_FEE_IX_DISCM@) {
        1int
    } else {
        0int
    }) + (if has_discriminator(buf, REQUEST_UNSTAKE_IX_DISCM@) {
        1int
    } else {
        0int
    }) + (if has_discriminator(buf, CANCEL_UNSTAKE_IX_DISCM@) {
        1int
    } else {
        0int
    }) + (if has_discriminator(buf, WITHDRAW_IX_DISCM@) {
        1int
    } else {
        0int
    }) + (if has_discriminator(buf, CLAIM_FEE_CRANK_IX_DISCM@) {
        1int
    } else {
        0int
    }) + (if has_discriminator(buf, UPDATE_UNSTAKE_LOCK_DURATION_IX_DISCM@) {
        1int
    } else {
        0int
    }) + (if has_discriminator(buf, UPDATE_SECONDS_TO_FULL_UNLOCK_IX_DISCM@) {
        1int
    } else {
        0int
    }) + (if has_discriminator(buf, DUMMY_IX_DISCM@) {
        1int
    } else {
        0int
    })
}

} // verus!
