use crate::instructions::IxError;
use crate::wire::decode_option_u64;
use crate::wire::decode_u16;
use crate::wire::decode_u64;
use crate::wire::encode_option_u64;
use crate::wire::encode_u16;
use crate::wire::encode_u64;
use crate::wire::le_bytes;
use crate::wire::le_value;
use crate::wire::option_u64_bytes;
use crate::wire::option_u64_parse;
use vstd::prelude::*;
use vstd::slice::slice_subrange;

verus! {

/// Number of reserved bytes that close the vault parameters.
pub const PARAMS_PADDING_LEN: usize = 64;

/// Parameters a vault is created with, as they travel in instruction data.
#[derive(Clone, Copy, Debug, PartialEq)]
pub struct InitializeVaultParams {
    pub top_list_length: u16,
    pub seconds_to_full_unlock: u64,
    pub unstake_lock_duration: u64,
    pub start_fee_distribute_timestamp: Option<u64>,
    pub padding: [u8; 64],
}

impl InitializeVaultParams {
    /// The bytes of the parameters: each field in order, integers little-endian.
    pub open spec fn spec_bytes(self) -> Seq<u8> {
        le_bytes(self.top_list_length as nat, 2) + le_bytes(self.seconds_to_full_unlock as nat, 8)
            + le_bytes(self.unstake_lock_duration as nat, 8) + option_u64_bytes(
            self.start_fee_distribute_timestamp,
        ) + self.padding@
    }

    /// Where the padding starts in `buf`, or none where `buf` does not start with
    /// encoded parameters.
    pub open spec fn spec_padding_start(buf: Seq<u8>) -> Option<int> {
        if buf.len() < 18 {
            None
        } else {
            match option_u64_parse(buf.subrange(18, buf.len() as int)) {
                None => None,
                Some(start) => {
                    let at: int = if start is Some {
                        27
                    } else {
                        19
                    };
                    if buf.len() < at + 64 {
                        None
                    } else {
                        Some(at)
                    }
                },
            }
        }
    }

    /// Whether `self` is what the front of `buf` decodes to.
    pub open spec fn spec_parsed_from(self, buf: Seq<u8>) -> bool {
        &&& Self::spec_padding_start(buf) is Some
        &&& self.top_list_length as nat == le_value(buf.subrange(0, 2))
        &&& self.seconds_to_full_unlock as nat == le_value(buf.subrange(2, 10))
        &&& self.unstake_lock_duration as nat == le_value(buf.subrange(10, 18))
        &&& Some(self.start_fee_distribute_timestamp) == option_u64_parse(
            buf.subrange(18, buf.len() as int),
        )
        &&& self.padding@ == buf.subrange(
            Self::spec_padding_start(buf)->Some_0,
            Self::spec_padding_start(buf)->Some_0 + 64,
        )
    }

    /// Reads the parameters from the front of `buf`; bytes after them are ignored.
    pub fn deserialize(buf: &[u8]) -> (r: Result<Self, IxError>)
        ensures
            Self::spec_padding_start(buf@) is None ==> r == Err::<Self, IxError>(
                IxError::InvalidArgs,
            ),
            Self::spec_padding_start(buf@) is Some ==> r is Ok && r->Ok_0.spec_parsed_from(buf@),
    {
        let top_list_length = match decode_u16(buf) {
            Ok(v) => v,
            Err(_) => {
                return Err(IxError::InvalidArgs);
            },
        };
        let after_length = slice_subrange(buf, 2, buf.len());
        let seconds_to_full_unlock = match decode_u64(after_length) {
            Ok(v) => v,
            Err(_) => {
                return Err(IxError::InvalidArgs);
            },
        };
        assert(after_length@.subrange(0, 8) =~= buf@.subrange(2, 10));
        let after_unlock = slice_subrange(buf, 10, buf.len());
        let unstake_lock_duration = match decode_u64(after_unlock) {
            Ok(v) => v,
            Err(_) => {
                return Err(IxError::InvalidArgs);
            },
        };
        assert(after_unlock@.subrange(0, 8) =~= buf@.subrange(10, 18));
        let after_lock = slice_subrange(buf, 18, buf.len());
        let start_fee_distribute_timestamp = match decode_option_u64(after_lock) {
            Ok(v) => v,
            Err(_) => {
                return Err(IxError::InvalidArgs);
            },
        };
        let at: usize = if start_fee_distribute_timestamp.is_some() {
            27
        } else {
            19
        };
        if buf.len() < at + 64 {
            return Err(IxError::InvalidArgs);
        }
        let mut padding = [0u8;64];
        let mut i: usize = 0;
        while i < 64
            invariant
                i <= 64,
                at <= 27,
                at + 64 <= buf@.len(),
                forall|k: int| 0 <= k < i ==> padding@[k] == buf@[at + k],
            decreases 64 - i,
        {
            padding[i] = buf[at + i];
            i += 1;
        }
        assert(padding@ =~= buf@.subrange(at as int, at + 64));
        Ok(
            InitializeVaultParams {
                top_list_length,
                seconds_to_full_unlock,
                unstake_lock_duration,
                start_fee_distribute_timestamp,
                padding,
            },
        )
    }

    /// Appends the bytes of the parameters to `writer`.
    pub fn serialize(&self, writer: &mut Vec<u8>) -> (r: Result<(), IxError>)
        ensures
            r is Ok,
            final(writer)@ == old(writer)@ + self.spec_bytes(),
    {
        let length_bytes = match encode_u16(self.top_list_length) {
            Ok(bytes) => bytes,
            Err(_) => {
                return Err(IxError::EncodingFailed);
            },
        };
        let unlock_bytes = match encode_u64(self.seconds_to_full_unlock) {
            Ok(bytes) => bytes,
            Err(_) => {
                return Err(IxError::EncodingFailed);
            },
        };
        let lock_bytes = match encode_u64(self.unstake_lock_duration) {
            Ok(bytes) => bytes,
            Err(_) => {
                return Err(IxError::EncodingFailed);
            },
        };
        let start_bytes = match encode_option_u64(self.start_fee_distribute_timestamp) {
            Ok(bytes) => bytes,
            Err(_) => {
                return Err(IxError::EncodingFailed);
            },
        };
        writer.extend_from_slice(length_bytes.as_slice());
        writer.extend_from_slice(unlock_bytes.as_slice());
        writer.extend_from_slice(lock_bytes.as_slice());
        writer.extend_from_slice(start_bytes.as_slice());
        writer.extend_from_slice(&self.padding);
        assert(final(writer)@ =~= old(writer)@ + self.spec_bytes());
        Ok(())
    }
}

} // verus!
