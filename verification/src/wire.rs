use vstd::prelude::*;

verus! {

/// The `width` little-endian bytes of `value`, low byte first.
pub open spec fn le_bytes(value: nat, width: nat) -> Seq<u8>
    decreases width,
{
    if width == 0 {
        Seq::empty()
    } else {
        seq![(value % 256) as u8] + le_bytes(value / 256, (width - 1) as nat)
    }
}

/// The number whose little-endian bytes are `bytes`.
pub open spec fn le_value(bytes: Seq<u8>) -> nat
    decreases bytes.len(),
{
    if bytes.len() == 0 {
        0
    } else {
        bytes[0] as nat + 256 * le_value(bytes.drop_first())
    }
}

/// `256^width`: the number of values that `width` bytes can hold.
pub open spec fn byte_range(width: nat) -> nat
    decreases width,
{
    if width == 0 {
        1
    } else {
        256 * byte_range((width - 1) as nat)
    }
}

/// Encoding to little-endian bytes gives `width` bytes.
pub proof fn lemma_le_bytes_len(value: nat, width: nat)
    ensures
        le_bytes(value, width).len() == width,
    decreases width,
{
    if width > 0 {
        lemma_le_bytes_len(value / 256, (width - 1) as nat);
    }
}

/// Decoding the little-endian bytes of a value that fits gives the value back.
pub proof fn lemma_le_round_trip(value: nat, width: nat)
    requires
        value < byte_range(width),
    ensures
        le_value(le_bytes(value, width)) == value,
    decreases width,
{
    if width > 0 {
        let rest = le_bytes(value / 256, (width - 1) as nat);
        let all = le_bytes(value, width);
        lemma_le_bytes_len(value / 256, (width - 1) as nat);
        assert(all.drop_first() =~= rest);
        lemma_le_round_trip(value / 256, (width - 1) as nat);
    }
}

/// Any sequence of bytes decodes to a value that fits in as many bytes, and encodes
/// back to itself.
pub proof fn lemma_le_value_round_trip(bytes: Seq<u8>)
    ensures
        le_value(bytes) < byte_range(bytes.len()),
        le_bytes(le_value(bytes), bytes.len()) == bytes,
    decreases bytes.len(),
{
    if bytes.len() > 0 {
        let tail = bytes.drop_first();
        lemma_le_value_round_trip(tail);
        let v = le_value(bytes);
        assert(v % 256 == bytes[0] as nat && v / 256 == le_value(tail)) by (nonlinear_arith)
            requires
                v == bytes[0] as nat + 256 * le_value(tail),
                bytes[0] < 256,
        ;
        assert(le_bytes(v, bytes.len()) =~= bytes);
    }
}

/// Failure reported by the byte codec.
#[verifier::external_type_specification]
#[verifier::external_body]
pub struct ExIoError(std::io::Error);

/// Encodes a 16-bit value with `borsh::to_vec`: never fails, and gives the two
/// little-endian bytes of the value.
#[verifier::external_body]
pub(crate) fn encode_u16(value: u16) -> (r: Result<Vec<u8>, std::io::Error>)
    ensures
        r is Ok,
        r->Ok_0@ == le_bytes(value as nat, 2),
{
    borsh::to_vec(&value)
}

/// Encodes a 64-bit value with `borsh::to_vec`: never fails, and gives the eight
/// little-endian bytes of the value.
#[verifier::external_body]
pub(crate) fn encode_u64(value: u64) -> (r: Result<Vec<u8>, std::io::Error>)
    ensures
        r is Ok,
        r->Ok_0@ == le_bytes(value as nat, 8),
{
    borsh::to_vec(&value)
}

/// The encoding of an optional 64-bit value: a zero byte for none, a one byte and
/// the eight little-endian bytes of the value for some.
pub open spec fn option_u64_bytes(value: Option<u64>) -> Seq<u8> {
    match value {
        None => seq![0u8],
        Some(v) => seq![1u8] + le_bytes(v as nat, 8),
    }
}

/// Encodes an optional 64-bit value with `borsh::to_vec`: never fails, and gives a
/// tag byte followed, for some value, by its eight little-endian bytes.
#[verifier::external_body]
pub(crate) fn encode_option_u64(value: Option<u64>) -> (r: Result<Vec<u8>, std::io::Error>)
    ensures
        r is Ok,
        r->Ok_0@ == option_u64_bytes(value),
{
    borsh::to_vec(&value)
}

/// Decodes a 16-bit value from the front of `buf` with borsh's `deserialize`:
/// fails when fewer than two bytes are there, else reads them as little-endian.
#[verifier::external_body]
pub(crate) fn decode_u16(buf: &[u8]) -> (r: Result<u16, std::io::Error>)
    ensures
        buf@.len() < 2 ==> r is Err,
        buf@.len() >= 2 ==> r is Ok && r->Ok_0 as nat == le_value(buf@.subrange(0, 2)),
{
    let mut reader = buf;
    <u16 as borsh::BorshDeserialize>::deserialize(&mut reader)
}

/// Decodes a 64-bit value from the front of `buf` with borsh's `deserialize`:
/// fails when fewer than eight bytes are there, else reads them as little-endian.
#[verifier::external_body]
pub(crate) fn decode_u64(buf: &[u8]) -> (r: Result<u64, std::io::Error>)
    ensures
        buf@.len() < 8 ==> r is Err,
        buf@.len() >= 8 ==> r is Ok && r->Ok_0 as nat == le_value(buf@.subrange(0, 8)),
{
    let mut reader = buf;
    <u64 as borsh::BorshDeserialize>::deserialize(&mut reader)
}

/// What decoding an optional 64-bit value from the front of `buf` gives, or none
/// where `buf` does not start with such an encoding.
pub open spec fn option_u64_parse(buf: Seq<u8>) -> Option<Option<u64>> {
    if buf.len() >= 1 && buf[0] == 0 {
        Some(None)
    } else if buf.len() >= 9 && buf[0] == 1 {
        Some(Some(le_value(buf.subrange(1, 9)) as u64))
    } else {
        None
    }
}

/// Decodes an optional 64-bit value from the front of `buf` with borsh's
/// `deserialize`: a zero byte is none, a one byte is followed by the eight
/// little-endian bytes of the value, and anything else fails.
#[verifier::external_body]
pub(crate) fn decode_option_u64(buf: &[u8]) -> (r: Result<Option<u64>, std::io::Error>)
    ensures
        option_u64_parse(buf@) is None ==> r is Err,
        option_u64_parse(buf@) is Some ==> r is Ok && r->Ok_0 == option_u64_parse(buf@)->Some_0,
{
    let mut reader = buf;
    <Option<u64> as borsh::BorshDeserialize>::deserialize(&mut reader)
}

} // verus!
