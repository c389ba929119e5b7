//! The parts of the Protocol Buffers wire format that the payload uses.
use prost::bytes::Bytes;
use vstd::prelude::*;

verus! {

/// The smallest field number that Protocol Buffers allows.
pub const MIN_TAG: u32 = 1;

/// The largest field number that Protocol Buffers allows.
pub const MAX_TAG: u32 = 536870911;

/// The wire type of a length-delimited field (`bytes`, `string`, messages).
pub const LENGTH_DELIMITED: u32 = 2;

/// Base-128 varint: seven bits per byte, least significant group first,
/// the high bit set on every byte but the last.
pub open spec fn varint(v: nat) -> Seq<u8>
    decreases v,
{
    if v < 128 {
        seq![v as u8]
    } else {
        seq![(v % 128 + 128) as u8] + varint(v / 128)
    }
}

/// The key that opens a field: its number and its wire type in one varint.
pub open spec fn field_key(tag: nat, wire_type: nat) -> Seq<u8> {
    varint(tag * 8 + wire_type)
}

/// A length-delimited field: its key, the payload's length, the payload.
pub open spec fn length_delimited_field(tag: nat, payload: Seq<u8>) -> Seq<u8> {
    field_key(tag, LENGTH_DELIMITED as nat) + varint(payload.len()) + payload
}

/// Relies on prost::encoding::bytes::encode: it appends to `buf` the key of
/// field `tag` with the length-delimited wire type, the varint of the
/// payload's length and the payload, each through `Vec<u8>`'s `BufMut`,
/// which appends.
#[verifier::external_body]
pub(crate) fn put_bytes_field(tag: u32, value: &Vec<u8>, buf: &mut Vec<u8>)
    requires
        MIN_TAG <= tag <= MAX_TAG,
    ensures
        final(buf)@ == old(buf)@ + length_delimited_field(tag as nat, value@),
{
    prost::encoding::bytes::encode(tag, value, buf)
}

/// The immutable shared byte buffer that transports take their payloads in.
#[verifier::external_type_specification]
#[verifier::external_body]
pub struct ExBytes(Bytes);

/// The bytes that a `Bytes` buffer holds, in order.
pub uninterp spec fn bytes_content(b: Bytes) -> Seq<u8>;

/// Relies on `From<Vec<u8>> for Bytes` (bytes crate): the buffer takes over
/// the vector's storage and holds exactly its bytes.
#[verifier::external_body]
pub(crate) fn bytes_from_vec(v: Vec<u8>) -> (r: Bytes)
    ensures
        bytes_content(r) == v@,
{
    Bytes::from(v)
}

} // verus!
