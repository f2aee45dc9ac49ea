//! The Protocol Buffers wire format, as far as messages of unsigned integer
//! fields need it.
//!
//! The bytes are written and read by `prost`; this module states what those
//! routines do, and proves that what is written is read back.

use vstd::prelude::*;

verus! {

/// Wire type code of a field that holds a varint.
pub const WIRE_VARINT: u8 = 0;

/// Largest wire type code.
pub const MAX_WIRE: u8 = 5;

/// Largest field number of a message.
pub const MAX_TAG: u32 = 0x1FFF_FFFF;

/// The varint encoding of `value`: seven bits per byte, least significant
/// group first, the high bit set on every byte but the last.
pub open spec fn varint(value: nat) -> Seq<u8>
    decreases value,
{
    if value < 0x80 {
        seq![value as u8]
    } else {
        seq![(value % 0x80 + 0x80) as u8] + varint(value / 0x80)
    }
}

/// The varint that starts at the front of `bytes`, as its value and its length
/// in bytes, where `count` bytes of it have been read already.
///
/// There is none where the bytes end before a byte without the high bit, where
/// ten bytes do not suffice, or where the tenth byte carries more than the one
/// bit that is left of 64.
pub open spec fn varint_from(bytes: Seq<u8>, count: nat) -> Option<(nat, nat)>
    decreases bytes.len(),
{
    if bytes.len() == 0 || count >= 10 {
        None
    } else if bytes[0] < 0x80 {
        if count == 9 && bytes[0] >= 2 {
            None
        } else {
            Some((bytes[0] as nat, 1))
        }
    } else {
        match varint_from(bytes.drop_first(), count + 1) {
            Some((value, len)) => Some(((bytes[0] - 0x80) as nat + 0x80 * value, len + 1)),
            None => None,
        }
    }
}

/// The varint at the front of `bytes`: its value and its length in bytes.
pub open spec fn varint_at(bytes: Seq<u8>) -> Option<(nat, nat)> {
    varint_from(bytes, 0)
}

/// The field key at the front of `bytes`: field number, wire type code and
/// the length of the key in bytes.
///
/// A key is a varint that fits 32 bits; its low three bits are the wire type
/// code, at most `MAX_WIRE`, and the rest is the field number, at least 1.
pub open spec fn key_at(bytes: Seq<u8>) -> Option<(u32, u8, nat)> {
    match varint_at(bytes) {
        Some((key, len)) => if key > u32::MAX || key % 8 > MAX_WIRE || key / 8 == 0 {
            None
        } else {
            Some(((key / 8) as u32, (key % 8) as u8, len))
        },
        None => None,
    }
}

/// The value of an unsigned integer field whose key announced wire type
/// `wire`, read from the front of `bytes`, and its length in bytes.
pub open spec fn uint64_at(wire: u8, bytes: Seq<u8>) -> Option<(nat, nat)> {
    if wire == WIRE_VARINT {
        varint_at(bytes)
    } else {
        None
    }
}

/// The bytes of one unsigned integer field: its key, then its value.
pub open spec fn uint64_field(tag: u32, value: u64) -> Seq<u8> {
    varint((tag * 8) as nat) + varint(value as nat)
}

/// The number of bytes that the value of a field takes which is passed over
/// unread, given the wire type code and field number of its key; `None` where
/// the bytes do not hold such a value. This is what `prost::encoding::skip_field`
/// consumes.
pub uninterp spec fn skipped_len(wire: u8, tag: u32, bytes: Seq<u8>) -> Option<nat>;

/// `rest` is the end of `bytes`: what is left behind some first bytes.
pub open spec fn is_rest(bytes: Seq<u8>, rest: Seq<u8>) -> bool {
    rest.len() <= bytes.len() && rest == bytes.skip(bytes.len() - rest.len())
}

/// The number of bytes of `bytes` that stand before `rest`.
pub open spec fn consumed(bytes: Seq<u8>, rest: Seq<u8>) -> nat {
    (bytes.len() - rest.len()) as nat
}

/// Exclusive bound on the value that is left of a 64-bit varint once `count`
/// bytes of it have been read.
pub open spec fn varint_limit(count: nat) -> nat
    decreases 9 - count,
{
    if count >= 9 {
        2
    } else {
        0x80 * varint_limit(count + 1)
    }
}

/// A varint that is found takes at least one byte and no more than there are.
pub proof fn lemma_varint_len(bytes: Seq<u8>, count: nat)
    ensures
        varint_from(bytes, count) matches Some((_, len)) ==> 1 <= len <= bytes.len(),
    decreases bytes.len(),
{
    if bytes.len() > 0 && count < 10 && bytes[0] >= 0x80 {
        lemma_varint_len(bytes.drop_first(), count + 1);
    }
}

/// A value written as a varint is read back, whatever follows it, and the
/// reader stops where the varint ends.
pub proof fn lemma_varint_read_back(value: nat, rest: Seq<u8>, count: nat)
    requires
        count <= 9,
        value < varint_limit(count),
    ensures
        varint_from(varint(value) + rest, count) == Some((value, varint(value).len())),
    decreases value,
{
    let bytes = varint(value) + rest;
    if value < 0x80 {
        assert(bytes[0] == value as u8);
    } else {
        assert(count < 9);
        assert(bytes[0] == (value % 0x80 + 0x80) as u8);
        assert(bytes.drop_first() =~= varint(value / 0x80) + rest);
        lemma_varint_read_back(value / 0x80, rest, count + 1);
    }
}

/// The value of a varint that is found is within the bound: a varint at the
/// front of the bytes holds no more than 64 bits.
pub proof fn lemma_varint_value_bound(bytes: Seq<u8>, count: nat)
    ensures
        varint_from(bytes, count) matches Some((value, _)) ==> value < varint_limit(count),
    decreases bytes.len(),
{
    reveal_with_fuel(varint_limit, 10);
    if bytes.len() > 0 && count < 10 && bytes[0] >= 0x80 {
        lemma_varint_value_bound(bytes.drop_first(), count + 1);
    }
}

/// Every 64-bit value is within the bound of a varint that starts, and
/// nothing else is.
pub proof fn lemma_varint_limit_of_u64(value: u64)
    ensures
        value < varint_limit(0),
        varint_limit(0) == u64::MAX + 1,
{
    reveal_with_fuel(varint_limit, 10);
}

/// Appends an unsigned integer field to `buf`.
///
/// Calls `prost::encoding::uint64::encode`, which writes the key of a varint
/// field with number `tag` and then `value`, both as varints. The field number
/// has to be one that a message may use.
#[verifier::external_body]
pub(crate) fn encode_uint64(tag: u32, value: u64, buf: &mut Vec<u8>)
    requires
        1 <= tag <= MAX_TAG,
    ensures
        final(buf)@ == old(buf)@ + uint64_field(tag, value),
{
    prost::encoding::uint64::encode(tag, &value, buf);
}

/// Reads a field key from the front of `bytes`.
///
/// Calls `prost::encoding::decode_key`, which reads one varint and splits it
/// into field number and wire type; it fails where there is no varint, where
/// the varint exceeds 32 bits, where the wire type code is above `MAX_WIRE`,
/// and where the field number is 0. The bytes behind the key are handed back.
#[verifier::external_body]
pub(crate) fn decode_key<'a>(bytes: &'a [u8]) -> (r: Option<(u32, u8, &'a [u8])>)
    ensures
        match r {
            Some((tag, wire, rest)) => is_rest(bytes@, rest@) && key_at(bytes@) == Some(
                (tag, wire, consumed(bytes@, rest@)),
            ),
            None => key_at(bytes@) is None,
        },
{
    let mut rest: &[u8] = bytes;
    match prost::encoding::decode_key(&mut rest) {
        Ok((tag, wire_type)) => Some((tag, wire_type as u8, rest)),
        Err(_) => None,
    }
}

/// Reads the value of an unsigned integer field from the front of `bytes`.
///
/// Calls `prost::encoding::uint64::merge`, which fails unless the wire type is
/// that of a varint, and then reads one varint. The bytes behind the value are
/// handed back.
#[verifier::external_body]
pub(crate) fn merge_uint64<'a>(wire: u8, bytes: &'a [u8]) -> (r: Option<(u64, &'a [u8])>)
    requires
        wire <= MAX_WIRE,
    ensures
        match r {
            Some((value, rest)) => is_rest(bytes@, rest@) && uint64_at(wire, bytes@) == Some(
                (value as nat, consumed(bytes@, rest@)),
            ),
            None => uint64_at(wire, bytes@) is None,
        },
{
    let mut rest: &[u8] = bytes;
    let mut value: u64 = 0;
    let wire_type = prost::encoding::WireType::try_from(u64::from(wire)).ok()?;
    prost::encoding::uint64::merge(wire_type, &mut value, &mut rest, Default::default()).ok()?;
    Some((value, rest))
}

/// Passes over the value of a field that the reader does not know.
///
/// Calls `prost::encoding::skip_field` with a fresh decoding context. The
/// bytes behind the value are handed back; how many bytes the value takes is
/// left to `prost` and only named here.
#[verifier::external_body]
pub(crate) fn skip_field<'a>(wire: u8, tag: u32, bytes: &'a [u8]) -> (r: Option<&'a [u8]>)
    requires
        wire <= MAX_WIRE,
    ensures
        match r {
            Some(rest) => is_rest(bytes@, rest@) && skipped_len(wire, tag, bytes@) == Some(
                consumed(bytes@, rest@),
            ),
            None => skipped_len(wire, tag, bytes@) is None,
        },
{
    let mut rest: &[u8] = bytes;
    let wire_type = prost::encoding::WireType::try_from(u64::from(wire)).ok()?;
    prost::encoding::skip_field(wire_type, tag, &mut rest, Default::default()).ok()?;
    Some(rest)
}

} // verus!
