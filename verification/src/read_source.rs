//! The read source: the address of the data that a storage request reads.
//!
//! A request carries its read source as an opaque blob, the wire encoding of
//! three unsigned integers. This module writes and reads that encoding.

use crate::database_name::{parse_database_name, parsed_name, NameError, NameErrorView};
use crate::wire::{
    decode_key, encode_uint64, key_at, lemma_varint_len, lemma_varint_limit_of_u64,
    lemma_varint_read_back, merge_uint64, skip_field, skipped_len, uint64_at, uint64_field, varint,
    varint_at, WIRE_VARINT,
};
use vstd::prelude::*;

verus! {

/// Field number of the organization id.
pub const ORG_ID_TAG: u32 = 1;

/// Field number of the bucket id.
pub const BUCKET_ID_TAG: u32 = 2;

/// Field number of the partition id.
pub const PARTITION_ID_TAG: u32 = 3;

/// Identifies what a storage request reads.
#[derive(Clone, Copy, Debug, PartialEq, Eq, Structural)]
pub struct ReadSource {
    pub org_id: u64,
    pub bucket_id: u64,
    pub partition_id: u64,
}

impl ReadSource {
    /// The read source whose ids are all zero, as an empty encoding gives it.
    pub open spec fn zero() -> ReadSource {
        ReadSource { org_id: 0, bucket_id: 0, partition_id: 0 }
    }

    /// The bytes that stand for one id: none for zero, else the field.
    pub open spec fn field(tag: u32, value: u64) -> Seq<u8> {
        if value == 0 {
            Seq::empty()
        } else {
            uint64_field(tag, value)
        }
    }

    /// The wire encoding: the ids that are not zero, by field number.
    pub open spec fn encoded(self) -> Seq<u8> {
        Self::field(ORG_ID_TAG, self.org_id) + Self::field(BUCKET_ID_TAG, self.bucket_id)
            + Self::field(PARTITION_ID_TAG, self.partition_id)
    }

    /// This read source with the id of field `tag` replaced.
    pub open spec fn with_field(self, tag: u32, value: u64) -> ReadSource {
        if tag == ORG_ID_TAG {
            ReadSource { org_id: value, ..self }
        } else if tag == BUCKET_ID_TAG {
            ReadSource { bucket_id: value, ..self }
        } else {
            ReadSource { partition_id: value, ..self }
        }
    }

    /// What reading the fields in `bytes` makes of this read source: each known
    /// field replaces the id it stands for, unknown fields are passed over, and
    /// anything that is no field makes the reading fail.
    pub open spec fn merged(self, bytes: Seq<u8>) -> Option<ReadSource>
        decreases bytes.len(),
    {
        if bytes.len() == 0 {
            Some(self)
        } else {
            match key_at(bytes) {
                Some((tag, wire, key_len)) => {
                    let body = bytes.skip(key_len as int);
                    let value_len = if tag <= PARTITION_ID_TAG {
                        match uint64_at(wire, body) {
                            Some((_, len)) => Some(len),
                            None => None,
                        }
                    } else {
                        skipped_len(wire, tag, body)
                    };
                    let next = if tag <= PARTITION_ID_TAG {
                        self.with_field(tag, uint64_at(wire, body).unwrap().0 as u64)
                    } else {
                        self
                    };
                    match value_len {
                        Some(len) => if 1 <= key_len <= bytes.len() && len <= body.len() {
                            next.merged(body.skip(len as int))
                        } else {
                            None
                        },
                        None => None,
                    }
                },
                None => None,
            }
        }
    }

    /// The read source that `bytes` encode, if they encode one.
    pub open spec fn decoded(bytes: Seq<u8>) -> Option<ReadSource> {
        Self::zero().merged(bytes)
    }

    /// Encodes the read source for the wire.
    pub fn encode(&self) -> (bytes: Vec<u8>)
        ensures
            bytes@ == self.encoded(),
    {
        let mut bytes: Vec<u8> = Vec::new();
        if self.org_id != 0 {
            encode_uint64(ORG_ID_TAG, self.org_id, &mut bytes);
        }
        if self.bucket_id != 0 {
            encode_uint64(BUCKET_ID_TAG, self.bucket_id, &mut bytes);
        }
        if self.partition_id != 0 {
            encode_uint64(PARTITION_ID_TAG, self.partition_id, &mut bytes);
        }
        bytes
    }

    /// Decodes a read source from its wire encoding.
    pub fn decode(bytes: &[u8]) -> (r: Option<ReadSource>)
        ensures
            r == Self::decoded(bytes@),
    {
        let mut source = ReadSource { org_id: 0, bucket_id: 0, partition_id: 0 };
        let mut rest: &[u8] = bytes;
        while rest.len() > 0
            invariant
                source.merged(rest@) == Self::decoded(bytes@),
            decreases rest.len(),
        {
            proof {
                lemma_varint_len(rest@, 0);
            }
            let (tag, wire, body) = match decode_key(rest) {
                Some(key) => key,
                None => { return None; },
            };
            if tag <= PARTITION_ID_TAG {
                proof {
                    lemma_varint_len(body@, 0);
                }
                match merge_uint64(wire, body) {
                    Some((value, tail)) => {
                        if tag == ORG_ID_TAG {
                            source.org_id = value;
                        } else if tag == BUCKET_ID_TAG {
                            source.bucket_id = value;
                        } else {
                            source.partition_id = value;
                        }
                        rest = tail;
                    },
                    None => { return None; },
                }
            } else {
                match skip_field(wire, tag, body) {
                    Some(tail) => {
                        rest = tail;
                    },
                    None => { return None; },
                }
            }
        }
        Some(source)
    }

    /// Reading one written field replaces the id that the field stands for and
    /// goes on with what follows the field.
    pub proof fn lemma_merge_field(self, tag: u32, value: u64, rest: Seq<u8>)
        requires
            ORG_ID_TAG <= tag <= PARTITION_ID_TAG,
        ensures
            self.merged(Self::field(tag, value) + rest) == if value == 0 {
                self.merged(rest)
            } else {
                self.with_field(tag, value).merged(rest)
            },
    {
        if value == 0 {
            assert(Self::field(tag, value) + rest =~= rest);
        } else {
            let key = varint((tag * 8) as nat);
            let body = varint(value as nat) + rest;
            let bytes = Self::field(tag, value) + rest;
            assert(key =~= seq![(tag * 8) as u8]);
            assert(bytes =~= key + body);
            assert(bytes[0] == (tag * 8) as u8);
            assert(varint_at(bytes) == Some(((tag * 8) as nat, 1nat)));
            assert(key_at(bytes) == Some((tag, WIRE_VARINT, 1nat)));
            assert(bytes.skip(1) =~= body);
            lemma_varint_limit_of_u64(value);
            lemma_varint_read_back(value as nat, rest, 0);
            lemma_varint_len(body, 0);
            assert(body.skip(varint(value as nat).len() as int) =~= rest);
        }
    }

    /// Decoding what `encode` wrote gives the read source back.
    pub proof fn lemma_decode_encoded(self)
        ensures
            Self::decoded(self.encoded()) == Some(self),
    {
        let empty = Seq::<u8>::empty();
        let bucket = Self::field(BUCKET_ID_TAG, self.bucket_id);
        let partition = Self::field(PARTITION_ID_TAG, self.partition_id);
        let first = Self::zero().with_field(ORG_ID_TAG, self.org_id);
        let second = first.with_field(BUCKET_ID_TAG, self.bucket_id);
        assert(self.encoded() =~= Self::field(ORG_ID_TAG, self.org_id) + (bucket + partition));
        Self::zero().lemma_merge_field(ORG_ID_TAG, self.org_id, bucket + partition);
        first.lemma_merge_field(BUCKET_ID_TAG, self.bucket_id, partition);
        assert(partition =~= partition + empty);
        second.lemma_merge_field(PARTITION_ID_TAG, self.partition_id, empty);
        assert(second.with_field(PARTITION_ID_TAG, self.partition_id) == self);
    }
}

/// The partition id of every read source that is made from a database name:
/// the largest 32-bit value.
pub const ANY_PARTITION_ID: u64 = 0xFFFF_FFFF;

/// A blob together with a name for the type of what it encodes.
#[derive(Clone, Debug, PartialEq, Eq)]
pub struct Any {
    pub type_url: String,
    pub value: Vec<u8>,
}

/// What an `Any` holds: the characters of the type name and the bytes of the
/// blob.
pub struct AnyView {
    pub type_url: Seq<char>,
    pub value: Seq<u8>,
}

impl View for Any {
    type V = AnyView;

    open spec fn view(&self) -> AnyView {
        AnyView { type_url: self.type_url@, value: self.value@ }
    }
}

/// The read source that requests against the database `name` carry, or why
/// the name gives none.
pub open spec fn read_source_of(name: Seq<char>) -> Result<ReadSource, NameErrorView> {
    match parsed_name(name) {
        Ok((org_id, bucket_id)) => Ok(
            ReadSource { org_id, bucket_id, partition_id: ANY_PARTITION_ID },
        ),
        Err(e) => Err(e),
    }
}

/// The blob that carries `source`: its wire encoding under the placeholder
/// type name.
pub open spec fn blob_of(source: ReadSource) -> AnyView {
    AnyView { type_url: "/TODO"@, value: source.encoded() }
}

/// The blob that requests against the database `name` carry, or why the name
/// gives none.
pub open spec fn made_read_source(name: Seq<char>) -> Result<AnyView, NameErrorView> {
    match read_source_of(name) {
        Ok(source) => Ok(blob_of(source)),
        Err(e) => Err(e),
    }
}

/// Makes the read source blob for requests against `database_name`, a name of
/// the form `<org id>_<bucket id>` with both ids in hexadecimal.
pub fn make_read_source(database_name: &str) -> (r: Result<Option<Any>, NameError>)
    ensures
        match r {
            Ok(any) => any matches Some(any) && made_read_source(database_name@) == Ok::<
                AnyView,
                NameErrorView,
            >(any@),
            Err(e) => made_read_source(database_name@) == Err::<AnyView, NameErrorView>(e@),
        },
{
    let (org_id, bucket_id) = match parse_database_name(database_name) {
        Ok(ids) => ids,
        Err(e) => { return Err(e); },
    };
    let read_source = ReadSource { org_id, bucket_id, partition_id: ANY_PARTITION_ID };
    Ok(Some(Any { type_url: "/TODO".to_owned(), value: read_source.encode() }))
}

} // verus!
