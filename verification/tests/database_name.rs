use query_log_replay::database_name::{parse_database_name, HexError, NameError};
use query_log_replay::read_source::{make_read_source, Any, ReadSource, ANY_PARTITION_ID};

#[test]
fn database_name_gives_org_and_bucket() {
    assert_eq!(parse_database_name("1a2b_3c4d"), Ok((0x1a2b, 0x3c4d)));
}

#[test]
fn database_name_takes_both_cases_of_digits() {
    assert_eq!(parse_database_name("AbCd_EF01"), Ok((0xabcd, 0xef01)));
}

#[test]
fn database_name_takes_the_largest_ids() {
    assert_eq!(
        parse_database_name("ffffffffffffffff_FFFFFFFFFFFFFFFF"),
        Ok((u64::MAX, u64::MAX))
    );
}

#[test]
fn database_name_takes_leading_zeros() {
    assert_eq!(parse_database_name("00000000000000000001_0a"), Ok((1, 10)));
}

#[test]
fn org_that_is_no_hex_number_is_refused() {
    assert_eq!(
        parse_database_name("zzzz_1"),
        Err(NameError::InvalidOrgId { org_id: "zzzz".to_string(), kind: HexError::InvalidDigit })
    );
}

#[test]
fn org_is_looked_at_before_the_bucket_is_missed() {
    assert_eq!(
        parse_database_name("zzzz"),
        Err(NameError::InvalidOrgId { org_id: "zzzz".to_string(), kind: HexError::InvalidDigit })
    );
}

#[test]
fn empty_name_has_an_empty_org() {
    assert_eq!(
        parse_database_name(""),
        Err(NameError::InvalidOrgId { org_id: String::new(), kind: HexError::Empty })
    );
}

#[test]
fn org_beyond_64_bits_is_refused() {
    assert_eq!(
        parse_database_name("10000000000000000_1"),
        Err(NameError::InvalidOrgId {
            org_id: "10000000000000000".to_string(),
            kind: HexError::Overflow
        })
    );
}

#[test]
fn signs_are_no_digits() {
    assert_eq!(
        parse_database_name("+1_1"),
        Err(NameError::InvalidOrgId { org_id: "+1".to_string(), kind: HexError::InvalidDigit })
    );
    assert_eq!(
        parse_database_name("1_-1"),
        Err(NameError::InvalidBucketId {
            bucket_id: "-1".to_string(),
            kind: HexError::InvalidDigit
        })
    );
}

#[test]
fn spaces_and_prefixes_are_no_digits() {
    assert_eq!(
        parse_database_name(" 1_1"),
        Err(NameError::InvalidOrgId { org_id: " 1".to_string(), kind: HexError::InvalidDigit })
    );
    assert_eq!(
        parse_database_name("0x1_1"),
        Err(NameError::InvalidOrgId { org_id: "0x1".to_string(), kind: HexError::InvalidDigit })
    );
}

#[test]
fn name_without_underscore_lacks_the_bucket() {
    assert_eq!(
        parse_database_name("1a2b"),
        Err(NameError::MissingBucket { database_name: "1a2b".to_string() })
    );
}

#[test]
fn bucket_that_is_no_hex_number_is_refused() {
    assert_eq!(
        parse_database_name("1a2b_xyz"),
        Err(NameError::InvalidBucketId {
            bucket_id: "xyz".to_string(),
            kind: HexError::InvalidDigit
        })
    );
    assert_eq!(
        parse_database_name("1a2b_"),
        Err(NameError::InvalidBucketId { bucket_id: String::new(), kind: HexError::Empty })
    );
}

#[test]
fn content_behind_the_bucket_is_refused() {
    assert_eq!(
        parse_database_name("1a2b_3c4d_extra"),
        Err(NameError::TrailingContent {
            content: "extra".to_string(),
            database_name: "1a2b_3c4d_extra".to_string()
        })
    );
}

#[test]
fn trailing_underscore_is_refused() {
    assert_eq!(
        parse_database_name("1a2b_3c4d_"),
        Err(NameError::TrailingContent {
            content: String::new(),
            database_name: "1a2b_3c4d_".to_string()
        })
    );
}

#[test]
fn trailing_content_ends_at_the_next_underscore() {
    assert_eq!(
        parse_database_name("1_2_a_b"),
        Err(NameError::TrailingContent {
            content: "a".to_string(),
            database_name: "1_2_a_b".to_string()
        })
    );
}

#[test]
fn name_errors_in_words() {
    assert_eq!(
        parse_database_name("zzzz_1").unwrap_err().to_string(),
        "Can not parse org_id 'zzzz' into u64, required for storage rpc requests: invalid digit found in string"
    );
    assert_eq!(
        parse_database_name("1a2b").unwrap_err().to_string(),
        "Can not find bucket name after a '_' in 1a2b"
    );
    assert_eq!(
        parse_database_name("1_").unwrap_err().to_string(),
        "Can not parse bucket_id '' into u64, required for storage rpc requests: cannot parse integer from empty string"
    );
    assert_eq!(
        parse_database_name("1_fffffffffffffffff").unwrap_err().to_string(),
        "Can not parse bucket_id 'fffffffffffffffff' into u64, required for storage rpc requests: number too large to fit in target type"
    );
    assert_eq!(
        parse_database_name("1a2b_3c4d_extra").unwrap_err().to_string(),
        "Extra trailing content 'extra' after org and bucket in 1a2b_3c4d_extra"
    );
}

#[test]
fn read_source_is_made_from_the_name() {
    let any = make_read_source("1a2b_3c4d").unwrap().unwrap();
    assert_eq!(any.type_url, "/TODO");
    assert_eq!(
        any.value,
        vec![0x08, 0xab, 0x34, 0x10, 0xcd, 0x78, 0x18, 0xff, 0xff, 0xff, 0xff, 0x0f]
    );
    assert_eq!(
        ReadSource::decode(&any.value),
        Some(ReadSource { org_id: 0x1a2b, bucket_id: 0x3c4d, partition_id: 0xFFFF_FFFF })
    );
    assert_eq!(ANY_PARTITION_ID, u64::from(u32::MAX));
}

#[test]
fn read_source_is_not_made_from_a_bad_name() {
    assert_eq!(
        make_read_source("1a2b"),
        Err(NameError::MissingBucket { database_name: "1a2b".to_string() })
    );
    assert_eq!(
        make_read_source("1a2b_3c4d_extra"),
        Err(NameError::TrailingContent {
            content: "extra".to_string(),
            database_name: "1a2b_3c4d_extra".to_string()
        })
    );
}

#[test]
fn read_source_leaves_out_ids_that_are_zero() {
    assert_eq!(ReadSource { org_id: 0, bucket_id: 0, partition_id: 0 }.encode(), Vec::<u8>::new());
    assert_eq!(ReadSource { org_id: 0, bucket_id: 300, partition_id: 0 }.encode(), vec![0x10, 0xac, 0x02]);
    let any = make_read_source("0_0").unwrap().unwrap();
    assert_eq!(any, Any { type_url: "/TODO".to_string(), value: vec![0x18, 0xff, 0xff, 0xff, 0xff, 0x0f] });
}

#[test]
fn read_source_comes_back_from_its_encoding() {
    let sources = [
        ReadSource { org_id: 0, bucket_id: 0, partition_id: 0 },
        ReadSource { org_id: 1, bucket_id: 127, partition_id: 128 },
        ReadSource { org_id: u64::MAX, bucket_id: 1 << 63, partition_id: (1 << 63) - 1 },
        ReadSource { org_id: 0x1a2b, bucket_id: 0, partition_id: ANY_PARTITION_ID },
    ];
    for source in sources {
        assert_eq!(ReadSource::decode(&source.encode()), Some(source));
    }
}

#[test]
fn largest_id_takes_ten_bytes() {
    assert_eq!(
        ReadSource { org_id: u64::MAX, bucket_id: 0, partition_id: 0 }.encode(),
        vec![0x08, 0xff, 0xff, 0xff, 0xff, 0xff, 0xff, 0xff, 0xff, 0xff, 0x01]
    );
}

#[test]
fn decoding_takes_the_last_of_a_repeated_field() {
    assert_eq!(
        ReadSource::decode(&[0x08, 0x01, 0x08, 0x02]),
        Some(ReadSource { org_id: 2, bucket_id: 0, partition_id: 0 })
    );
}

#[test]
fn decoding_takes_fields_in_any_order() {
    assert_eq!(
        ReadSource::decode(&[0x18, 0x03, 0x08, 0x80, 0x01, 0x10, 0x02]),
        Some(ReadSource { org_id: 128, bucket_id: 2, partition_id: 3 })
    );
}

#[test]
fn decoding_passes_over_unknown_fields() {
    // field 4 as a varint, field 5 with two bytes of payload, field 6 as 32 bits
    let bytes = [0x20, 0x96, 0x01, 0x2a, 0x02, 0xaa, 0xbb, 0x35, 1, 2, 3, 4, 0x08, 0x07];
    assert_eq!(
        ReadSource::decode(&bytes),
        Some(ReadSource { org_id: 7, bucket_id: 0, partition_id: 0 })
    );
}

#[test]
fn decoding_refuses_what_is_no_message() {
    // a key without a value
    assert_eq!(ReadSource::decode(&[0x08]), None);
    // a varint that does not end
    assert_eq!(ReadSource::decode(&[0x08, 0x80]), None);
    // an id with the wire type of a length-delimited field
    assert_eq!(ReadSource::decode(&[0x0a, 0x01, 0x00]), None);
    // field number zero
    assert_eq!(ReadSource::decode(&[0x00, 0x01]), None);
    // wire type 7
    assert_eq!(ReadSource::decode(&[0x0f, 0x01]), None);
    // an unknown field whose payload is cut short
    assert_eq!(ReadSource::decode(&[0x2a, 0x05, 0x01]), None);
    // an eleven-byte varint
    assert_eq!(
        ReadSource::decode(&[0x08, 0xff, 0xff, 0xff, 0xff, 0xff, 0xff, 0xff, 0xff, 0xff, 0x80, 0x01]),
        None
    );
    // a tenth byte that overflows 64 bits
    assert_eq!(
        ReadSource::decode(&[0x08, 0xff, 0xff, 0xff, 0xff, 0xff, 0xff, 0xff, 0xff, 0xff, 0x02]),
        None
    );
}

#[test]
fn decoding_takes_a_varint_with_padding() {
    assert_eq!(
        ReadSource::decode(&[0x08, 0x81, 0x80, 0x00]),
        Some(ReadSource { org_id: 1, bucket_id: 0, partition_id: 0 })
    );
}

#[test]
fn empty_blob_is_the_zero_read_source() {
    assert_eq!(
        ReadSource::decode(&[]),
        Some(ReadSource { org_id: 0, bucket_id: 0, partition_id: 0 })
    );
}
