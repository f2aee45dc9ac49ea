use query_log_replay::read_source::ReadSource;

/// The varint at the front of `bytes`: value and length.
fn model_varint(bytes: &[u8]) -> Option<(u64, usize)> {
    let mut value: u128 = 0;
    for (count, byte) in bytes.iter().enumerate() {
        if count >= 10 {
            return None;
        }
        if *byte < 0x80 {
            if count == 9 && *byte >= 2 {
                return None;
            }
            value += u128::from(*byte) << (7 * count);
            return Some((value as u64, count + 1));
        }
        value += u128::from(*byte - 0x80) << (7 * count);
    }
    None
}

fn model_encode_varint(mut value: u64, out: &mut Vec<u8>) {
    while value >= 0x80 {
        out.push((value % 0x80 + 0x80) as u8);
        value /= 0x80;
    }
    out.push(value as u8);
}

fn model_encode(source: &ReadSource) -> Vec<u8> {
    let mut out = Vec::new();
    for (tag, value) in [(1u64, source.org_id), (2, source.bucket_id), (3, source.partition_id)] {
        if value != 0 {
            model_encode_varint(tag * 8, &mut out);
            model_encode_varint(value, &mut out);
        }
    }
    out
}

/// What decoding gives where every field is one of the three ids; the outer
/// `None` where the bytes hold a field that is none of them.
fn model_decode(mut bytes: &[u8]) -> Option<Option<ReadSource>> {
    let mut source = ReadSource { org_id: 0, bucket_id: 0, partition_id: 0 };
    while !bytes.is_empty() {
        let (key, key_len) = match model_varint(bytes) {
            Some(found) => found,
            None => return Some(None),
        };
        if key > u64::from(u32::MAX) || key % 8 > 5 || key / 8 == 0 {
            return Some(None);
        }
        let (tag, wire) = (key / 8, key % 8);
        if tag > 3 {
            return None;
        }
        bytes = &bytes[key_len..];
        if wire != 0 {
            return Some(None);
        }
        let (value, len) = match model_varint(bytes) {
            Some(found) => found,
            None => return Some(None),
        };
        match tag {
            1 => source.org_id = value,
            2 => source.bucket_id = value,
            _ => source.partition_id = value,
        }
        bytes = &bytes[len..];
    }
    Some(Some(source))
}

const SAMPLE_BYTES: [u8; 17] = [
    0x00, 0x01, 0x02, 0x07, 0x08, 0x09, 0x0a, 0x0d, 0x10, 0x12, 0x18, 0x1b, 0x20, 0x7f, 0x80,
    0x81, 0xff,
];

fn check_all_of_length(len: usize) -> usize {
    let mut checked = 0;
    let mut digits = vec![0usize; len];
    loop {
        let bytes: Vec<u8> = digits.iter().map(|digit| SAMPLE_BYTES[*digit]).collect();
        if let Some(expected) = model_decode(&bytes) {
            assert_eq!(ReadSource::decode(&bytes), expected, "{:?}", bytes);
            checked += 1;
        }
        let mut place = 0;
        loop {
            if place == len {
                return checked;
            }
            digits[place] += 1;
            if digits[place] < SAMPLE_BYTES.len() {
                break;
            }
            digits[place] = 0;
            place += 1;
        }
    }
}

#[test]
fn decoding_agrees_with_the_format_on_short_inputs() {
    let mut checked = 0;
    for len in 0..=4 {
        checked += check_all_of_length(len);
    }
    assert!(checked > 10_000, "{}", checked);
}

#[test]
fn decoding_agrees_with_the_format_on_long_varints() {
    let mut checked = 0;
    for len in 1..=12usize {
        for last in [0x00u8, 0x01, 0x02, 0x7f, 0x80, 0xff] {
            for fill in [0x80u8, 0x81, 0xff] {
                for key in [0x08u8, 0x10, 0x18] {
                    let mut bytes = vec![key];
                    bytes.extend(std::iter::repeat(fill).take(len - 1));
                    bytes.push(last);
                    for tail in [&[][..], &[0x10, 0x05][..], &[0x80][..]] {
                        let mut all = bytes.clone();
                        all.extend_from_slice(tail);
                        let expected = model_decode(&all).unwrap();
                        assert_eq!(ReadSource::decode(&all), expected, "{:?}", all);
                        checked += 1;
                    }
                }
            }
        }
    }
    assert_eq!(checked, 12 * 6 * 3 * 3 * 3);
}

#[test]
fn encoding_agrees_with_the_format() {
    let mut values = vec![0u64, 1, 2, 127, 128, 129, 255, 256, 16_383, 16_384, u64::MAX];
    for shift in 0..64 {
        values.push(1 << shift);
        values.push((1 << shift) - 1);
        values.push((1u64 << shift).wrapping_add(1));
    }
    for (i, org_id) in values.iter().enumerate() {
        let bucket_id = values[(i * 7 + 3) % values.len()];
        let partition_id = values[(i * 13 + 5) % values.len()];
        let source = ReadSource { org_id: *org_id, bucket_id, partition_id };
        let bytes = source.encode();
        assert_eq!(bytes, model_encode(&source));
        assert_eq!(ReadSource::decode(&bytes), Some(source));
        assert_eq!(model_decode(&bytes), Some(Some(source)));
    }
}
