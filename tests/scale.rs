use lightsync::scale::{
    decode_bool, decode_bytes, decode_option, decode_scale_compact_usize, decode_string,
    encode_scale_compact_usize, DecodeError,
};

fn round_trip(n: usize, expected: &[u8]) {
    let encoded = encode_scale_compact_usize(n);
    assert_eq!(encoded.as_slice(), expected);
    assert_eq!(decode_scale_compact_usize(encoded.as_slice()), Ok((n, expected.len())));
}

#[test]
fn compact_round_trip_small_values() {
    round_trip(0, &[0x00]);
    round_trip(1, &[0x04]);
    round_trip(63, &[0xFC]);
}

#[test]
fn compact_round_trip_two_byte_values() {
    round_trip(64, &[0x01, 0x01]);
    round_trip(16383, &[0xFD, 0xFF]);
}

#[test]
fn compact_round_trip_four_byte_values() {
    round_trip(16384, &[0x02, 0x00, 0x01, 0x00]);
    round_trip((1 << 30) - 1, &[0xFE, 0xFF, 0xFF, 0xFF]);
}

#[test]
fn compact_round_trip_big_integers() {
    round_trip(1 << 30, &[0x03, 0x00, 0x00, 0x00, 0x40]);
    round_trip(1usize << 63, &[0x13, 0, 0, 0, 0, 0, 0, 0, 0x80]);
    round_trip(usize::MAX, &[0x13, 0xFF, 0xFF, 0xFF, 0xFF, 0xFF, 0xFF, 0xFF, 0xFF]);
}

#[test]
fn compact_decode_examples() {
    assert_eq!(decode_scale_compact_usize(&[0xFC]), Ok((63, 1)));
    assert_eq!(decode_scale_compact_usize(&[0x01, 0x01]), Ok((64, 2)));
    assert_eq!(decode_scale_compact_usize(&[0x02, 0x00, 0x00, 0x00]), Ok((0, 4)));
    assert_eq!(
        decode_scale_compact_usize(&[0x07, 0x00, 0x00, 0x00, 0x00, 0x00]),
        Err(DecodeError::NonCanonical)
    );
}

#[test]
fn compact_decode_leaves_the_rest() {
    assert_eq!(decode_scale_compact_usize(&[0xFC, 0xAA, 0xBB]), Ok((63, 1)));
    assert_eq!(decode_scale_compact_usize(&[0x01, 0x01, 0x07]), Ok((64, 2)));
}

#[test]
fn compact_decode_short_input() {
    assert_eq!(decode_scale_compact_usize(&[]), Err(DecodeError::NotEnoughBytes));
    assert_eq!(decode_scale_compact_usize(&[0x01]), Err(DecodeError::NotEnoughBytes));
    assert_eq!(decode_scale_compact_usize(&[0x02, 0, 0]), Err(DecodeError::NotEnoughBytes));
    assert_eq!(decode_scale_compact_usize(&[0x03, 0, 0, 1]), Err(DecodeError::NotEnoughBytes));
}

#[test]
fn compact_decode_canonicity_only_in_big_mode() {
    assert_eq!(decode_scale_compact_usize(&[0x03, 0x00, 0x00, 0x00, 0x00]), Err(DecodeError::NonCanonical));
    assert_eq!(decode_scale_compact_usize(&[0x03, 0x05, 0x00, 0x00, 0x01]), Ok((0x0100_0005, 5)));
    assert_eq!(decode_scale_compact_usize(&[0x01, 0x00]), Ok((0, 2)));
}

#[test]
fn compact_decode_overflow() {
    let bytes = [0x17, 0, 0, 0, 0, 0, 0, 0, 0, 1];
    assert_eq!(decode_scale_compact_usize(&bytes), Err(DecodeError::Overflow));
}

#[test]
fn bool_decoding() {
    assert_eq!(decode_bool(&[0]), Ok((false, 1)));
    assert_eq!(decode_bool(&[1, 9]), Ok((true, 1)));
    assert_eq!(decode_bool(&[2]), Err(DecodeError::InvalidTag));
    assert_eq!(decode_bool(&[]), Err(DecodeError::NotEnoughBytes));
}

#[test]
fn bytes_decoding() {
    let input = [0x0C, 7, 8, 9, 10];
    let (data, used) = decode_bytes(&input).unwrap();
    assert_eq!(data, &[7, 8, 9]);
    assert_eq!(used, 4);
    assert!(matches!(decode_bytes(&[0x10, 1, 2]), Err(DecodeError::NotEnoughBytes)));
}

#[test]
fn string_decoding() {
    let (text, used) = decode_string(&[0x08, b'a', b'b', b'!']).unwrap();
    assert_eq!(text, "ab");
    assert_eq!(used, 3);
    assert!(matches!(decode_string(&[0x04, 0xFF]), Err(DecodeError::InvalidUtf8)));
    assert_eq!(decode_string(&[0x00]).unwrap(), ("", 1));
}

#[test]
fn option_decoding() {
    assert_eq!(decode_option(decode_bool, &[0]), Ok((None, 1)));
    assert_eq!(decode_option(decode_bool, &[1, 1]), Ok((Some(true), 2)));
    assert_eq!(decode_option(decode_bool, &[1, 5]), Err(DecodeError::InvalidTag));
    assert_eq!(decode_option(decode_bool, &[3]), Err(DecodeError::InvalidTag));
    assert_eq!(decode_option(decode_bool, &[]), Err(DecodeError::NotEnoughBytes));
    assert_eq!(decode_option(decode_scale_compact_usize, &[1, 0x01, 0x01]), Ok((Some(64), 3)));
}
