use at86rf215::codec::{decode_le, encode_le, FromLeSlice, ToLeVec};

#[test]
fn encode_is_least_significant_byte_first() {
    assert_eq!(encode_le(0x0F, 1), vec![0x0F]);
    assert_eq!(encode_le(0x1234, 2), vec![0x34, 0x12]);
    assert_eq!(encode_le(0x1234_5678, 4), vec![0x78, 0x56, 0x34, 0x12]);
    assert_eq!(
        encode_le(0x0102_0304_0506_0708, 8),
        vec![0x08, 0x07, 0x06, 0x05, 0x04, 0x03, 0x02, 0x01]
    );
}

#[test]
fn encode_drops_bytes_beyond_the_width_and_pads_with_zero() {
    assert_eq!(encode_le(0x1234_5678, 0), Vec::<u8>::new());
    assert_eq!(encode_le(0x1234_5678, 2), vec![0x78, 0x56]);
    assert_eq!(encode_le(0x12, 3), vec![0x12, 0x00, 0x00]);
    assert_eq!(
        encode_le(u64::MAX, 10),
        vec![0xFF, 0xFF, 0xFF, 0xFF, 0xFF, 0xFF, 0xFF, 0xFF, 0x00, 0x00]
    );
}

#[test]
fn decode_reads_least_significant_byte_first() {
    assert_eq!(decode_le(&[]), Some(0));
    assert_eq!(decode_le(&[0x0F]), Some(0x0F));
    assert_eq!(decode_le(&[0x34, 0x12]), Some(0x1234));
    assert_eq!(decode_le(&[0x78, 0x56, 0x34, 0x12]), Some(0x1234_5678));
    assert_eq!(decode_le(&[0xFF; 8]), Some(u64::MAX));
    assert_eq!(decode_le(&[0x00, 0x00, 0x01]), Some(0x01_0000));
}

#[test]
fn decode_rejects_more_than_eight_bytes() {
    assert_eq!(decode_le(&[0u8; 9]), None);
    assert_eq!(decode_le(&[1u8; 16]), None);
}

#[test]
fn typed_encoding_has_the_width_of_the_type() {
    assert_eq!(0xA5u8.to_le_vec(), vec![0xA5]);
    assert_eq!(0x1234u16.to_le_vec(), vec![0x34, 0x12]);
    assert_eq!(0x1234_5678u32.to_le_vec(), vec![0x78, 0x56, 0x34, 0x12]);
    assert_eq!(
        0x0102_0304_0506_0708u64.to_le_vec(),
        vec![0x08, 0x07, 0x06, 0x05, 0x04, 0x03, 0x02, 0x01]
    );
    assert_eq!(0u16.to_le_vec(), vec![0x00, 0x00]);
}

#[test]
fn typed_decoding_wants_the_exact_width() {
    assert_eq!(u8::from_le_slice(&[0xA5]), Some(0xA5));
    assert_eq!(u8::from_le_slice(&[]), None);
    assert_eq!(u8::from_le_slice(&[1, 2]), None);
    assert_eq!(u16::from_le_slice(&[0x34, 0x12]), Some(0x1234));
    assert_eq!(u16::from_le_slice(&[0x34]), None);
    assert_eq!(u32::from_le_slice(&[0x78, 0x56, 0x34, 0x12]), Some(0x1234_5678));
    assert_eq!(u32::from_le_slice(&[0x78, 0x56, 0x34]), None);
    assert_eq!(u64::from_le_slice(&[0xFF; 8]), Some(u64::MAX));
    assert_eq!(u64::from_le_slice(&[0xFF; 9]), None);
}

#[test]
fn decoding_an_encoding_gives_the_value_back() {
    for value in 0..=u8::MAX {
        assert_eq!(u8::from_le_slice(&value.to_le_vec()), Some(value));
    }
    for value in [0u16, 1, 0x00FF, 0x0100, 0x1234, 0x8000, u16::MAX] {
        assert_eq!(u16::from_le_slice(&value.to_le_vec()), Some(value));
        assert_eq!(value.to_le_vec(), value.to_le_bytes().to_vec());
    }
    for value in [0u32, 1, 0xFFFF, 0x1_0000, 0xDEAD_BEEF, u32::MAX] {
        assert_eq!(u32::from_le_slice(&value.to_le_vec()), Some(value));
        assert_eq!(value.to_le_vec(), value.to_le_bytes().to_vec());
    }
    for value in [0u64, 1, 0xFFFF_FFFF, 0x1_0000_0000, 0x0123_4567_89AB_CDEF, u64::MAX] {
        assert_eq!(u64::from_le_slice(&value.to_le_vec()), Some(value));
        assert_eq!(value.to_le_vec(), value.to_le_bytes().to_vec());
        assert_eq!(decode_le(&encode_le(value, 8)), Some(value));
    }
}
