use clunker::words::{decode_u16_words, decode_u32_words, encode_u16_words, encode_u32_words};

#[test]
fn decode_u32_words_reads_little_endian_and_drops_partial_word() {
    let bytes = [1u8, 0, 0, 0, 0, 0, 0x80, 0x3f, 9];
    let words = decode_u32_words(&bytes);
    assert_eq!(words, vec![1u32, 1.0f32.to_bits()]);
}

#[test]
fn decode_u16_words_reads_little_endian_and_drops_odd_byte() {
    let bytes = [3u8, 1, 0xff, 0xff, 7];
    assert_eq!(decode_u16_words(&bytes), vec![0x0103u16, 0xffff]);
}

#[test]
fn decode_of_short_input_is_empty() {
    assert!(decode_u32_words(&[1, 2, 3]).is_empty());
    assert!(decode_u16_words(&[1]).is_empty());
    assert!(decode_u32_words(&[]).is_empty());
}

#[test]
fn encode_u32_words_writes_little_endian() {
    let bytes = encode_u32_words(&[0x0403_0201, 0xdead_beef]);
    assert_eq!(bytes, vec![1, 2, 3, 4, 0xef, 0xbe, 0xad, 0xde]);
}

#[test]
fn encode_u16_words_writes_little_endian() {
    assert_eq!(encode_u16_words(&[0x0102, 0xff00]), vec![2, 1, 0, 0xff]);
}

#[test]
fn words_round_trip_through_bytes() {
    let words = vec![0u32, 1, 0x8000_0000, u32::MAX, (-0.2f32).to_bits()];
    assert_eq!(decode_u32_words(&encode_u32_words(&words)), words);
    let halves = vec![0u16, 1, 0x8000, u16::MAX];
    assert_eq!(decode_u16_words(&encode_u16_words(&halves)), halves);
}

#[test]
fn bytes_round_trip_without_trailing_partial_word() {
    let bytes = vec![5u8, 6, 7, 8, 9, 10, 11, 12, 13, 14];
    assert_eq!(encode_u32_words(&decode_u32_words(&bytes)), bytes[..8].to_vec());
    assert_eq!(encode_u16_words(&decode_u16_words(&bytes[..9])), bytes[..8].to_vec());
}
