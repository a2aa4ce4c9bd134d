use serial_bevy::decode_bytes;
use serial_bevy::encode_string;
use serial_bevy::DataType;

#[test]
fn test_encode_hex_simple() {
    let result = encode_string("48656C6C6F", DataType::Hex);
    assert_eq!(result, vec![0x48, 0x65, 0x6C, 0x6C, 0x6F]);
}

#[test]
fn test_encode_hex_with_spaces() {
    let result = encode_string("48 65 6C 6C 6F", DataType::Hex);
    assert_eq!(result, vec![0x48, 0x65, 0x6C, 0x6C, 0x6F]);
}

#[test]
fn test_encode_hex_odd_length() {
    let result = encode_string("F", DataType::Hex);
    assert_eq!(result, vec![0x0F]);
}

#[test]
fn test_encode_hex_mixed_separators() {
    let result = encode_string("48 65-6C 6C 6F", DataType::Hex);
    assert_eq!(result, vec![0x48, 0x65, 0x6C, 0x6C, 0x6F]);
}

#[test]
fn test_encode_utf8() {
    let result = encode_string("Hello", DataType::Utf8);
    assert_eq!(result, vec![72, 101, 108, 108, 111]);
}

#[test]
fn test_decode_hex() {
    let result = decode_bytes(&[0x48, 0x65, 0x6C, 0x6C, 0x6F], DataType::Hex);
    assert_eq!(result, "48656c6c6f");
}

#[test]
fn test_decode_utf8() {
    let result = decode_bytes(&[72, 101, 108, 108, 111], DataType::Utf8);
    assert_eq!(result, "Hello");
}

#[test]
fn test_decode_utf8_invalid() {
    let result = decode_bytes(&[0xFF, 0xFE], DataType::Utf8);
    assert!(result.contains('\u{2753}'));
}

#[test]
fn test_decode_utf8_maximal_subparts() {
    // A truncated multi-byte sequence is one maximal subpart: one placeholder.
    assert_eq!(decode_bytes(&[0xE1, 0x80], DataType::Utf8), "\u{2753}");
    assert_eq!(decode_bytes(&[0xF0, 0x9F, 0x98], DataType::Utf8), "\u{2753}");
    // The subpart ends where the next byte cannot continue it.
    assert_eq!(decode_bytes(&[0xE1, 0x41], DataType::Utf8), "\u{2753}A");
    // An overlong encoding fails at its second byte: three one-byte subparts.
    assert_eq!(decode_bytes(&[0xE0, 0x80, 0x80], DataType::Utf8), "\u{2753}\u{2753}\u{2753}");
    assert_eq!(decode_bytes(&[0xFF, 0xFE], DataType::Utf8), "\u{2753}\u{2753}");
}

#[test]
fn test_decode_utf8_matches_std_substitution() {
    // On inputs without a literal replacement character, the decoder agrees
    // with std's lossy decoding up to the choice of placeholder glyph.
    for bytes in [
        &[0x48, 0xE1, 0x80, 0x69][..],
        &[0xE0, 0x9F, 0x80][..],
        &[0xED, 0xA0, 0x80][..],
        &[0xF4, 0x90, 0x80, 0x80][..],
        &[0xC0, 0xAF][..],
        &[0xF1, 0x80, 0x80][..],
        &[0x41, 0x42, 0xC3][..],
    ] {
        let expected = String::from_utf8_lossy(bytes).replace('\u{fffd}', "\u{2753}");
        assert_eq!(decode_bytes(bytes, DataType::Utf8), expected);
    }
}

#[test]
fn test_encode_binary() {
    let result = encode_string("test", DataType::Binary);
    assert_eq!(result, b"test");
}

#[test]
fn test_decode_binary() {
    let result = decode_bytes(&[1, 2, 3], DataType::Binary);
    assert!(!result.is_empty());
}

#[test]
fn test_decode_binary_exact() {
    let result = decode_bytes(&[1, 2, 3], DataType::Binary);
    assert_eq!(result, "00000001 00000010 00000011");
}

#[test]
fn test_round_trip_utf8() {
    let text = "Hello, world! \u{4f60}\u{597d}";
    let decoded = decode_bytes(&encode_string(text, DataType::Utf8), DataType::Utf8);
    assert_eq!(decoded, text);
}

#[test]
fn test_round_trip_ascii() {
    let text = "plain ascii 123";
    let decoded = decode_bytes(&encode_string(text, DataType::Ascii), DataType::Ascii);
    assert_eq!(decoded, text);
}

#[test]
fn test_round_trip_hex() {
    let text = "48ab09ff";
    let decoded = decode_bytes(&encode_string(text, DataType::Hex), DataType::Hex);
    assert_eq!(decoded, text);
}

#[test]
fn test_encode_gbk_ascii() {
    let result = encode_string("Hello", DataType::Gbk);
    assert_eq!(result, b"Hello");
}

#[test]
fn test_encode_gbk_chinese() {
    let result = encode_string("\u{4f60}", DataType::Gbk);
    assert_eq!(result, vec![0xC4, 0xE3]);
}

#[test]
fn test_decode_gbk() {
    let result = decode_bytes(&[0xC4, 0xE3], DataType::Gbk);
    assert_eq!(result, "\u{4f60}");
}

#[test]
fn test_decode_utf16le() {
    let result = decode_bytes(&[0x48, 0x00, 0x69, 0x00], DataType::Utf16);
    assert_eq!(result, "Hi");
}

#[test]
fn test_decode_utf32le() {
    let result = decode_bytes(&[0x48, 0, 0, 0, 0x69, 0, 0, 0], DataType::Utf32);
    assert_eq!(result, "Hi");
}

#[test]
fn test_decode_utf32_invalid_codepoint() {
    let result = decode_bytes(&[0x00, 0xD8, 0x00, 0x00], DataType::Utf32);
    assert_eq!(result, "\u{fffd}");
}

#[test]
fn test_decode_utf32_trailing_bytes_dropped() {
    let result = decode_bytes(&[0x48, 0, 0, 0, 0x69, 0], DataType::Utf32);
    assert_eq!(result, "H");
}

#[test]
fn test_encode_utf16le() {
    assert_eq!(encode_string("A", DataType::Utf16), vec![0x41, 0x00]);
    // A supplementary character becomes a surrogate pair.
    assert_eq!(
        encode_string("\u{1F600}", DataType::Utf16),
        vec![0x3D, 0xD8, 0x00, 0xDE]
    );
}

#[test]
fn test_encode_utf32le() {
    assert_eq!(encode_string("A", DataType::Utf32), vec![0x41, 0, 0, 0]);
    assert_eq!(
        encode_string("\u{1F600}", DataType::Utf32),
        vec![0x00, 0xF6, 0x01, 0x00]
    );
}

#[test]
fn test_round_trip_utf16() {
    // The decoder runs through the real UTF-16LE charset tables, so this
    // exercises the decode wrapper against the verified encoder.
    let text = "Hi \u{4f60} \u{1F600}";
    let decoded = decode_bytes(&encode_string(text, DataType::Utf16), DataType::Utf16);
    assert_eq!(decoded, text);
}

#[test]
fn test_round_trip_utf32() {
    let text = "Hi \u{4f60} \u{1F600}";
    let decoded = decode_bytes(&encode_string(text, DataType::Utf32), DataType::Utf32);
    assert_eq!(decoded, text);
}
