use base64::Engine;
use gpapi::encoding::b64_decode;
use gpapi::encoding::b64_encode;
use gpapi::encoding::decode_to_string;

fn reference_encode(bytes: &[u8]) -> String {
    base64::engine::general_purpose::STANDARD.encode(bytes)
}

fn sample_blobs() -> Vec<Vec<u8>> {
    vec![
        vec![],
        vec![0],
        vec![255],
        vec![77, 97, 110],
        vec![77, 97],
        vec![77],
        b"any carnal pleasure.".to_vec(),
        b"any carnal pleasure".to_vec(),
        b"any carnal pleasur".to_vec(),
        (0u8..=255).collect(),
    ]
}

#[test]
fn encode_matches_reference_engine() {
    for bytes in sample_blobs() {
        let mine = String::from_utf8(b64_encode(&bytes)).unwrap();
        assert_eq!(mine, reference_encode(&bytes));
    }
}

#[test]
fn encode_known_value() {
    assert_eq!(b64_encode(b"Man"), b"TWFu".to_vec());
    assert_eq!(b64_encode(b"Ma"), b"TWE=".to_vec());
    assert_eq!(b64_encode(b"M"), b"TQ==".to_vec());
    assert_eq!(b64_encode(b""), Vec::<u8>::new());
}

#[test]
fn round_trip_returns_original_blob() {
    for bytes in sample_blobs() {
        let encoded = b64_encode(&bytes);
        let decoded = b64_decode(&encoded).expect("the encoding of a blob must decode");
        assert_eq!(decoded, bytes);
    }
}

#[test]
fn decode_matches_reference_engine() {
    for bytes in sample_blobs() {
        let encoded = reference_encode(&bytes);
        let decoded = b64_decode(encoded.as_bytes()).expect("reference encoding must decode");
        assert_eq!(decoded, bytes);
    }
}

#[test]
fn decode_rejects_bad_length() {
    assert!(b64_decode(b"A").is_none());
    assert!(b64_decode(b"AB").is_none());
    assert!(b64_decode(b"ABC").is_none());
    assert!(b64_decode(b"ABCDE").is_none());
}

#[test]
fn decode_rejects_bad_symbols() {
    assert!(b64_decode(b"A?==").is_none());
    assert!(b64_decode(b"====").is_none());
    assert!(b64_decode(b"=AAA").is_none());
    assert!(b64_decode(b"AA=A").is_none());
    assert!(b64_decode(b"AB=CDEFG").is_none());
}

#[test]
fn decode_rejects_noncanonical_padding_bits() {
    // 'B' leaves a non-zero low bit group before the padding.
    assert!(b64_decode(b"AB==").is_none());
    assert!(base64::engine::general_purpose::STANDARD.decode("AB==").is_err());
    assert!(b64_decode(b"AAB=").is_none());
    assert!(base64::engine::general_purpose::STANDARD.decode("AAB=").is_err());
}

#[test]
fn decode_to_string_yields_text() {
    let text = "hello, prelogin";
    let encoded = reference_encode(text.as_bytes());
    assert_eq!(decode_to_string(&encoded).as_deref(), Some(text));
}

#[test]
fn decode_to_string_rejects_invalid_utf8() {
    let encoded = reference_encode(&[0xff, 0xfe]);
    assert!(decode_to_string(&encoded).is_none());
}

#[test]
fn decode_to_string_rejects_bad_encoding() {
    assert!(decode_to_string("!!!").is_none());
}
