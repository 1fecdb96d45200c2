use receipt_verifier::hexid::{hex_decode, parse_image_id};

#[test]
fn hex_decode_simple() {
    assert_eq!(hex_decode("00ff10"), Some(vec![0u8, 255, 16]));
}

#[test]
fn hex_decode_mixed_case() {
    assert_eq!(hex_decode("aAbBcCdDeEfF"), Some(vec![0xaa, 0xbb, 0xcc, 0xdd, 0xee, 0xff]));
}

#[test]
fn hex_decode_empty() {
    assert_eq!(hex_decode(""), Some(vec![]));
}

#[test]
fn hex_decode_odd_length() {
    assert_eq!(hex_decode("abc"), None);
}

#[test]
fn hex_decode_bad_digit() {
    assert_eq!(hex_decode("0g"), None);
    assert_eq!(hex_decode("zz"), None);
}

#[test]
fn image_id_exact_32_bytes() {
    let id = "00".repeat(32);
    let parsed = parse_image_id(&id).expect("64 hex digits must parse");
    assert_eq!(parsed.len(), 32);
    assert!(parsed.iter().all(|b| *b == 0));
}

#[test]
fn image_id_nonzero_digest() {
    let id = "0123456789abcdef".repeat(4);
    let parsed = parse_image_id(&id).expect("64 hex digits must parse");
    assert_eq!(parsed[0], 0x01);
    assert_eq!(parsed[7], 0xef);
    assert_eq!(parsed.len(), 32);
}

#[test]
fn image_id_too_short() {
    assert_eq!(parse_image_id("ab"), None);
    assert_eq!(parse_image_id(&"00".repeat(31)), None);
}

#[test]
fn image_id_too_long() {
    assert_eq!(parse_image_id(&"00".repeat(33)), None);
}

#[test]
fn image_id_bad_hex() {
    let mut id = "00".repeat(31);
    id.push_str("0x");
    assert_eq!(parse_image_id(&id), None);
}
