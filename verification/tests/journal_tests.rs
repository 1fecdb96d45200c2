use receipt_verifier::claims::decode_claims;
use receipt_verifier::journal::{decode_journal, Journal, SchemaPolicy};

fn words_to_bytes(words: &[u32]) -> Vec<u8> {
    let mut out = Vec::new();
    for w in words {
        out.extend_from_slice(&w.to_le_bytes());
    }
    out
}

fn push_word(v: &mut Vec<u8>, w: u32) {
    v.extend_from_slice(&w.to_le_bytes());
}

fn push_padded_str(v: &mut Vec<u8>, s: &str, pad: u8) {
    let b = s.as_bytes();
    push_word(v, b.len() as u32);
    v.extend_from_slice(b);
    while v.len() % 4 != 0 {
        v.push(pad);
    }
}

fn hand_schema_a(value: u32, metrics: (u64, u64, u64), c: &str, s: &str, k: &str, pad: u8) -> Vec<u8> {
    let mut v = Vec::new();
    push_word(&mut v, value);
    for m in [metrics.0, metrics.1, metrics.2] {
        push_word(&mut v, m as u32);
        push_word(&mut v, (m >> 32) as u32);
    }
    push_padded_str(&mut v, c, pad);
    push_padded_str(&mut v, s, pad);
    push_padded_str(&mut v, k, pad);
    v
}

#[test]
fn schema_a_from_reference_serializer() {
    let payload = (
        7u32,
        (100u64, 200u64, 300u64),
        "abc".to_string(),
        "c2ln".to_string(),
        "key material".to_string(),
    );
    let words = risc0_zkvm::serde::to_vec(&payload).expect("serialize");
    let journal = words_to_bytes(&words);
    match decode_journal(&journal, SchemaPolicy::TrialDecode) {
        Some(Journal::SchemaA { value, metrics, claim }) => {
            assert_eq!(value, 7);
            assert_eq!(metrics.start_cycles, 100);
            assert_eq!(metrics.end_cycles, 200);
            assert_eq!(metrics.risc_v_cycles, 300);
            assert_eq!(claim.commitment, "abc");
            assert_eq!(claim.signature, "c2ln");
            assert_eq!(claim.pub_key, "key material");
        }
        _ => panic!("expected a Schema A journal"),
    }
}

#[test]
fn schema_a_hand_built_matches_reference() {
    let payload = (
        42u32,
        (1u64, 2u64, 3u64),
        "x".to_string(),
        "yy".to_string(),
        "zzz".to_string(),
    );
    let words = risc0_zkvm::serde::to_vec(&payload).expect("serialize");
    let reference = words_to_bytes(&words);
    let hand = hand_schema_a(42, (1, 2, 3), "x", "yy", "zzz", 0);
    assert_eq!(hand, reference);
}

#[test]
fn schema_a_large_metrics() {
    let big = u64::MAX - 5;
    let journal = hand_schema_a(0, (big, 0, u64::MAX), "", "", "", 0);
    match decode_journal(&journal, SchemaPolicy::TrialDecode) {
        Some(Journal::SchemaA { value, metrics, claim }) => {
            assert_eq!(value, 0);
            assert_eq!(metrics.start_cycles, big);
            assert_eq!(metrics.end_cycles, 0);
            assert_eq!(metrics.risc_v_cycles, u64::MAX);
            assert_eq!(claim.commitment, "");
        }
        _ => panic!("expected a Schema A journal"),
    }
}

#[test]
fn schema_a_ignores_string_padding_bytes() {
    let journal = hand_schema_a(9, (0, 0, 0), "ab", "c", "d", 0xee);
    match decode_journal(&journal, SchemaPolicy::TrialDecode) {
        Some(Journal::SchemaA { value, claim, .. }) => {
            assert_eq!(value, 9);
            assert_eq!(claim.commitment, "ab");
            assert_eq!(claim.signature, "c");
            assert_eq!(claim.pub_key, "d");
        }
        _ => panic!("expected a Schema A journal"),
    }
}

#[test]
fn schema_a_ignores_trailing_words() {
    let mut journal = hand_schema_a(9, (0, 0, 0), "ab", "c", "d", 0);
    push_word(&mut journal, 0xdead_beef);
    match decode_journal(&journal, SchemaPolicy::TrialDecode) {
        Some(Journal::SchemaA { value, .. }) => assert_eq!(value, 9),
        _ => panic!("expected a Schema A journal"),
    }
}

#[test]
fn schema_a_rejects_bad_utf8() {
    let mut journal = Vec::new();
    push_word(&mut journal, 1);
    for _ in 0..6 {
        push_word(&mut journal, 0);
    }
    // commitment of length 1 whose byte is not valid UTF-8
    push_word(&mut journal, 1);
    journal.extend_from_slice(&[0xff, 0, 0, 0]);
    push_padded_str(&mut journal, "", 0);
    push_padded_str(&mut journal, "", 0);
    assert!(decode_journal(&journal, SchemaPolicy::TrialDecode).is_none());
}

#[test]
fn schema_a_rejects_truncated_string() {
    let mut journal = Vec::new();
    push_word(&mut journal, 1);
    for _ in 0..6 {
        push_word(&mut journal, 0);
    }
    // claims 100 bytes follow, but nothing does
    push_word(&mut journal, 100);
    assert!(decode_journal(&journal, SchemaPolicy::TrialDecode).is_none());
}

fn hand_schema_b(bits: u64, inner: &[u8]) -> Vec<u8> {
    let mut v = Vec::new();
    push_word(&mut v, bits as u32);
    push_word(&mut v, (bits >> 32) as u32);
    push_word(&mut v, inner.len() as u32);
    for b in inner {
        push_word(&mut v, *b as u32);
    }
    v
}

#[test]
fn schema_b_from_reference_serializers() {
    let claims = vec![
        ("com1".to_string(), "sig1".to_string(), "key1".to_string()),
        ("com2".to_string(), "sig2".to_string(), "key2".to_string()),
    ];
    let inner = bincode::serialize(&claims).expect("bincode");
    let payload = (1.5f64, inner.clone());
    let words = risc0_zkvm::serde::to_vec(&payload).expect("serialize");
    let journal = words_to_bytes(&words);
    match decode_journal(&journal, SchemaPolicy::SchemaBOnly) {
        Some(Journal::SchemaB { value_bits, claims }) => {
            assert_eq!(value_bits, 1.5f64.to_bits());
            assert_eq!(claims.len(), 2);
            assert_eq!(claims[0].commitment, "com1");
            assert_eq!(claims[0].signature, "sig1");
            assert_eq!(claims[0].pub_key, "key1");
            assert_eq!(claims[1].commitment, "com2");
        }
        _ => panic!("expected a Schema B journal"),
    }
}

#[test]
fn schema_b_hand_built_matches_reference() {
    let claims: Vec<(String, String, String)> = Vec::new();
    let inner = bincode::serialize(&claims).expect("bincode");
    let payload = (0.25f64, inner.clone());
    let words = risc0_zkvm::serde::to_vec(&payload).expect("serialize");
    let reference = words_to_bytes(&words);
    assert_eq!(hand_schema_b(0.25f64.to_bits(), &inner), reference);
}

#[test]
fn schema_b_zero_claims_decodes() {
    let claims: Vec<(String, String, String)> = Vec::new();
    let inner = bincode::serialize(&claims).expect("bincode");
    let journal = hand_schema_b(2.0f64.to_bits(), &inner);
    match decode_journal(&journal, SchemaPolicy::SchemaBOnly) {
        Some(Journal::SchemaB { value_bits, claims }) => {
            assert_eq!(value_bits, 2.0f64.to_bits());
            assert_eq!(claims.len(), 0);
        }
        _ => panic!("expected a Schema B journal"),
    }
}

#[test]
fn schema_b_rejects_byte_word_over_255() {
    let inner = bincode::serialize(&Vec::<(String, String, String)>::new()).expect("bincode");
    let mut journal = hand_schema_b(0, &inner);
    // overwrite the first byte word (word 3) with a value above 255
    journal[12..16].copy_from_slice(&300u32.to_le_bytes());
    assert!(decode_journal(&journal, SchemaPolicy::SchemaBOnly).is_none());
}

#[test]
fn journal_rejects_unaligned_length() {
    let mut journal = hand_schema_a(9, (0, 0, 0), "ab", "c", "d", 0);
    journal.push(0);
    assert!(decode_journal(&journal, SchemaPolicy::TrialDecode).is_none());
}

#[test]
fn journal_rejects_garbage() {
    assert!(decode_journal(&Vec::new(), SchemaPolicy::TrialDecode).is_none());
    assert!(decode_journal(&vec![1, 2, 3, 4], SchemaPolicy::TrialDecode).is_none());
    assert!(decode_journal(&vec![0xff; 8], SchemaPolicy::SchemaBOnly).is_none());
}

#[test]
fn claims_decoder_matches_bincode() {
    let claims = vec![
        ("a".to_string(), "b".to_string(), "c".to_string()),
        ("longer commitment".to_string(), "".to_string(), "k".to_string()),
    ];
    let bytes = bincode::serialize(&claims).expect("bincode");
    let decoded = decode_claims(&bytes).expect("well-formed list");
    assert_eq!(decoded.len(), 2);
    assert_eq!(decoded[0].commitment, "a");
    assert_eq!(decoded[0].signature, "b");
    assert_eq!(decoded[0].pub_key, "c");
    assert_eq!(decoded[1].commitment, "longer commitment");
    assert_eq!(decoded[1].signature, "");
    assert_eq!(decoded[1].pub_key, "k");
}

#[test]
fn claims_decoder_rejects_truncated_list() {
    let claims = vec![("a".to_string(), "b".to_string(), "c".to_string())];
    let mut bytes = bincode::serialize(&claims).expect("bincode");
    bytes.pop();
    assert!(decode_claims(&bytes).is_none());
}

#[test]
fn claims_decoder_rejects_overlong_count() {
    let mut bytes = bincode::serialize(&Vec::<(String, String, String)>::new()).expect("bincode");
    bytes[0] = 200;
    assert!(decode_claims(&bytes).is_none());
}

#[test]
fn claims_decoder_allows_trailing_bytes() {
    let claims = vec![("a".to_string(), "b".to_string(), "c".to_string())];
    let mut bytes = bincode::serialize(&claims).expect("bincode");
    bytes.extend_from_slice(&[9, 9, 9]);
    let decoded = decode_claims(&bytes).expect("trailing bytes are ignored");
    assert_eq!(decoded.len(), 1);
}

#[test]
fn trial_decode_reads_a_multi_signature_journal_as_schema_a() {
    // The untagged format is ambiguous: the high zero bytes of a claim
    // list's length words read as empty Schema A strings, so structural
    // trial decoding resolves a typical Schema B journal in favor of A.
    let claims = vec![("c".to_string(), "s".to_string(), "k".to_string())];
    let inner = bincode::serialize(&claims).expect("bincode");
    let journal = hand_schema_b(1.5f64.to_bits(), &inner);
    match decode_journal(&journal, SchemaPolicy::TrialDecode) {
        Some(Journal::SchemaA { claim, .. }) => {
            assert_eq!(claim.commitment, "");
            assert_eq!(claim.signature, "");
            assert_eq!(claim.pub_key, "");
        }
        _ => panic!("trial decoding resolves this journal as Schema A"),
    }
    match decode_journal(&journal, SchemaPolicy::SchemaBOnly) {
        Some(Journal::SchemaB { claims, .. }) => assert_eq!(claims.len(), 1),
        _ => panic!("the multi-signature policy reads the claim list"),
    }
}

#[test]
fn schema_a_only_policy_rejects_other_shapes() {
    let a_journal = hand_schema_a(3, (0, 0, 0), "c", "s", "k", 0);
    match decode_journal(&a_journal, SchemaPolicy::SchemaAOnly) {
        Some(Journal::SchemaA { value, .. }) => assert_eq!(value, 3),
        _ => panic!("expected a Schema A journal"),
    }
    // a journal with too few words for Schema A
    let claims: Vec<(String, String, String)> = Vec::new();
    let inner = bincode::serialize(&claims).expect("bincode");
    let b_journal = hand_schema_b(0, &inner[..1]);
    assert!(decode_journal(&b_journal, SchemaPolicy::SchemaAOnly).is_none());
}
