use cryptor::JsAsyncSBoxCryptor;
use cryptor::EncrResult;
use cryptor::copy_nonce_from_format_w_n;
use cryptor::CryptoFailure;
use cryptor::laws::{sbox_round_trip, sbox_wn_round_trip};

fn sample_inputs() -> (Vec<u8>, Vec<u8>, Vec<u8>) {
    let m: Vec<u8> = b"attack at dawn".to_vec();
    let n: Vec<u8> = (0u8..24).collect();
    let k: Vec<u8> = (100u8..132).collect();
    (m, n, k)
}

#[test]
fn pack_then_open_returns_message() {
    let (m, n, k) = sample_inputs();
    let mut cr = JsAsyncSBoxCryptor::new(2);
    let packed = cr.pack(&m, &n, &k, 1);
    let c = match packed {
        EncrResult::Success(c) => c,
        other => panic!("pack failed: {:?}", other),
    };
    assert_eq!(c.len(), m.len() + 16);
    match cr.open(&c, &n, &k, 1) {
        EncrResult::Success(out) => assert_eq!(out, m),
        other => panic!("open failed: {:?}", other),
    }
}

#[test]
fn round_trip_law_functions_return_message() {
    let (m, n, k) = sample_inputs();
    let mut cr = JsAsyncSBoxCryptor::new(2);
    assert_eq!(sbox_round_trip(&mut cr, &m, &n, &k, 3), m);
    assert_eq!(sbox_wn_round_trip(&mut cr, &m, &n, &k, 3), m);
    assert_eq!(cr.label_count(3), 0);
}

#[test]
fn flipping_any_cipher_bit_fails_verification() {
    // flipping any single bit of the cipher makes opening report cipher
    // verification failure: never a crash, never a wrong message
    let (m, n, k) = sample_inputs();
    let mut cr = JsAsyncSBoxCryptor::new(2);
    let c = match cr.pack(&m, &n, &k, 1) {
        EncrResult::Success(c) => c,
        other => panic!("pack failed: {:?}", other),
    };
    for byte in 0..c.len() {
        for bit in 0..8 {
            let mut tampered = c.clone();
            tampered[byte] ^= 1u8 << bit;
            match cr.open(&tampered, &n, &k, 1) {
                EncrResult::CipherVerificationErr => {}
                other => panic!(
                    "tampered cipher (byte {}, bit {}) was not rejected: {:?}",
                    byte, bit, other
                ),
            }
        }
    }
}

#[test]
fn wrong_lengths_surface_as_configuration_errors() {
    let (m, n, k) = sample_inputs();
    let mut cr = JsAsyncSBoxCryptor::new(2);
    let short_nonce = vec![0u8; 23];
    let short_key = vec![0u8; 31];
    let empty: Vec<u8> = Vec::new();
    assert!(matches!(cr.pack(&m, &short_nonce, &k, 1), EncrResult::ConfigurationErr(_)));
    assert!(matches!(cr.pack(&m, &n, &short_key, 1), EncrResult::ConfigurationErr(_)));
    assert!(matches!(cr.pack(&empty, &n, &k, 1), EncrResult::ConfigurationErr(_)));
    let tiny_cipher = vec![0u8; 16];
    assert!(matches!(cr.open(&tiny_cipher, &n, &k, 1), EncrResult::ConfigurationErr(_)));
    let short_envelope = vec![0u8; 40];
    assert!(matches!(cr.open_format_w_n(&short_envelope, &k, 1), EncrResult::ConfigurationErr(_)));
}

#[test]
fn with_nonce_envelope_carries_its_nonce() {
    let (m, n, k) = sample_inputs();
    let mut cr = JsAsyncSBoxCryptor::new(2);
    let c = match cr.pack_format_w_n(&m, &n, &k, 2) {
        EncrResult::Success(c) => c,
        other => panic!("pack failed: {:?}", other),
    };
    assert_eq!(c.len(), m.len() + 40);
    assert_eq!(copy_nonce_from_format_w_n(&c).unwrap(), n);
    match cr.open_format_w_n(&c, &k, 2) {
        EncrResult::Success(out) => assert_eq!(out, m),
        other => panic!("open failed: {:?}", other),
    }
}

#[test]
fn with_nonce_envelope_matches_plain_pack() {
    // the envelope is the nonce followed by exactly the plain cipher bytes
    let (m, n, k) = sample_inputs();
    let mut cr = JsAsyncSBoxCryptor::new(2);
    let plain = match cr.pack(&m, &n, &k, 1) {
        EncrResult::Success(c) => c,
        other => panic!("pack failed: {:?}", other),
    };
    let wn = match cr.pack_format_w_n(&m, &n, &k, 1) {
        EncrResult::Success(c) => c,
        other => panic!("pack failed: {:?}", other),
    };
    assert_eq!(&wn[..24], &n[..]);
    assert_eq!(&wn[24..], &plain[..]);
}

#[test]
fn copy_nonce_rejects_short_envelope() {
    let short = vec![0u8; 40];
    match copy_nonce_from_format_w_n(&short) {
        Err(CryptoFailure::Configuration(_)) => {}
        other => panic!("short envelope was not rejected: {:?}", other),
    }
}

#[test]
fn plus_five_adds_five() {
    assert_eq!(cryptor::plus_five(0), 5);
    assert_eq!(cryptor::plus_five(37), 42);
}
