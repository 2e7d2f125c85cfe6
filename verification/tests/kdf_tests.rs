use cryptor::JsCryptor;
use cryptor::CryptoFailure;

fn engine() -> JsCryptor {
    JsCryptor::make_treaded(2, "kdf-pool".to_string())
}

#[test]
fn scrypt_matches_reference_vector() {
    // scrypt test vector with cost exponent 4, block size 1, parallelism 1
    // over empty password and salt
    let expected: Vec<u8> = vec![
        0x77, 0xd6, 0x57, 0x62, 0x38, 0x65, 0x7b, 0x20, 0x3b, 0x19, 0xca, 0x42, 0xc1, 0x8a, 0x04,
        0x97, 0xf1, 0x6b, 0x48, 0x44, 0xe3, 0x07, 0x4a, 0xe8, 0xdf, 0xdf, 0xfa, 0x3f, 0xed, 0xe2,
        0x14, 0x42, 0xfc, 0xd0, 0x06, 0x9d, 0xed, 0x09, 0x48, 0xf8, 0x32, 0x6a, 0x75, 0x3a, 0x0f,
        0xc8, 0x1f, 0x17, 0xe8, 0xd3, 0xe0, 0xfb, 0x2e, 0x0d, 0x36, 0x28, 0xcf, 0x35, 0xe2, 0x0c,
        0x38, 0xd1, 0x89, 0x06,
    ];
    let passwd: Vec<u8> = Vec::new();
    let salt: Vec<u8> = Vec::new();
    let (outcome, _progress) = engine().scrypt(&passwd, &salt, 4, 1, 1, 64);
    assert_eq!(outcome.unwrap(), expected);
}

#[test]
fn scrypt_is_deterministic() {
    let passwd: Vec<u8> = b"password".to_vec();
    let salt: Vec<u8> = b"salty".to_vec();
    let (first, _) = engine().scrypt(&passwd, &salt, 4, 2, 2, 32);
    let (second, _) = engine().scrypt(&passwd, &salt, 4, 2, 2, 32);
    let first = first.unwrap();
    let second = second.unwrap();
    assert_eq!(first.len(), 32);
    assert_eq!(first, second);
}

#[test]
fn scrypt_progress_is_monotone_and_ends_at_hundred() {
    let passwd: Vec<u8> = b"password".to_vec();
    let salt: Vec<u8> = b"salty".to_vec();
    let (outcome, progress) = engine().scrypt(&passwd, &salt, 6, 1, 1, 16);
    assert!(outcome.is_ok());
    assert!(progress.len() >= 2);
    assert_eq!(progress[0], 3);
    assert_eq!(*progress.last().unwrap(), 100);
    for pair in progress.windows(2) {
        assert!(pair[0] <= pair[1]);
    }
    assert!(progress.iter().all(|&p| p <= 100));
}

#[test]
fn scrypt_rejects_oversized_cost_parameters() {
    let passwd: Vec<u8> = b"pw".to_vec();
    let salt: Vec<u8> = b"na".to_vec();
    // cost exponent over 31 is rejected
    let (outcome, progress) = engine().scrypt(&passwd, &salt, 32, 1, 1, 16);
    match outcome {
        Err(CryptoFailure::Configuration(_)) => {}
        other => panic!("oversized cost exponent was not rejected: {:?}", other),
    }
    assert!(progress.is_empty());
    // block-size and parallelism product of 2^30 or more is rejected
    let (outcome, progress) = engine().scrypt(&passwd, &salt, 4, 1 << 15, 1 << 15, 16);
    match outcome {
        Err(CryptoFailure::Configuration(_)) => {}
        other => panic!("oversized block/parallelism product was not rejected: {:?}", other),
    }
    assert!(progress.is_empty());
}
