// the exported byte lengths and algorithm names must be exactly what the
// underlying provider uses, else key metadata would disagree with the
// primitives

#[test]
fn sbox_constants_match_provider() {
    assert_eq!(cryptor::SBOX_KEY_LENGTH as usize, nacl::secret_box::KEY_LENGTH);
    assert_eq!(cryptor::SBOX_NONCE_LENGTH as usize, nacl::secret_box::NONCE_LENGTH);
    assert_eq!(cryptor::SBOX_POLY_LENGTH as usize, nacl::secret_box::POLY_LENGTH);
    assert_eq!(cryptor::SBOX_JWK_ALG_NAME, nacl::secret_box::JWK_ALG_NAME);
}

#[test]
fn pbox_constants_match_provider() {
    assert_eq!(cryptor::PBOX_KEY_LENGTH as usize, nacl::public_box::KEY_LENGTH);
    assert_eq!(cryptor::PBOX_JWK_ALG_NAME, nacl::public_box::JWK_ALG_NAME);
}

#[test]
fn signing_constants_match_provider() {
    assert_eq!(cryptor::SIGNING_SEED_LENGTH as usize, nacl::sign::SEED_LENGTH);
    assert_eq!(cryptor::SIGNING_PUBLIC_KEY_LENGTH as usize, nacl::sign::PUBLIC_KEY_LENGTH);
    assert_eq!(cryptor::SIGNING_SECRET_KEY_LENGTH as usize, nacl::sign::SECRET_KEY_LENGTH);
    assert_eq!(cryptor::SIGNING_JWK_ALG_NAME, nacl::sign::JWK_ALG_NAME);
}

use cryptor::CryptoFailure;
use cryptor::EncrResult;

#[test]
fn result_mapper_tags_each_outcome() {
    let ok = cryptor::outcome::into_encr_result(Ok(vec![1u8, 2, 3]));
    assert_eq!(ok, EncrResult::Success(vec![1u8, 2, 3]));
    let cipher = cryptor::outcome::into_encr_result(Err(CryptoFailure::CipherVerification));
    assert_eq!(cipher, EncrResult::CipherVerificationErr);
    let sig = cryptor::outcome::into_encr_result(Err(CryptoFailure::SignatureVerification));
    assert_eq!(sig, EncrResult::SignatureVerificationErr);
    let conf = cryptor::outcome::into_encr_result(
        Err(CryptoFailure::Configuration("bad length".to_string())),
    );
    assert_eq!(conf, EncrResult::ConfigurationErr("bad length".to_string()));
}

#[test]
fn cryptor_facades_are_available() {
    let engine = cryptor::JsCryptor::make_treaded(4, "crypto-pool".to_string());
    assert_eq!(engine.sbox().can_start_under_work_label(0), 4);
    let pbox = engine.pbox();
    let sk = vec![9u8; 32];
    assert!(pbox.generate_pubkey(&sk).is_ok());
    let signing = engine.signing();
    let seed = vec![5u8; 32];
    let kp = signing.generate_keypair(&seed);
    assert_eq!(kp.pkey.len(), 32);
}

#[test]
fn cryptor_sbox_handle_dispatches_labeled_work() {
    let mut engine = cryptor::JsCryptor::make_treaded(2, "crypto-pool".to_string());
    let m = vec![1u8; 4];
    let n = vec![2u8; 24];
    let k = vec![3u8; 32];
    let sbox = engine.sbox_mut();
    let packed = sbox.pack(&m, &n, &k, 1);
    match packed {
        cryptor::EncrResult::Success(c) => {
            assert_eq!(c.len(), 20);
        }
        other => panic!("pack failed: {:?}", other),
    }
    assert_eq!(engine.sbox().label_count(1), 0);
}
