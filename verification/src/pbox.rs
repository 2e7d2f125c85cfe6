//! Public-key Diffie-Hellman primitives: deriving a public key from a
//! secret key, and computing a shared key from a public and a secret key.
//! These run unlabeled: no admission accounting applies.

use vstd::prelude::*;
use crate::outcome::CryptoFailure;

verus! {

pub const PBOX_KEY_LENGTH: u32 = 32;

pub const PBOX_JWK_ALG_NAME: &'static str = "NaCl-box-CXSP";

/// The public key derived from a 32-byte secret key by curve25519 base-point
/// multiplication.
pub uninterp spec fn pbox_pubkey_of(sk: Seq<u8>) -> Seq<u8>;

/// The Diffie-Hellman shared key computed from a 32-byte public key and a
/// 32-byte secret key.
pub uninterp spec fn dh_shared_of(pk: Seq<u8>, sk: Seq<u8>) -> Seq<u8>;

/// Relies on nacl::public_box::generate_pubkey: rejects a secret key that is
/// not 32 bytes with a configuration error, and otherwise returns the
/// 32-byte curve25519 public key.
#[verifier::external_body]
fn pbox_generate_pubkey_call(sk: &Vec<u8>) -> (r: Result<Vec<u8>, CryptoFailure>)
    ensures
        r is Ok <==> sk@.len() == 32,
        r matches Ok(pk) ==> (pk@ == pbox_pubkey_of(sk@) && pk@.len() == 32),
        r matches Err(e) ==> e is Configuration,
{
    match nacl::public_box::generate_pubkey(sk) {
        Ok(pk) => Ok(pk),
        Err(e) => Err(match e.condition {
            nacl::ErrorCondition::CipherVerification => CryptoFailure::CipherVerification,
            nacl::ErrorCondition::SignatureVerification => CryptoFailure::SignatureVerification,
            nacl::ErrorCondition::Configuration => CryptoFailure::Configuration(e.message),
        }),
    }
}

/// Relies on nacl::public_box::calc_dhshared_key: rejects a public or secret
/// key that is not 32 bytes with a configuration error, and otherwise
/// returns the 32-byte dh-style shared key.
#[verifier::external_body]
fn pbox_calc_dhshared_key_call(pk: &Vec<u8>, sk: &Vec<u8>) -> (r: Result<Vec<u8>, CryptoFailure>)
    ensures
        r is Ok <==> (pk@.len() == 32 && sk@.len() == 32),
        r matches Ok(s) ==> (s@ == dh_shared_of(pk@, sk@) && s@.len() == 32),
        r matches Err(e) ==> e is Configuration,
{
    match nacl::public_box::calc_dhshared_key(pk, sk) {
        Ok(s) => Ok(s),
        Err(e) => Err(match e.condition {
            nacl::ErrorCondition::CipherVerification => CryptoFailure::CipherVerification,
            nacl::ErrorCondition::SignatureVerification => CryptoFailure::SignatureVerification,
            nacl::ErrorCondition::Configuration => CryptoFailure::Configuration(e.message),
        }),
    }
}

/// Key-exchange facade.  Stateless: every call is a pure function of its
/// byte arguments.
pub struct JsAsyncPBox {}

impl JsAsyncPBox {
    pub fn new() -> (r: Self) {
        JsAsyncPBox {}
    }

    /// Derives the public key belonging to a 32-byte secret key.
    pub fn generate_pubkey(&self, sk: &Vec<u8>) -> (r: Result<Vec<u8>, CryptoFailure>)
        ensures
            r is Ok <==> sk@.len() == 32,
            r matches Ok(pk) ==> (pk@ == pbox_pubkey_of(sk@) && pk@.len() == 32),
            r matches Err(e) ==> e is Configuration,
    {
        pbox_generate_pubkey_call(sk)
    }

    /// Computes the dh-style shared key for a public and a secret key, both
    /// 32 bytes.
    pub fn calc_dhshared_key(&self, pk: &Vec<u8>, sk: &Vec<u8>) -> (r: Result<Vec<u8>, CryptoFailure>)
        ensures
            r is Ok <==> (pk@.len() == 32 && sk@.len() == 32),
            r matches Ok(s) ==> (s@ == dh_shared_of(pk@, sk@) && s@.len() == 32),
            r matches Err(e) ==> e is Configuration,
    {
        pbox_calc_dhshared_key_call(pk, sk)
    }
}

} // verus!
