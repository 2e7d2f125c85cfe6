//! Ed25519 signing primitives: seed-based keypair generation, detached
//! signatures and signature verification.  These run unlabeled: no
//! admission accounting applies.

use vstd::prelude::*;
use crate::outcome::CryptoFailure;

verus! {

pub const SIGNING_SEED_LENGTH: u32 = 32;

pub const SIGNING_PUBLIC_KEY_LENGTH: u32 = 32;

pub const SIGNING_SECRET_KEY_LENGTH: u32 = 64;

pub const SIGNING_JWK_ALG_NAME: &'static str = "NaCl-sign-Ed25519";

/// The 32-byte ed25519 public key derived from a 32-byte seed.
pub uninterp spec fn sign_pubkey_of(seed: Seq<u8>) -> Seq<u8>;

/// The 64-byte detached signature over a message for a 64-byte secret key.
pub uninterp spec fn signature_of(m: Seq<u8>, sk: Seq<u8>) -> Seq<u8>;

/// Whether a signature verifies over a message for a 32-byte public key.
pub uninterp spec fn sign_verifies(sig: Seq<u8>, m: Seq<u8>, pk: Seq<u8>) -> bool;

/// A secret-key/public-key pair for signing.
pub struct JsKeypair {
    pub skey: Vec<u8>,
    pub pkey: Vec<u8>,
}

/// A secret key is well formed when it is the 32-byte seed followed by the
/// public key that the seed derives; keypair generation produces exactly
/// this shape.
pub open spec fn sign_keypair_ok(sk: Seq<u8>) -> bool {
    sk.len() == 64 && sk.subrange(32, 64) == sign_pubkey_of(sk.subrange(0, 32))
}

/// Relies on nacl::sign::generate_keypair: from a 32-byte seed, the secret
/// key is the seed followed by the derived 32-byte public key.  The call
/// reads exactly 32 seed bytes, so any other seed length is excluded.
#[verifier::external_body]
fn sign_generate_keypair_call(seed: &Vec<u8>) -> (kp: JsKeypair)
    requires
        seed@.len() == 32,
    ensures
        kp.pkey@ == sign_pubkey_of(seed@),
        kp.pkey@.len() == 32,
        kp.skey@ == seed@ + sign_pubkey_of(seed@),
        kp.skey@.len() == 64,
{
    let pair = nacl::sign::generate_keypair(seed);
    JsKeypair { skey: Vec::from(pair.skey), pkey: Vec::from(pair.pkey) }
}

/// Relies on nacl::sign::signature: rejects a secret key that is not 64
/// bytes or an empty message with a configuration error, and otherwise
/// returns the 64-byte detached signature, which verifies against the
/// public half of a well-formed keypair.
#[verifier::external_body]
fn sign_signature_call(m: &Vec<u8>, sk: &Vec<u8>) -> (r: Result<Vec<u8>, CryptoFailure>)
    ensures
        r is Ok <==> (sk@.len() == 64 && m@.len() > 0),
        r matches Ok(sig) ==> (sig@ == signature_of(m@, sk@) && sig@.len() == 64),
        r matches Ok(sig) ==> (sign_keypair_ok(sk@) ==> sign_verifies(sig@, m@, sk@.subrange(32, 64))),
        r matches Err(e) ==> e is Configuration,
{
    match nacl::sign::signature(m, sk) {
        Ok(sig) => Ok(sig),
        Err(e) => Err(match e.condition {
            nacl::ErrorCondition::CipherVerification => CryptoFailure::CipherVerification,
            nacl::ErrorCondition::SignatureVerification => CryptoFailure::SignatureVerification,
            nacl::ErrorCondition::Configuration => CryptoFailure::Configuration(e.message),
        }),
    }
}

/// Relies on nacl::sign::verify: rejects a public key that is not 32 bytes
/// with a configuration error, and otherwise reports whether the signature
/// verifies over the message for that key; a mismatch is an ordinary false,
/// never an error.
#[verifier::external_body]
fn sign_verify_call(sig: &Vec<u8>, m: &Vec<u8>, pk: &Vec<u8>) -> (r: Result<bool, CryptoFailure>)
    ensures
        r is Ok <==> pk@.len() == 32,
        r matches Ok(b) ==> b == sign_verifies(sig@, m@, pk@),
        r matches Err(e) ==> e is Configuration,
{
    match nacl::sign::verify(sig, m, pk) {
        Ok(b) => Ok(b),
        Err(e) => Err(match e.condition {
            nacl::ErrorCondition::CipherVerification => CryptoFailure::CipherVerification,
            nacl::ErrorCondition::SignatureVerification => CryptoFailure::SignatureVerification,
            nacl::ErrorCondition::Configuration => CryptoFailure::Configuration(e.message),
        }),
    }
}

/// Signing facade.  Stateless: every call is a pure function of its byte
/// arguments.
pub struct JsAsyncSigning {}

impl JsAsyncSigning {
    pub fn new() -> (r: Self) {
        JsAsyncSigning {}
    }

    /// Signs a message with a 64-byte secret key, returning the 64-byte
    /// detached signature.
    pub fn signature(&self, m: &Vec<u8>, sk: &Vec<u8>) -> (r: Result<Vec<u8>, CryptoFailure>)
        ensures
            r is Ok <==> (sk@.len() == 64 && m@.len() > 0),
            r matches Ok(sig) ==> (sig@ == signature_of(m@, sk@) && sig@.len() == 64),
            r matches Ok(sig) ==> (sign_keypair_ok(sk@) ==> sign_verifies(sig@, m@, sk@.subrange(32, 64))),
            r matches Err(e) ==> e is Configuration,
    {
        sign_signature_call(m, sk)
    }

    /// Reports whether a signature verifies over a message for a 32-byte
    /// public key; a mismatch is an ordinary false, never an error.
    pub fn verify(&self, sig: &Vec<u8>, m: &Vec<u8>, pk: &Vec<u8>) -> (r: Result<bool, CryptoFailure>)
        ensures
            r is Ok <==> pk@.len() == 32,
            r matches Ok(b) ==> b == sign_verifies(sig@, m@, pk@),
            r matches Err(e) ==> e is Configuration,
    {
        sign_verify_call(sig, m, pk)
    }

    /// Generates the signing keypair determined by a 32-byte seed: the
    /// secret key is the seed followed by the derived public key.
    pub fn generate_keypair(&self, seed: &Vec<u8>) -> (kp: JsKeypair)
        requires
            seed@.len() == 32,
        ensures
            kp.pkey@ == sign_pubkey_of(seed@),
            kp.pkey@.len() == 32,
            kp.skey@ == seed@ + sign_pubkey_of(seed@),
            kp.skey@.len() == 64,
            sign_keypair_ok(kp.skey@),
    {
        let kp = sign_generate_keypair_call(seed);
        proof {
            assert(kp.skey@.subrange(0, 32) =~= seed@);
            assert(kp.skey@.subrange(32, 64) =~= sign_pubkey_of(seed@));
        }
        kp
    }
}

} // verus!
