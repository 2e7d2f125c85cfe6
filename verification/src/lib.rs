use vstd::prelude::*;

pub mod admission;
pub mod cryptor;
pub mod kdf;
pub mod laws;
pub mod outcome;
pub mod pbox;
pub mod registry;
pub mod sbox;
pub mod signing;

pub use cryptor::JsCryptor;
pub use outcome::CryptoFailure;
pub use outcome::EncrResult;
pub use pbox::JsAsyncPBox;
pub use pbox::PBOX_JWK_ALG_NAME;
pub use pbox::PBOX_KEY_LENGTH;
pub use signing::JsAsyncSigning;
pub use signing::JsKeypair;
pub use signing::SIGNING_JWK_ALG_NAME;
pub use signing::SIGNING_PUBLIC_KEY_LENGTH;
pub use signing::SIGNING_SECRET_KEY_LENGTH;
pub use signing::SIGNING_SEED_LENGTH;
pub use registry::LabelRegistry;
pub use sbox::JsAsyncSBoxCryptor;
pub use sbox::SBOX_JWK_ALG_NAME;
pub use sbox::SBOX_KEY_LENGTH;
pub use sbox::SBOX_NONCE_LENGTH;
pub use sbox::SBOX_POLY_LENGTH;
pub use sbox::copy_nonce_from_format_w_n;

verus! {

/// Adds five to the given number.
pub fn plus_five(x: u32) -> (r: u32)
    requires
        x <= u32::MAX - 5,
    ensures
        r == x + 5,
{
    x + 5
}

} // verus!
