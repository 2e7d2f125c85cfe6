//! Result mapping: crypto-provider outcomes become one explicit, tagged
//! result value, so a recoverable failure is returned, never thrown.

use vstd::prelude::*;

verus! {

/// A recoverable failure reported by a crypto primitive.
#[derive(Debug, PartialEq, Eq)]
pub enum CryptoFailure {
    /// Authentication tag mismatch on decryption.
    CipherVerification,
    /// Signature does not match message and key.
    SignatureVerification,
    /// Malformed input, such as a wrong buffer length, with a diagnostic
    /// message.
    Configuration(String),
}

/// The tagged outcome of a dispatched crypto operation.  Recoverable
/// failures are carried as variants of this value rather than as errors.
#[derive(Debug, PartialEq, Eq)]
pub enum EncrResult {
    Success(Vec<u8>),
    CipherVerificationErr,
    SignatureVerificationErr,
    ConfigurationErr(String),
}

/// What the result mapper returns for a given provider outcome.
pub open spec fn encr_result_of(outcome: Result<Vec<u8>, CryptoFailure>) -> EncrResult {
    match outcome {
        Result::Ok(bytes) => EncrResult::Success(bytes),
        Result::Err(CryptoFailure::CipherVerification) => EncrResult::CipherVerificationErr,
        Result::Err(CryptoFailure::SignatureVerification) => EncrResult::SignatureVerificationErr,
        Result::Err(CryptoFailure::Configuration(message)) => EncrResult::ConfigurationErr(
            message,
        ),
    }
}

/// Translates a crypto-provider outcome into the tagged result value: each
/// recoverable failure becomes its named variant, success keeps its payload.
pub fn into_encr_result(outcome: Result<Vec<u8>, CryptoFailure>) -> (r: EncrResult)
    ensures
        r == encr_result_of(outcome),
{
    match outcome {
        Result::Ok(bytes) => EncrResult::Success(bytes),
        Result::Err(CryptoFailure::CipherVerification) => EncrResult::CipherVerificationErr,
        Result::Err(CryptoFailure::SignatureVerification) => EncrResult::SignatureVerificationErr,
        Result::Err(CryptoFailure::Configuration(message)) => EncrResult::ConfigurationErr(
            message,
        ),
    }
}

} // verus!
