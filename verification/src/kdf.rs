//! Memory-hard password-based key derivation.  The derived key is a pure
//! function of password, salt and cost parameters; progress is reported as
//! a list of percentages collected while the derivation ran.

use vstd::prelude::*;
use vstd::arithmetic::power2::pow2;
use crate::outcome::CryptoFailure;

verus! {

/// The key that scrypt derivation yields for a password, salt, cost
/// exponent, block size, parallelism and output length.
pub uninterp spec fn scrypt_of(
    passwd: Seq<u8>,
    salt: Seq<u8>,
    log_n: u8,
    r: u32,
    p: u32,
    dk_len: u32,
) -> Seq<u8>;

/// Cost parameters the derivation accepts: a cost exponent of at most 31
/// and a block-size/parallelism product below 2^30.
pub open spec fn scrypt_params_ok(log_n: u8, r: u32, p: u32) -> bool {
    log_n <= 31 && (r as nat) * (p as nat) < 0x40000000
}

/// Inputs on which the derivation runs without overflowing its internal
/// 32-bit progress arithmetic: block size and parallelism of at least one,
/// and twice the cost times the parallelism still fitting in 32 bits.
pub open spec fn scrypt_params_safe(log_n: u8, r: u32, p: u32) -> bool {
    r >= 1 && p >= 1 && (log_n <= 31 ==> 2 * pow2(log_n as nat) * (p as nat) < 0x100000000)
}

/// Relies on nacl::scrypt: rejects a cost exponent over 31 or a
/// block-size/parallelism product of 2^30 or more with a configuration
/// error, and otherwise derives a key of the requested length.  The
/// progress callback is first invoked with 3, then with non-decreasing
/// percentages, and last with 100 just before the key is returned; on a
/// rejected input it is never invoked.  The collected percentages are
/// returned beside the outcome.
#[verifier::external_body]
pub(crate) fn scrypt_call(passwd: &Vec<u8>, salt: &Vec<u8>, log_n: u8, r: u32, p: u32, dk_len: u32) -> (res: (
    Result<Vec<u8>, CryptoFailure>,
    Vec<u32>,
))
    requires
        scrypt_params_safe(log_n, r, p),
    ensures
        res.0 is Ok <==> scrypt_params_ok(log_n, r, p),
        res.0 matches Ok(key) ==> (key@ == scrypt_of(passwd@, salt@, log_n, r, p, dk_len) && key@.len() == dk_len),
        res.0 matches Err(e) ==> e is Configuration,
        res.0 is Ok ==> (res.1@.len() >= 2 && res.1@[0] == 3 && res.1@.last() == 100),
        res.0 is Ok ==> (forall|i: int, j: int| 0 <= i <= j < res.1@.len() ==> res.1@[i] <= res.1@[j]),
        res.0 is Err ==> res.1@.len() == 0,
{
    let progress: std::cell::RefCell<Vec<u32>> = std::cell::RefCell::new(Vec::new());
    let cb = |pc: u32| { progress.borrow_mut().push(pc); };
    let outcome = nacl::scrypt(passwd, salt, log_n, r as usize, p as usize, dk_len as usize, &cb);
    let reported = progress.into_inner();
    match outcome {
        Ok(key) => (Ok(key), reported),
        Err(e) => (Err(match e.condition {
            nacl::ErrorCondition::CipherVerification => CryptoFailure::CipherVerification,
            nacl::ErrorCondition::SignatureVerification => CryptoFailure::SignatureVerification,
            nacl::ErrorCondition::Configuration => CryptoFailure::Configuration(e.message),
        }), reported),
    }
}

} // verus!
