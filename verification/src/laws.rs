//! Round-trip guarantees, stated over the facades' contracts and checked
//! end to end: what one primitive produces, its counterpart accepts.

use vstd::prelude::*;
use vstd::pervasive::unreached;
use crate::outcome::EncrResult;
use crate::registry::count_of;
use crate::sbox::JsAsyncSBoxCryptor;
use crate::signing::JsAsyncSigning;

verus! {

/// Opening a cipher just packed with the same nonce and key returns exactly
/// the packed message, for every non-empty message, 24-byte nonce and
/// 32-byte key; the registry is left as it was.
pub fn sbox_round_trip(cryptor: &mut JsAsyncSBoxCryptor, m: &Vec<u8>, n: &Vec<u8>, k: &Vec<u8>, work_label: u32) -> (r: Vec<u8>)
    requires
        old(cryptor).wf(),
        count_of(old(cryptor).labels_view(), work_label) < u32::MAX,
        m@.len() > 0,
        n@.len() == 24,
        k@.len() == 32,
    ensures
        r@ == m@,
        final(cryptor).wf(),
        final(cryptor).labels_view() == old(cryptor).labels_view(),
{
    let packed = cryptor.pack(m, n, k, work_label);
    let c = match packed {
        EncrResult::Success(c) => c,
        _ => unreached(),
    };
    let opened = cryptor.open(&c, n, k, work_label);
    match opened {
        EncrResult::Success(out) => out,
        _ => unreached(),
    }
}

/// Opening a with-nonce envelope just packed with the same key returns
/// exactly the packed message, for every non-empty message, 24-byte nonce
/// and 32-byte key; the registry is left as it was.
pub fn sbox_wn_round_trip(cryptor: &mut JsAsyncSBoxCryptor, m: &Vec<u8>, n: &Vec<u8>, k: &Vec<u8>, work_label: u32) -> (r: Vec<u8>)
    requires
        old(cryptor).wf(),
        count_of(old(cryptor).labels_view(), work_label) < u32::MAX,
        m@.len() > 0,
        n@.len() == 24,
        k@.len() == 32,
    ensures
        r@ == m@,
        final(cryptor).wf(),
        final(cryptor).labels_view() == old(cryptor).labels_view(),
{
    let packed = cryptor.pack_format_w_n(m, n, k, work_label);
    let c = match packed {
        EncrResult::Success(c) => c,
        _ => unreached(),
    };
    let opened = cryptor.open_format_w_n(&c, k, work_label);
    match opened {
        EncrResult::Success(out) => out,
        _ => unreached(),
    }
}

/// A signature made with the secret half of a seed-derived keypair verifies
/// against the keypair's public half, for every non-empty message and
/// 32-byte seed.
pub fn sign_round_trip(signing: &JsAsyncSigning, m: &Vec<u8>, seed: &Vec<u8>) -> (ok: bool)
    requires
        m@.len() > 0,
        seed@.len() == 32,
    ensures
        ok,
{
    let kp = signing.generate_keypair(seed);
    let sig = match signing.signature(m, &kp.skey) {
        Ok(sig) => sig,
        Err(_) => unreached(),
    };
    proof {
        assert(kp.skey@.subrange(32, 64) =~= kp.pkey@);
    }
    match signing.verify(&sig, m, &kp.pkey) {
        Ok(b) => b,
        Err(_) => unreached(),
    }
}

} // verus!
