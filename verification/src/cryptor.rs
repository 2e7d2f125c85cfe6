//! The owning engine: one fixed-capacity worker pool plus the label
//! registry, created together, with facades for each primitive family
//! derived from it.

use vstd::prelude::*;
use crate::kdf::{scrypt_call, scrypt_of, scrypt_params_ok, scrypt_params_safe};
use crate::outcome::CryptoFailure;
use crate::pbox::JsAsyncPBox;
use crate::registry::empty_reg;
use crate::sbox::JsAsyncSBoxCryptor;
use crate::signing::JsAsyncSigning;

verus! {

/// Engine owning the secret-box facade (with its label registry and pool
/// capacity) and a diagnostic pool name.
pub struct JsCryptor {
    sbox: JsAsyncSBoxCryptor,
    thread_name: String,
}

impl JsCryptor {
    /// The secret-box facade's state: label registry and pool capacity.
    pub closed spec fn sbox_state(self) -> JsAsyncSBoxCryptor {
        self.sbox
    }

    /// The diagnostic name the pool was created with.
    pub closed spec fn pool_name(self) -> Seq<char> {
        self.thread_name@
    }

    /// Creates an engine with a fixed pool capacity and a diagnostic name.
    /// The pool must have at least one thread.
    pub fn make_treaded(max_num_of_threads: u32, thread_name: String) -> (r: Self)
        requires
            max_num_of_threads >= 1,
        ensures
            r.sbox_state().wf(),
            r.sbox_state().labels_view() == empty_reg(),
            r.sbox_state().max_threads() == max_num_of_threads,
            r.pool_name() == thread_name@,
    {
        JsCryptor { sbox: JsAsyncSBoxCryptor::new(max_num_of_threads), thread_name }
    }

    /// Read access to the secret-box facade, for admission queries.
    pub fn sbox(&self) -> (r: &JsAsyncSBoxCryptor)
        ensures
            *r == self.sbox_state(),
    {
        &self.sbox
    }

    /// Mutable access to the secret-box facade, for dispatching labeled
    /// work.
    pub fn sbox_mut(&mut self) -> (r: &mut JsAsyncSBoxCryptor)
        ensures
            *r == old(self).sbox_state(),
            final(self).sbox_state() == *final(r),
            final(self).pool_name() == old(self).pool_name(),
    {
        &mut self.sbox
    }

    /// The key-exchange facade sharing this engine's pool.
    pub fn pbox(&self) -> JsAsyncPBox {
        JsAsyncPBox::new()
    }

    /// The signing facade sharing this engine's pool.
    pub fn signing(&self) -> JsAsyncSigning {
        JsAsyncSigning::new()
    }

    /// Derives a key of the requested length from a password and salt;
    /// beside the outcome, returns the progress percentages the derivation
    /// reported, a non-decreasing sequence ending at 100.
    pub fn scrypt(&self, passwd: &Vec<u8>, salt: &Vec<u8>, log_n: u8, r: u32, p: u32, dk_len: u32) -> (res: (
        Result<Vec<u8>, CryptoFailure>,
        Vec<u32>,
    ))
        requires
            scrypt_params_safe(log_n, r, p),
        ensures
            res.0 is Ok <==> scrypt_params_ok(log_n, r, p),
            res.0 matches Ok(key) ==> (key@ == scrypt_of(passwd@, salt@, log_n, r, p, dk_len) && key@.len() == dk_len),
            res.0 matches Err(e) ==> e is Configuration,
            res.0 is Ok ==> (res.1@.len() >= 2 && res.1@[0] == 3 && res.1@.last() == 100),
            res.0 is Ok ==> (forall|i: int, j: int| 0 <= i <= j < res.1@.len() ==> res.1@[i] <= res.1@[j]),
            res.0 is Err ==> res.1@.len() == 0,
    {
        scrypt_call(passwd, salt, log_n, r, p, dk_len)
    }
}

} // verus!
