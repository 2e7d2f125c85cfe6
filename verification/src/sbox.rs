//! Authenticated symmetric encryption dispatched under label accounting:
//! every packing or opening call increments its label's in-flight count
//! before the work and decrements it on every exit path, so the admission
//! advisor always sees exact counts.

use vstd::prelude::*;
use crate::registry::{LabelRegistry, count_of, empty_reg, lemma_inc_dec_cancel, reg_dec, reg_inc};
use crate::admission::admission_hint_spec;
use crate::outcome::{CryptoFailure, EncrResult, into_encr_result};

verus! {

pub const SBOX_KEY_LENGTH: u32 = 32;

pub const SBOX_NONCE_LENGTH: u32 = 24;

pub const SBOX_POLY_LENGTH: u32 = 16;

pub const SBOX_JWK_ALG_NAME: &'static str = "NaCl-sbox-XSP";

/// The cipher that secret-box packing produces for a message, nonce and key:
/// a 16-byte authentication tag followed by the encrypted message.
pub uninterp spec fn sbox_cipher_of(m: Seq<u8>, n: Seq<u8>, k: Seq<u8>) -> Seq<u8>;

/// What secret-box opening yields for a cipher, nonce and key of valid
/// lengths: the recovered message, or nothing when the authentication tag
/// does not verify.
pub uninterp spec fn sbox_open_of(c: Seq<u8>, n: Seq<u8>, k: Seq<u8>) -> Option<Seq<u8>>;

/// Valid inputs for packing: a non-empty message, a 24-byte nonce and a
/// 32-byte key.
pub open spec fn sbox_pack_params_ok(m_len: int, n_len: int, k_len: int) -> bool {
    m_len > 0 && n_len == 24 && k_len == 32
}

/// Valid inputs for opening: a cipher of at least tag length plus one byte,
/// a 24-byte nonce and a 32-byte key.
pub open spec fn sbox_open_params_ok(c_len: int, n_len: int, k_len: int) -> bool {
    c_len >= 17 && n_len == 24 && k_len == 32
}

/// Relies on nacl::secret_box::pack: rejects an empty message and wrong
/// nonce or key lengths with a configuration error, and otherwise returns
/// the 16-byte poly1305 tag followed by the xsalsa20 cipher of the message,
/// which nacl::secret_box::open recovers with the same nonce and key.
#[verifier::external_body]
fn sbox_pack_call(m: &Vec<u8>, n: &Vec<u8>, k: &Vec<u8>) -> (r: Result<Vec<u8>, CryptoFailure>)
    ensures
        r is Ok <==> sbox_pack_params_ok(m@.len() as int, n@.len() as int, k@.len() as int),
        r matches Ok(c) ==> c@ == sbox_cipher_of(m@, n@, k@) && c@.len() == m@.len() + 16
            && sbox_open_of(c@, n@, k@) == Some(m@),
        r matches Err(e) ==> e is Configuration,
{
    match nacl::secret_box::pack(m, n, k) {
        Ok(c) => Ok(c),
        Err(e) => Err(match e.condition {
            nacl::ErrorCondition::CipherVerification => CryptoFailure::CipherVerification,
            nacl::ErrorCondition::SignatureVerification => CryptoFailure::SignatureVerification,
            nacl::ErrorCondition::Configuration => CryptoFailure::Configuration(e.message),
        }),
    }
}

/// Relies on nacl::secret_box::open: rejects wrong cipher, nonce or key
/// lengths with a configuration error; otherwise verifies the 16-byte tag,
/// reporting cipher verification failure on mismatch and returning the
/// decrypted message on success.
#[verifier::external_body]
fn sbox_open_call(c: &Vec<u8>, n: &Vec<u8>, k: &Vec<u8>) -> (r: Result<Vec<u8>, CryptoFailure>)
    ensures
        r is Ok <==> (sbox_open_params_ok(c@.len() as int, n@.len() as int, k@.len() as int) && sbox_open_of(c@, n@, k@) is Some),
        r matches Ok(msg) ==> (sbox_open_of(c@, n@, k@) == Some(msg@) && msg@.len() + 16 == c@.len()),
        r matches Err(e) ==> ((e is Configuration) <==> !sbox_open_params_ok(c@.len() as int, n@.len() as int, k@.len() as int)),
        r matches Err(e) ==> !(e is SignatureVerification),
{
    match nacl::secret_box::open(c, n, k) {
        Ok(msg) => Ok(msg),
        Err(e) => Err(match e.condition {
            nacl::ErrorCondition::CipherVerification => CryptoFailure::CipherVerification,
            nacl::ErrorCondition::SignatureVerification => CryptoFailure::SignatureVerification,
            nacl::ErrorCondition::Configuration => CryptoFailure::Configuration(e.message),
        }),
    }
}

/// Relies on nacl::secret_box::format_wn::pack: same input checks as plain
/// packing; the result is the 24-byte nonce followed by the tag-and-cipher
/// bytes that plain packing produces for the same inputs.
#[verifier::external_body]
fn sbox_pack_wn_call(m: &Vec<u8>, n: &Vec<u8>, k: &Vec<u8>) -> (r: Result<Vec<u8>, CryptoFailure>)
    ensures
        r is Ok <==> sbox_pack_params_ok(m@.len() as int, n@.len() as int, k@.len() as int),
        r matches Ok(c) ==> c@ == n@ + sbox_cipher_of(m@, n@, k@) && c@.len() == m@.len() + 40,
        r matches Ok(c) ==> sbox_open_of(c@.skip(24), c@.take(24), k@) == Some(m@),
        r matches Err(e) ==> e is Configuration,
{
    match nacl::secret_box::format_wn::pack(m, n, k) {
        Ok(c) => Ok(c),
        Err(e) => Err(match e.condition {
            nacl::ErrorCondition::CipherVerification => CryptoFailure::CipherVerification,
            nacl::ErrorCondition::SignatureVerification => CryptoFailure::SignatureVerification,
            nacl::ErrorCondition::Configuration => CryptoFailure::Configuration(e.message),
        }),
    }
}

/// Relies on nacl::secret_box::format_wn::open: rejects an envelope shorter
/// than 41 bytes or a wrong key length with a configuration error, and
/// otherwise opens the trailing cipher with the leading 24 bytes as nonce.
#[verifier::external_body]
fn sbox_open_wn_call(c: &Vec<u8>, k: &Vec<u8>) -> (r: Result<Vec<u8>, CryptoFailure>)
    ensures
        r is Ok <==> (c@.len() >= 41 && k@.len() == 32 && sbox_open_of(c@.skip(24), c@.take(24), k@) is Some),
        r matches Ok(msg) ==> (sbox_open_of(c@.skip(24), c@.take(24), k@) == Some(msg@) && msg@.len() + 40 == c@.len()),
        r matches Err(e) ==> ((e is Configuration) <==> (c@.len() < 41 || k@.len() != 32)),
        r matches Err(e) ==> !(e is SignatureVerification),
{
    match nacl::secret_box::format_wn::open(c, k) {
        Ok(msg) => Ok(msg),
        Err(e) => Err(match e.condition {
            nacl::ErrorCondition::CipherVerification => CryptoFailure::CipherVerification,
            nacl::ErrorCondition::SignatureVerification => CryptoFailure::SignatureVerification,
            nacl::ErrorCondition::Configuration => CryptoFailure::Configuration(e.message),
        }),
    }
}

/// Copies the nonce out of a with-nonce envelope without decrypting it: the
/// leading 24 bytes, available once the envelope is long enough to hold a
/// nonce, a tag and at least one cipher byte.
pub fn copy_nonce_from_format_w_n(c: &Vec<u8>) -> (r: Result<Vec<u8>, CryptoFailure>)
    ensures
        c@.len() >= 41 ==> (r matches Ok(n) && n@ == c@.take(24)),
        c@.len() < 41 ==> (r matches Err(e) && e is Configuration),
{
    if c.len() < 41 {
        return Err(
            CryptoFailure::Configuration(
                "cipher with nonce must hold at least 41 bytes".to_string(),
            ),
        );
    }
    let mut n: Vec<u8> = Vec::new();
    let mut i: usize = 0;
    while i < 24
        invariant
            i <= 24,
            c@.len() >= 41,
            n@ == c@.take(i as int),
        decreases 24 - i,
    {
        n.push(c[i]);
        proof {
            assert(c@.take(i + 1 as int) =~= c@.take(i as int).push(c@[i as int]));
        }
        i = i + 1;
    }
    Ok(n)
}

/// Secret-box encryption facade with per-label admission accounting over a
/// fixed-capacity worker pool.
pub struct JsAsyncSBoxCryptor {
    labels: LabelRegistry,
    max_num_of_threads: u32,
}

impl JsAsyncSBoxCryptor {
    /// The registry contents: each active label's in-flight count.
    pub closed spec fn labels_view(self) -> Map<u32, u32> {
        self.labels@
    }

    /// The worker pool's fixed thread count.
    pub closed spec fn max_threads(self) -> u32 {
        self.max_num_of_threads
    }

    pub closed spec fn wf(self) -> bool {
        self.labels.wf()
    }

    pub fn new(max_num_of_threads: u32) -> (r: Self)
        ensures
            r.wf(),
            r.labels_view() == empty_reg(),
            r.max_threads() == max_num_of_threads,
    {
        JsAsyncSBoxCryptor { labels: LabelRegistry::new(), max_num_of_threads }
    }

    /// Current in-flight count for the label, zero if it is absent.
    pub fn label_count(&self, work_label: u32) -> (c: u32)
        ensures
            c == count_of(self.labels_view(), work_label),
    {
        self.labels.count(work_label)
    }

    /// Records that one unit of labeled work is about to be dispatched:
    /// the admission step of the dispatch protocol.  A caller that runs
    /// work on its own pool brackets the work with this and
    /// `end_labeled_work` on every exit path.
    pub fn begin_labeled_work(&mut self, work_label: u32)
        requires
            old(self).wf(),
            count_of(old(self).labels_view(), work_label) < u32::MAX,
        ensures
            final(self).wf(),
            final(self).labels_view() == reg_inc(old(self).labels_view(), work_label),
            final(self).max_threads() == old(self).max_threads(),
    {
        self.labels.increment(work_label);
    }

    /// Records that one unit of labeled work has finished, whatever its
    /// outcome: the completion step of the dispatch protocol.
    pub fn end_labeled_work(&mut self, work_label: u32)
        requires
            old(self).wf(),
        ensures
            final(self).wf(),
            final(self).labels_view() == reg_dec(old(self).labels_view(), work_label),
            final(self).max_threads() == old(self).max_threads(),
    {
        self.labels.decrement(work_label);
    }

    /// Advisory hint: how many more units of work may be submitted under the
    /// label right now.  Purely a fairness signal; nothing enforces it.
    pub fn can_start_under_work_label(&self, work_label: u32) -> (hint: u32)
        ensures
            hint == admission_hint_spec(self.labels_view(), self.max_threads(), work_label),
    {
        let num_of_work_queues: usize = self.labels.active_label_count();
        if (self.max_num_of_threads as usize) <= num_of_work_queues {
            // the pool is saturated by distinct labels; a label that is not
            // yet active is still granted one slot
            if self.labels.contains(work_label) {
                0
            } else {
                1
            }
        } else {
            let idle: u32 = self.max_num_of_threads - (num_of_work_queues as u32);
            let current: u32 = self.labels.count(work_label);
            if idle <= current {
                0
            } else {
                idle - current
            }
        }
    }

    /// Packs a message into secret-box cipher bytes under label accounting.
    pub fn pack(&mut self, m: &Vec<u8>, n: &Vec<u8>, k: &Vec<u8>, work_label: u32) -> (r:
        EncrResult)
        requires
            old(self).wf(),
            count_of(old(self).labels_view(), work_label) < u32::MAX,
        ensures
            final(self).wf(),
            final(self).labels_view() == old(self).labels_view(),
            final(self).max_threads() == old(self).max_threads(),
            sbox_pack_params_ok(m@.len() as int, n@.len() as int, k@.len() as int) ==> (r matches
                EncrResult::Success(c) && c@ == sbox_cipher_of(m@, n@, k@) && c@.len() == m@.len()
                + 16 && sbox_open_of(c@, n@, k@) == Some(m@)),
            !sbox_pack_params_ok(m@.len() as int, n@.len() as int, k@.len() as int)
                ==> r is ConfigurationErr,
    {
        proof {
            lemma_inc_dec_cancel(old(self).labels_view(), work_label);
        }
        self.labels.increment(work_label);
        let outcome = sbox_pack_call(m, n, k);
        self.labels.decrement(work_label);
        into_encr_result(outcome)
    }

    /// Opens secret-box cipher bytes back into the message, under label
    /// accounting.
    pub fn open(&mut self, c: &Vec<u8>, n: &Vec<u8>, k: &Vec<u8>, work_label: u32) -> (r:
        EncrResult)
        requires
            old(self).wf(),
            count_of(old(self).labels_view(), work_label) < u32::MAX,
        ensures
            final(self).wf(),
            final(self).labels_view() == old(self).labels_view(),
            final(self).max_threads() == old(self).max_threads(),
            !sbox_open_params_ok(c@.len() as int, n@.len() as int, k@.len() as int)
                ==> r is ConfigurationErr,
            sbox_open_params_ok(c@.len() as int, n@.len() as int, k@.len() as int) ==> (match sbox_open_of(c@, n@, k@) {
                Some(msg) => r matches EncrResult::Success(b) && b@ == msg && b@.len() + 16 == c@.len(),
                None => r is CipherVerificationErr,
            }),
    {
        proof {
            lemma_inc_dec_cancel(old(self).labels_view(), work_label);
        }
        self.labels.increment(work_label);
        let outcome = sbox_open_call(c, n, k);
        self.labels.decrement(work_label);
        into_encr_result(outcome)
    }

    /// Packs a message into a with-nonce envelope under label accounting.
    pub fn pack_format_w_n(&mut self, m: &Vec<u8>, n: &Vec<u8>, k: &Vec<u8>, work_label: u32) -> (r:
        EncrResult)
        requires
            old(self).wf(),
            count_of(old(self).labels_view(), work_label) < u32::MAX,
        ensures
            final(self).wf(),
            final(self).labels_view() == old(self).labels_view(),
            final(self).max_threads() == old(self).max_threads(),
            sbox_pack_params_ok(m@.len() as int, n@.len() as int, k@.len() as int) ==> (r matches
                EncrResult::Success(c) && c@ == n@ + sbox_cipher_of(m@, n@, k@) && c@.len()
                == m@.len() + 40 && sbox_open_of(c@.skip(24), c@.take(24), k@) == Some(m@)),
            !sbox_pack_params_ok(m@.len() as int, n@.len() as int, k@.len() as int)
                ==> r is ConfigurationErr,
    {
        proof {
            lemma_inc_dec_cancel(old(self).labels_view(), work_label);
        }
        self.labels.increment(work_label);
        let outcome = sbox_pack_wn_call(m, n, k);
        self.labels.decrement(work_label);
        into_encr_result(outcome)
    }

    /// Opens a with-nonce envelope back into the message, under label
    /// accounting.
    pub fn open_format_w_n(&mut self, c: &Vec<u8>, k: &Vec<u8>, work_label: u32) -> (r: EncrResult)
        requires
            old(self).wf(),
            count_of(old(self).labels_view(), work_label) < u32::MAX,
        ensures
            final(self).wf(),
            final(self).labels_view() == old(self).labels_view(),
            final(self).max_threads() == old(self).max_threads(),
            c@.len() < 41 || k@.len() != 32 ==> r is ConfigurationErr,
            c@.len() >= 41 && k@.len() == 32 ==> (match sbox_open_of(c@.skip(24), c@.take(24), k@) {
                Some(msg) => r matches EncrResult::Success(b) && b@ == msg && b@.len() + 40 == c@.len(),
                None => r is CipherVerificationErr,
            }),
    {
        proof {
            lemma_inc_dec_cancel(old(self).labels_view(), work_label);
        }
        self.labels.increment(work_label);
        let outcome = sbox_open_wn_call(c, k);
        self.labels.decrement(work_label);
        into_encr_result(outcome)
    }
}

} // verus!
