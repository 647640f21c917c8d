//! Authenticated encryption of opaque payloads under a 256-bit key.
//!
//! An envelope is the 12-byte nonce followed by the AES-256-GCM ciphertext
//! and its 16-byte tag. Every call to [`encrypt`] draws a fresh random nonce.

use crate::error::PipelineError;
use crate::primitives::{append_bytes, copy_range, random_bytes};
use aes_gcm::aead::{Aead, KeyInit};
use aes_gcm::{Aes256Gcm, Key, Nonce};
use vstd::prelude::*;

verus! {

/// Length of a symmetric key, in bytes.
pub const KEY_LEN: usize = 32;

/// Length of the nonce that starts every envelope, in bytes.
pub const NONCE_LEN: usize = 12;

/// Length of the authentication tag, in bytes.
pub const TAG_LEN: usize = 16;

/// Largest plaintext that AES-GCM encrypts, in bytes.
pub const MAX_PLAINTEXT_LEN: u64 = 0x10_0000_0000;

/// Largest plaintext that AES-GCM decrypts, in bytes: the ciphertext without
/// its tag may be up to `MAX_PLAINTEXT_LEN + TAG_LEN` bytes long.
pub const MAX_OPENED_LEN: u64 = 0x10_0000_0010;

/// AES-256-GCM ciphertext-and-tag of `plaintext` under `key` and `nonce`,
/// with no associated data (aes-gcm encrypts only up to `MAX_PLAINTEXT_LEN`
/// bytes, and decrypts up to `MAX_OPENED_LEN`).
pub uninterp spec fn gcm_seal(key: Seq<u8>, nonce: Seq<u8>, plaintext: Seq<u8>) -> Seq<u8>;

/// AES-256-GCM decryption of `ciphertext` (ciphertext followed by tag) under
/// `key` and `nonce`: `None` when the tag does not verify.
pub uninterp spec fn gcm_open(key: Seq<u8>, nonce: Seq<u8>, ciphertext: Seq<u8>) -> Option<
    Seq<u8>,
>;

/// Relies on `aes_gcm::Aes256Gcm` through `Aead::encrypt`: the ciphertext
/// with its 16-byte tag appended, which `Aead::decrypt` under the same key and
/// nonce turns back into the plaintext. It fails only above
/// `MAX_PLAINTEXT_LEN` bytes, which `requires` leaves out.
#[verifier::external_body]
fn aes_gcm_seal(key: &[u8], nonce: &[u8], plaintext: &[u8]) -> (r: Vec<u8>)
    requires
        key@.len() == KEY_LEN,
        nonce@.len() == NONCE_LEN,
        plaintext@.len() <= MAX_PLAINTEXT_LEN,
    ensures
        r@ == gcm_seal(key@, nonce@, plaintext@),
        r@.len() == plaintext@.len() + TAG_LEN,
        gcm_open(key@, nonce@, r@) == Some(plaintext@),
{
    let cipher = Aes256Gcm::new(Key::<Aes256Gcm>::from_slice(key));
    cipher.encrypt(Nonce::from_slice(nonce), plaintext).unwrap()
}

/// Relies on `aes_gcm::Aes256Gcm` through `Aead::decrypt`: the plaintext
/// when the tag verifies, an error otherwise. Decryption succeeds exactly on
/// what `Aead::encrypt` produces under the same key and nonce: CTR mode and
/// the tag are both deterministic, so a ciphertext whose tag verifies is the
/// encryption of the plaintext it decrypts to. The tag is split off first and
/// the rest is refused above aes-gcm's `C_MAX`, so an opened plaintext is at
/// most `MAX_OPENED_LEN` bytes.
#[verifier::external_body]
fn aes_gcm_open(key: &[u8], nonce: &[u8], ciphertext: &[u8]) -> (r: Option<Vec<u8>>)
    requires
        key@.len() == KEY_LEN,
        nonce@.len() == NONCE_LEN,
    ensures
        match r {
            Some(p) => gcm_open(key@, nonce@, ciphertext@) == Some(p@),
            None => gcm_open(key@, nonce@, ciphertext@) is None,
        },
        r matches Some(p) ==> p@.len() <= MAX_OPENED_LEN && ciphertext@ == gcm_seal(key@, nonce@, p@),
        r matches Some(p) ==> forall|q: Seq<u8>| (q.len() <= MAX_OPENED_LEN && #[trigger] gcm_seal(key@, nonce@, q) == ciphertext@) ==> q == p@,
        r is None ==> forall|q: Seq<u8>| !(q.len() <= MAX_OPENED_LEN && #[trigger] gcm_seal(key@, nonce@, q) == ciphertext@),
{
    let cipher = Aes256Gcm::new(Key::<Aes256Gcm>::from_slice(key));
    cipher.decrypt(Nonce::from_slice(nonce), ciphertext).ok()
}

/// The envelope that sealing `plaintext` under `key` with `nonce` gives.
pub open spec fn seal_envelope(key: Seq<u8>, nonce: Seq<u8>, plaintext: Seq<u8>) -> Seq<u8> {
    nonce + gcm_seal(key, nonce, plaintext)
}

/// `envelope` is what sealing `plaintext` under `key` gives, with the nonce
/// that starts the envelope.
pub open spec fn sealed_from(key: Seq<u8>, envelope: Seq<u8>, plaintext: Seq<u8>) -> bool {
    &&& plaintext.len() <= MAX_OPENED_LEN
    &&& envelope.len() >= NONCE_LEN + TAG_LEN
    &&& envelope.subrange(NONCE_LEN as int, envelope.len() as int) == gcm_seal(
        key,
        envelope.subrange(0, NONCE_LEN as int),
        plaintext,
    )
}

/// What opening `envelope` under `key` gives: `None` when it is shorter than
/// a nonce and a tag, or its tag does not verify.
pub open spec fn open_envelope(key: Seq<u8>, envelope: Seq<u8>) -> Option<Seq<u8>> {
    if envelope.len() < NONCE_LEN + TAG_LEN {
        None
    } else {
        gcm_open(
            key,
            envelope.subrange(0, NONCE_LEN as int),
            envelope.subrange(NONCE_LEN as int, envelope.len() as int),
        )
    }
}

/// Seals `plaintext` under `key` with the given `nonce`. Private: reusing a
/// nonce under one key breaks AES-GCM, so the only caller is [`encrypt`],
/// which draws a fresh nonce for every call.
fn seal_with_nonce(plaintext: &[u8], key: &[u8], nonce: &[u8]) -> (r: Vec<u8>)
    requires
        key@.len() == KEY_LEN,
        nonce@.len() == NONCE_LEN,
        plaintext@.len() <= MAX_PLAINTEXT_LEN,
    ensures
        r@ == seal_envelope(key@, nonce@, plaintext@),
        r@.len() == NONCE_LEN + plaintext@.len() + TAG_LEN,
        open_envelope(key@, r@) == Some(plaintext@),
        sealed_from(key@, r@, plaintext@),
{
    let sealed = aes_gcm_seal(key, nonce, plaintext);
    let mut out = copy_range(nonce, 0, NONCE_LEN);
    assert(out@ =~= nonce@);
    append_bytes(&mut out, sealed.as_slice());
    assert(out@.subrange(0, NONCE_LEN as int) =~= nonce@);
    assert(out@.subrange(NONCE_LEN as int, out@.len() as int) =~= sealed@);
    out
}

/// Encrypts `plaintext` under `key` into a fresh envelope: a random nonce
/// followed by the ciphertext and tag. The envelope opens, under the same
/// key, to exactly `plaintext`.
pub fn encrypt(plaintext: &[u8], key: &[u8]) -> (r: Vec<u8>)
    requires
        key@.len() == KEY_LEN,
        plaintext@.len() <= MAX_PLAINTEXT_LEN,
    ensures
        r@.len() == NONCE_LEN + plaintext@.len() + TAG_LEN,
        r@ == seal_envelope(key@, r@.subrange(0, NONCE_LEN as int), plaintext@),
        sealed_from(key@, r@, plaintext@),
        open_envelope(key@, r@) == Some(plaintext@),
{
    let nonce = random_bytes(NONCE_LEN);
    let r = seal_with_nonce(plaintext, key, nonce.as_slice());
    assert(r@.subrange(0, NONCE_LEN as int) =~= nonce@);
    r
}

/// What [`decrypt`] returns for `envelope` under `key`.
pub open spec fn decrypt_outcome(key: Seq<u8>, envelope: Seq<u8>) -> Result<Seq<u8>, PipelineError> {
    match open_envelope(key, envelope) {
        Some(p) => Ok(p),
        None => Err(PipelineError::DecryptionError),
    }
}

/// Decrypts `envelope` under `key`. It returns `p` exactly when the envelope
/// is the sealing of `p` under `key`; otherwise it fails closed with
/// `DecryptionError` and no plaintext (an envelope shorter than a nonce and a
/// tag, a truncated tag, a tag that does not verify).
pub fn decrypt(envelope: &[u8], key: &[u8]) -> (r: Result<Vec<u8>, PipelineError>)
    requires
        key@.len() == KEY_LEN,
    ensures
        match decrypt_outcome(key@, envelope@) {
            Ok(p) => r matches Ok(q) && q@ == p,
            Err(e) => r == Err::<Vec<u8>, PipelineError>(e),
        },
        forall|p: Seq<u8>| #[trigger] sealed_from(key@, envelope@, p) <==> (r matches Ok(q) && q@ == p),
{
    if envelope.len() < NONCE_LEN + TAG_LEN {
        return Err(PipelineError::DecryptionError);
    }
    let nonce = copy_range(envelope, 0, NONCE_LEN);
    let body = copy_range(envelope, NONCE_LEN, envelope.len());
    match aes_gcm_open(key, nonce.as_slice(), body.as_slice()) {
        Some(p) => Ok(p),
        None => Err(PipelineError::DecryptionError),
    }
}

/// Round trip: an envelope that [`encrypt`] made from `plaintext` under `key`
/// is one that opens to `plaintext`, and [`decrypt`] of such an envelope
/// under the same key returns exactly `plaintext`.
pub proof fn lemma_round_trip(key: Seq<u8>, plaintext: Seq<u8>, envelope: Seq<u8>)
    requires
        key.len() == KEY_LEN,
        open_envelope(key, envelope) == Some(plaintext),
    ensures
        decrypt_outcome(key, envelope) == Ok::<Seq<u8>, PipelineError>(plaintext),
{
}

} // verus!
