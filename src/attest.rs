//! Attested responses: a payload bound, by an Ed25519 signature of the
//! enclave's key, to a timestamp and an intent scope.
//!
//! The signed message is the canonical byte string
//! `scope tag (1 byte) ‖ timestamp in milliseconds (8 bytes, little endian) ‖ payload`,
//! from which each of the three fields can be read back unambiguously.

use base64::Engine;
use ed25519_dalek::{Signer, Verifier};
use crate::primitives::{append_bytes, copy_range, random_bytes};
use vstd::prelude::*;

verus! {

/// Length of the enclave's secret signing key, in bytes.
pub const SECRET_KEY_LEN: usize = 32;

/// Length of a public verifying key, in bytes.
pub const PUBLIC_KEY_LEN: usize = 32;

/// Length of a signature, in bytes.
pub const SIGNATURE_LEN: usize = 64;

/// The semantic category of a signed payload, agreed between the enclave and
/// its verifiers.
#[derive(Clone, Copy, Debug, PartialEq, Eq, Structural)]
pub enum IntentScope {
    /// The result of processing a job's data.
    ProcessData,
}

/// The byte that stands for `scope` in a signed message.
pub open spec fn scope_tag(scope: IntentScope) -> u8 {
    match scope {
        IntentScope::ProcessData => 0u8,
    }
}

impl IntentScope {
    /// The byte that stands for this scope in a signed message.
    pub fn tag(&self) -> (r: u8)
        ensures
            r == scope_tag(*self),
    {
        match self {
            IntentScope::ProcessData => 0u8,
        }
    }
}

/// The eight little-endian bytes of `x`.
pub open spec fn le64(x: u64) -> Seq<u8> {
    seq![
        x as u8,
        (x >> 8u64) as u8,
        (x >> 16u64) as u8,
        (x >> 24u64) as u8,
        (x >> 32u64) as u8,
        (x >> 40u64) as u8,
        (x >> 48u64) as u8,
        (x >> 56u64) as u8,
    ]
}

/// Two numbers with the same little-endian bytes are equal.
pub proof fn lemma_le64_injective(x: u64, y: u64)
    requires
        le64(x) == le64(y),
    ensures
        x == y,
{
    assert(le64(x)[0] == le64(y)[0]);
    assert(le64(x)[1] == le64(y)[1]);
    assert(le64(x)[2] == le64(y)[2]);
    assert(le64(x)[3] == le64(y)[3]);
    assert(le64(x)[4] == le64(y)[4]);
    assert(le64(x)[5] == le64(y)[5]);
    assert(le64(x)[6] == le64(y)[6]);
    assert(le64(x)[7] == le64(y)[7]);
    assert((x as u8 == y as u8 && (x >> 8u64) as u8 == (y >> 8u64) as u8 && (x >> 16u64) as u8
        == (y >> 16u64) as u8 && (x >> 24u64) as u8 == (y >> 24u64) as u8 && (x >> 32u64) as u8
        == (y >> 32u64) as u8 && (x >> 40u64) as u8 == (y >> 40u64) as u8 && (x >> 48u64) as u8
        == (y >> 48u64) as u8 && (x >> 56u64) as u8 == (y >> 56u64) as u8) ==> x == y)
        by (bit_vector);
}

/// Appends the eight little-endian bytes of `x` to `out`.
pub fn push_le64(out: &mut Vec<u8>, x: u64)
    ensures
        final(out)@ == old(out)@ + le64(x),
{
    out.push(x as u8);
    out.push((x >> 8u64) as u8);
    out.push((x >> 16u64) as u8);
    out.push((x >> 24u64) as u8);
    out.push((x >> 32u64) as u8);
    out.push((x >> 40u64) as u8);
    out.push((x >> 48u64) as u8);
    out.push((x >> 56u64) as u8);
    assert(out@ =~= old(out)@ + le64(x));
}

/// The canonical byte string that a response's signature covers.
pub open spec fn signed_message(payload: Seq<u8>, timestamp_ms: u64, scope: IntentScope) -> Seq<
    u8,
> {
    seq![scope_tag(scope)] + le64(timestamp_ms) + payload
}

/// Builds the canonical byte string that a response's signature covers.
pub fn build_signed_message(payload: &[u8], timestamp_ms: u64, scope: IntentScope) -> (r: Vec<u8>)
    ensures
        r@ == signed_message(payload@, timestamp_ms, scope),
{
    let mut out: Vec<u8> = Vec::new();
    out.push(scope.tag());
    push_le64(&mut out, timestamp_ms);
    append_bytes(&mut out, payload);
    assert(out@ =~= signed_message(payload@, timestamp_ms, scope));
    out
}

/// Tamper evidence: two triples (payload, timestamp, scope) with the same
/// signed message are the same triple, so altering any one field after
/// signing changes the bytes that the signature must cover.
pub proof fn lemma_signed_message_injective(
    payload1: Seq<u8>,
    timestamp1: u64,
    scope1: IntentScope,
    payload2: Seq<u8>,
    timestamp2: u64,
    scope2: IntentScope,
)
    requires
        signed_message(payload1, timestamp1, scope1) == signed_message(
            payload2,
            timestamp2,
            scope2,
        ),
    ensures
        payload1 == payload2,
        timestamp1 == timestamp2,
        scope1 == scope2,
{
    let m1 = signed_message(payload1, timestamp1, scope1);
    let m2 = signed_message(payload2, timestamp2, scope2);
    assert(m1[0] == scope_tag(scope1));
    assert(m2[0] == scope_tag(scope2));
    assert(m1.subrange(1, 9) =~= le64(timestamp1));
    assert(m2.subrange(1, 9) =~= le64(timestamp2));
    lemma_le64_injective(timestamp1, timestamp2);
    assert(m1.subrange(9, m1.len() as int) =~= payload1);
    assert(m2.subrange(9, m2.len() as int) =~= payload2);
}

/// Ed25519 public key of the secret key `secret`.
pub uninterp spec fn ed25519_public_of(secret: Seq<u8>) -> Seq<u8>;

/// Ed25519 signature of `message` under the secret key `secret`.
pub uninterp spec fn ed25519_signature_of(secret: Seq<u8>, message: Seq<u8>) -> Seq<u8>;

/// Whether Ed25519 verification of `signature` on `message` under `public`
/// succeeds.
pub uninterp spec fn ed25519_accepts(public: Seq<u8>, message: Seq<u8>, signature: Seq<u8>) -> bool;

/// The standard base64 alphabet, indexed by six-bit value.
pub open spec fn base64_alphabet() -> Seq<char> {
    seq!['A', 'B', 'C', 'D', 'E', 'F', 'G', 'H', 'I', 'J', 'K', 'L', 'M', 'N', 'O', 'P', 'Q', 'R', 'S', 'T', 'U', 'V', 'W', 'X', 'Y', 'Z', 'a', 'b', 'c', 'd', 'e', 'f', 'g', 'h', 'i', 'j', 'k', 'l', 'm', 'n', 'o', 'p', 'q', 'r', 's', 't', 'u', 'v', 'w', 'x', 'y', 'z', '0', '1', '2', '3', '4', '5', '6', '7', '8', '9', '+', '/']
}

/// Standard base64 text of `bytes`: each group of three bytes becomes four
/// characters, and a final group of one or two bytes is padded with `=`.
pub open spec fn base64_standard(bytes: Seq<u8>) -> Seq<char>
    decreases bytes.len(),
{
    let a = base64_alphabet();
    if bytes.len() == 0 {
        Seq::empty()
    } else if bytes.len() == 1 {
        seq![a[bytes[0] as int / 4], a[(bytes[0] as int % 4) * 16], '=', '=']
    } else if bytes.len() == 2 {
        seq![
            a[bytes[0] as int / 4],
            a[(bytes[0] as int % 4) * 16 + bytes[1] as int / 16],
            a[(bytes[1] as int % 16) * 4],
            '=',
        ]
    } else {
        seq![
            a[bytes[0] as int / 4],
            a[(bytes[0] as int % 4) * 16 + bytes[1] as int / 16],
            a[(bytes[1] as int % 16) * 4 + bytes[2] as int / 64],
            a[bytes[2] as int % 64],
        ] + base64_standard(bytes.subrange(3, bytes.len() as int))
    }
}

/// Relies on `ed25519_dalek::SigningKey::from_bytes` and
/// `SigningKey::verifying_key`: the 32-byte public key of `secret`, which
/// depends on `secret` alone.
#[verifier::external_body]
fn ed25519_public_key(secret: &[u8]) -> (r: Vec<u8>)
    requires
        secret@.len() == SECRET_KEY_LEN,
    ensures
        r@ == ed25519_public_of(secret@),
        r@.len() == PUBLIC_KEY_LEN,
{
    let secret: &[u8; 32] = secret.try_into().unwrap();
    ed25519_dalek::SigningKey::from_bytes(secret).verifying_key().to_bytes().to_vec()
}

/// Relies on `ed25519_dalek::SigningKey` through `Signer::sign`: the 64-byte
/// deterministic Ed25519 signature, which verification under the matching
/// public key accepts.
#[verifier::external_body]
fn ed25519_sign(secret: &[u8], message: &[u8]) -> (r: Vec<u8>)
    requires
        secret@.len() == SECRET_KEY_LEN,
    ensures
        r@ == ed25519_signature_of(secret@, message@),
        r@.len() == SIGNATURE_LEN,
        ed25519_accepts(ed25519_public_of(secret@), message@, r@),
{
    let secret: &[u8; 32] = secret.try_into().unwrap();
    ed25519_dalek::SigningKey::from_bytes(secret).sign(message).to_bytes().to_vec()
}

/// Relies on `ed25519_dalek::VerifyingKey` through `Verifier::verify`, after
/// `VerifyingKey::try_from` and `Signature::from_slice`: whether the
/// signature verifies (a malformed key or signature does not).
#[verifier::external_body]
fn ed25519_verify(public: &[u8], message: &[u8], signature: &[u8]) -> (r: bool)
    ensures
        r == ed25519_accepts(public@, message@, signature@),
{
    let Ok(key) = ed25519_dalek::VerifyingKey::try_from(public) else { return false };
    let Ok(sig) = ed25519_dalek::Signature::from_slice(signature) else { return false };
    key.verify(message, &sig).is_ok()
}

/// Relies on `base64::engine::general_purpose::STANDARD` through
/// `Engine::encode`: standard alphabet, with `=` padding.
#[verifier::external_body]
fn base64_encode(bytes: &[u8]) -> (r: String)
    ensures
        r@ == base64_standard(bytes@),
{
    base64::engine::general_purpose::STANDARD.encode(bytes)
}

/// A payload bound to a timestamp and an intent scope by the enclave's
/// signature.
pub struct SignedResponse {
    pub payload: Vec<u8>,
    pub timestamp_ms: u64,
    pub intent_scope: IntentScope,
    pub signature: Vec<u8>,
    pub signer_public_key: Vec<u8>,
}

/// The enclave's public key, as published to verifiers.
pub struct PublicKeyResponse {
    /// The public key in standard base64.
    pub public_key: String,
}

/// The enclave's signing identity, created once and held for the process's
/// lifetime.
pub struct AttestedResponder {
    secret: Vec<u8>,
    public: Vec<u8>,
}

impl AttestedResponder {
    /// The secret signing key.
    pub closed spec fn secret_key(&self) -> Seq<u8> {
        self.secret@
    }

    /// The public key that verifiers check signatures against.
    pub open spec fn public_key(&self) -> Seq<u8> {
        ed25519_public_of(self.secret_key())
    }

    /// The identity holds a full secret key and its own public key.
    pub closed spec fn wf(&self) -> bool {
        &&& self.secret@.len() == SECRET_KEY_LEN
        &&& self.public@ == ed25519_public_of(self.secret@)
    }

    /// The identity whose secret key is `secret`.
    pub fn from_secret(secret: Vec<u8>) -> (r: AttestedResponder)
        requires
            secret@.len() == SECRET_KEY_LEN,
        ensures
            r.wf(),
            r.secret_key() == secret@,
    {
        let public = ed25519_public_key(secret.as_slice());
        AttestedResponder { secret, public }
    }

    /// A fresh identity whose secret key comes from the secure random source.
    pub fn generate() -> (r: AttestedResponder)
        ensures
            r.wf(),
            r.secret_key().len() == SECRET_KEY_LEN,
    {
        AttestedResponder::from_secret(random_bytes(SECRET_KEY_LEN))
    }

    /// The public key, as bytes.
    pub fn public_key_bytes(&self) -> (r: Vec<u8>)
        requires
            self.wf(),
        ensures
            r@ == self.public_key(),
    {
        copy_range(self.public.as_slice(), 0, self.public.len())
    }

    /// Signs `payload` under `scope` at `timestamp_ms` (milliseconds since the
    /// Unix epoch). The scope is always the caller's to name. The signature
    /// covers the canonical message of the three, and verifies under the
    /// public key that the response declares.
    pub fn sign_at(&self, payload: Vec<u8>, scope: IntentScope, timestamp_ms: u64) -> (r:
        SignedResponse)
        requires
            self.wf(),
        ensures
            r.payload@ == payload@,
            r.timestamp_ms == timestamp_ms,
            r.intent_scope == scope,
            r.signer_public_key@ == self.public_key(),
            r.signature@ == ed25519_signature_of(
                self.secret_key(),
                signed_message(payload@, timestamp_ms, scope),
            ),
            ed25519_accepts(
                r.signer_public_key@,
                signed_message(r.payload@, r.timestamp_ms, r.intent_scope),
                r.signature@,
            ),
    {
        let message = build_signed_message(payload.as_slice(), timestamp_ms, scope);
        let signature = ed25519_sign(self.secret.as_slice(), message.as_slice());
        let signer_public_key = self.public_key_bytes();
        SignedResponse { payload, timestamp_ms, intent_scope: scope, signature, signer_public_key }
    }
}

/// Whether `response`'s signature verifies, under the public key it declares,
/// for exactly its (payload, timestamp, scope) triple.
pub fn verify_signed_response(response: &SignedResponse) -> (r: bool)
    ensures
        r == ed25519_accepts(
            response.signer_public_key@,
            signed_message(response.payload@, response.timestamp_ms, response.intent_scope),
            response.signature@,
        ),
{
    let message = build_signed_message(
        response.payload.as_slice(),
        response.timestamp_ms,
        response.intent_scope,
    );
    ed25519_verify(response.signer_public_key.as_slice(), message.as_slice(), response.signature.as_slice())
}

/// The enclave's public key in standard base64, for verifiers.
pub fn get_public_key(responder: &AttestedResponder) -> (r: PublicKeyResponse)
    requires
        responder.wf(),
    ensures
        r.public_key@ == base64_standard(responder.public_key()),
{
    PublicKeyResponse { public_key: base64_encode(responder.public.as_slice()) }
}

} // verus!
