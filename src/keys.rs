//! Generation, derivation and lookup of per-job symmetric keys.
//!
//! A key is 32 bytes: the SHA-256 digest of a caller-supplied seed, or 32
//! random bytes. Its key id, the handle that requests carry, is the
//! lower-case hex text of the first 16 bytes of
//! SHA-256(SHA-256(key) ‖ "public"). Its public identifier, which may be
//! exported, is SHA-256(key ‖ "public"). Neither exposes a hash of the raw
//! key.

use crate::cipher::KEY_LEN;
use crate::error::PipelineError;
use crate::primitives::{append_bytes, copy_range, hex_encode, hex_lower, random_bytes, sha256, sha256_of};
use vstd::prelude::*;
use vstd::utf8::encode_utf8;

verus! {

/// Number of digest bytes kept in a key id (it has twice as many hex digits).
pub const KEY_ID_BYTES: usize = 16;

/// The bytes of the ASCII text `public`.
pub open spec fn public_label() -> Seq<u8> {
    seq![112u8, 117u8, 98u8, 108u8, 105u8, 99u8]
}

/// Public identifier of `key`: SHA-256(key ‖ "public").
pub open spec fn public_id_of(key: Seq<u8>) -> Seq<u8> {
    sha256_of(key + public_label())
}

/// Key id of `key`: hex of the first 16 bytes of SHA-256(SHA-256(key) ‖ "public").
pub open spec fn key_id_of(key: Seq<u8>) -> Seq<char> {
    hex_lower(sha256_of(sha256_of(key) + public_label()).subrange(0, KEY_ID_BYTES as int))
}

/// Key derived from `seed`: SHA-256 of the seed's UTF-8 bytes.
pub open spec fn seeded_key(seed: Seq<char>) -> Seq<u8> {
    sha256_of(encode_utf8(seed))
}

/// Request to generate a key, from a seed or at random.
pub struct GenerateKeyRequest {
    /// Optional seed for deterministic key generation.
    pub seed: Option<String>,
}

/// What may leave the enclave about a generated key.
pub struct GenerateKeyResponse {
    /// Public identifier of the key, in lower-case hex.
    pub public_key: String,
    /// Key id for later reference.
    pub key_id: String,
}

/// Process-local map from key id to key material.
pub struct KeyRegistry {
    entries: Vec<(String, Vec<u8>)>,
}

/// The key that the latest entry named `id` holds, if any.
pub open spec fn lookup(entries: Seq<(String, Vec<u8>)>, id: Seq<char>) -> Option<Seq<u8>>
    decreases entries.len(),
{
    if entries.len() == 0 {
        None
    } else if entries.last().0@ == id {
        Some(entries.last().1@)
    } else {
        lookup(entries.drop_last(), id)
    }
}

impl View for KeyRegistry {
    type V = Map<Seq<char>, Seq<u8>>;

    closed spec fn view(&self) -> Map<Seq<char>, Seq<u8>> {
        Map::new(
            |id: Seq<char>| lookup(self.entries@, id) is Some,
            |id: Seq<char>| lookup(self.entries@, id)->0,
        )
    }
}

/// Lookup after appending an entry: the new entry answers for its own id.
proof fn lemma_lookup_push(entries: Seq<(String, Vec<u8>)>, e: (String, Vec<u8>), id: Seq<char>)
    ensures
        lookup(entries.push(e), id) == if e.0@ == id {
            Some(e.1@)
        } else {
            lookup(entries, id)
        },
{
    assert(entries.push(e).drop_last() =~= entries);
}

impl KeyRegistry {
    /// Every key that the registry holds is a full symmetric key.
    pub open spec fn wf(&self) -> bool {
        forall|id: Seq<char>| #[trigger] self@.contains_key(id) ==> self@[id].len() == KEY_LEN
    }

    /// An empty registry.
    pub fn new() -> (r: KeyRegistry)
        ensures
            r@ == Map::<Seq<char>, Seq<u8>>::empty(),
            r.wf(),
    {
        let r = KeyRegistry { entries: Vec::new() };
        assert(r@ =~= Map::<Seq<char>, Seq<u8>>::empty());
        r
    }

    /// Stores `key` under `key_id`, replacing what that id held before.
    fn insert(&mut self, key_id: String, key: Vec<u8>)
        ensures
            final(self)@ == old(self)@.insert(key_id@, key@),
    {
        let ghost before = self.entries@;
        let ghost id = key_id@;
        let ghost k = key@;
        self.entries.push((key_id, key));
        assert forall|x: Seq<char>|
            lookup(self.entries@, x) == if x == id {
                Some(k)
            } else {
                lookup(before, x)
            } by {
            lemma_lookup_push(before, self.entries@.last(), x);
            assert(self.entries@ == before.push(self.entries@.last()));
        }
        assert(self@ =~= old(self)@.insert(id, k));
    }

    /// Generates a key, from `seed` when one is given and from the secure
    /// random source otherwise, stores it, and returns its key id and the key.
    ///
    /// A seed-derived key is only as secret as its seed: the same seed always
    /// gives the same key and key id.
    pub fn generate(&mut self, seed: Option<String>) -> (r: (String, Vec<u8>))
        requires
            old(self).wf(),
        ensures
            r.1@.len() == KEY_LEN,
            r.0@ == key_id_of(r.1@),
            seed matches Some(s) ==> r.1@ == seeded_key(s@),
            final(self)@ == old(self)@.insert(r.0@, r.1@),
            final(self).wf(),
    {
        let key = match seed {
            Some(s) => sha256(s.as_str().as_bytes()),
            None => random_bytes(KEY_LEN),
        };
        let stored = copy_range(key.as_slice(), 0, key.len());
        assert(stored@ =~= key@);
        let key_id = self.register(stored);
        (key_id, key)
    }

    /// Stores the 32-byte `key` (drawn or derived by the caller) under its key
    /// id, and returns that id.
    pub fn register(&mut self, key: Vec<u8>) -> (r: String)
        requires
            old(self).wf(),
            key@.len() == KEY_LEN,
        ensures
            r@ == key_id_of(key@),
            final(self)@ == old(self)@.insert(r@, key@),
            final(self).wf(),
    {
        let key_id = key_id(key.as_slice());
        let ghost k = key@;
        self.insert(key_id.clone(), key);
        assert forall|id: Seq<char>| #[trigger] self@.contains_key(id) implies self@[id].len() == KEY_LEN by {
            if id != key_id@ {
                assert(old(self)@.contains_key(id));
            }
        }
        key_id
    }

    /// The key stored under `key_id`; `KeyNotFound` when there is none.
    pub fn resolve(&self, key_id: &String) -> (r: Result<Vec<u8>, PipelineError>)
        ensures
            match r {
                Ok(k) => self@.contains_key(key_id@) && k@ == self@[key_id@],
                Err(e) => e == PipelineError::KeyNotFound && !self@.contains_key(key_id@),
            },
    {
        let mut i: usize = self.entries.len();
        assert(self.entries@.subrange(0, i as int) =~= self.entries@);
        while i > 0
            invariant
                i <= self.entries@.len(),
                lookup(self.entries@, key_id@) == lookup(self.entries@.subrange(0, i as int), key_id@),
            decreases i,
        {
            let entry = &self.entries[i - 1];
            assert(self.entries@.subrange(0, i - 1) =~= self.entries@.subrange(0, i as int).drop_last());
            if entry.0 == *key_id {
                let k = copy_range(entry.1.as_slice(), 0, entry.1.len());
                assert(k@ =~= entry.1@);
                return Ok(k);
            }
            i = i - 1;
        }
        Err(PipelineError::KeyNotFound)
    }
}

/// The bytes of the ASCII text `public`.
fn public_label_bytes() -> (r: Vec<u8>)
    ensures
        r@ == public_label(),
{
    let mut v: Vec<u8> = Vec::new();
    v.push(112u8);
    v.push(117u8);
    v.push(98u8);
    v.push(108u8);
    v.push(105u8);
    v.push(99u8);
    assert(v@ =~= public_label());
    v
}

/// Public identifier of `key`: SHA-256(key ‖ "public").
pub fn public_id(key: &[u8]) -> (r: Vec<u8>)
    ensures
        r@ == public_id_of(key@),
        r@.len() == 32,
{
    let mut buf = copy_range(key, 0, key.len());
    assert(buf@ =~= key@);
    let label = public_label_bytes();
    append_bytes(&mut buf, label.as_slice());
    sha256(buf.as_slice())
}

/// Key id of `key`: hex of the first 16 bytes of SHA-256(SHA-256(key) ‖ "public").
pub fn key_id(key: &[u8]) -> (r: String)
    ensures
        r@ == key_id_of(key@),
{
    let mut buf = sha256(key);
    let label = public_label_bytes();
    append_bytes(&mut buf, label.as_slice());
    let digest = sha256(buf.as_slice());
    let prefix = copy_range(digest.as_slice(), 0, KEY_ID_BYTES);
    hex_encode(prefix.as_slice())
}

/// Generates and stores a key as `request` asks, and returns only what may
/// leave the enclave: the key's public identifier (hex) and its key id.
pub fn generate_key_pair(registry: &mut KeyRegistry, request: GenerateKeyRequest) -> (r:
    GenerateKeyResponse)
    requires
        old(registry).wf(),
    ensures
        final(registry).wf(),
        exists|key: Seq<u8>|
            {
                &&& key.len() == KEY_LEN
                &&& (request.seed matches Some(s) ==> key == seeded_key(s@))
                &&& r.key_id@ == key_id_of(key)
                &&& r.public_key@ == hex_lower(public_id_of(key))
                &&& final(registry)@ == old(registry)@.insert(key_id_of(key), key)
            },
{
    let (key_id, key) = registry.generate(request.seed);
    let public = public_id(key.as_slice());
    let public_key = hex_encode(public.as_slice());
    GenerateKeyResponse { public_key, key_id }
}

/// Deterministic derivation: two keys that [`KeyRegistry::generate`] returned
/// for one seed are the same key, under the same key id.
pub proof fn lemma_seeded_generation_deterministic(
    seed: Seq<char>,
    key1: Seq<u8>,
    id1: Seq<char>,
    key2: Seq<u8>,
    id2: Seq<char>,
)
    requires
        key1 == seeded_key(seed),
        id1 == key_id_of(key1),
        key2 == seeded_key(seed),
        id2 == key_id_of(key2),
    ensures
        key1 == key2,
        id1 == id2,
{
}

} // verus!
