use nautilus_pipeline::error::PipelineError;
use nautilus_pipeline::keys::{
    generate_key_pair, key_id, public_id, GenerateKeyRequest, KeyRegistry,
};
use sha2::{Digest, Sha256};

fn expected_key_id(key: &[u8]) -> String {
    let mut h = Sha256::new();
    h.update(Sha256::digest(key));
    h.update(b"public");
    hex::encode(&h.finalize()[..16])
}

#[test]
fn seeded_generation_is_deterministic() {
    let mut registry = KeyRegistry::new();
    let (id1, k1) = registry.generate(Some("test".to_string()));
    let (id2, k2) = registry.generate(Some("test".to_string()));
    assert_eq!(id1, id2);
    assert_eq!(k1, k2);
    assert_eq!(
        hex::encode(&k1),
        "9f86d081884c7d659a2feaa0c55ad015a3bf4f1b2b0b822cd15d6c15b0f00a08"
    );
    assert_eq!(registry.resolve(&id1), Ok(k1));
}

#[test]
fn seeded_keys_differ_by_seed() {
    let mut registry = KeyRegistry::new();
    let (id1, k1) = registry.generate(Some("a".to_string()));
    let (id2, k2) = registry.generate(Some("b".to_string()));
    assert_ne!(k1, k2);
    assert_ne!(id1, id2);
    assert_eq!(registry.resolve(&id1), Ok(k1));
    assert_eq!(registry.resolve(&id2), Ok(k2));
}

#[test]
fn unseeded_generation_gives_different_keys() {
    let mut registry = KeyRegistry::new();
    let (id1, k1) = registry.generate(None);
    let (id2, k2) = registry.generate(None);
    assert_eq!(k1.len(), 32);
    assert_eq!(k2.len(), 32);
    assert_ne!(k1, k2);
    assert_ne!(id1, id2);
    assert_eq!(registry.resolve(&id1), Ok(k1));
    assert_eq!(registry.resolve(&id2), Ok(k2));
}

#[test]
fn key_id_is_truncated_hash_of_key_hash_and_label() {
    let mut registry = KeyRegistry::new();
    let (id, k) = registry.generate(Some("fixture".to_string()));
    assert_eq!(id, expected_key_id(&k));
    assert_eq!(id.len(), 32);
    assert!(id.chars().all(|c| c.is_ascii_digit() || ('a'..='f').contains(&c)));
    assert_eq!(key_id(&k), id);
}

#[test]
fn public_id_is_hash_of_key_and_label() {
    let k = vec![1u8; 32];
    let mut h = Sha256::new();
    h.update(&k);
    h.update(b"public");
    assert_eq!(public_id(&k), h.finalize().to_vec());
}

#[test]
fn unknown_key_id_is_not_found() {
    let mut registry = KeyRegistry::new();
    assert_eq!(registry.resolve(&"0123".to_string()), Err(PipelineError::KeyNotFound));
    registry.generate(Some("x".to_string()));
    assert_eq!(
        registry.resolve(&"00000000000000000000000000000000".to_string()),
        Err(PipelineError::KeyNotFound)
    );
}

#[test]
fn generate_key_pair_exposes_only_public_values() {
    let mut registry = KeyRegistry::new();
    let response = generate_key_pair(
        &mut registry,
        GenerateKeyRequest { seed: Some("test".to_string()) },
    );
    let key = Sha256::digest(b"test").to_vec();
    let mut h = Sha256::new();
    h.update(&key);
    h.update(b"public");
    assert_eq!(response.public_key, hex::encode(h.finalize()));
    assert_eq!(response.key_id, expected_key_id(&key));
    assert_ne!(response.public_key, hex::encode(&key));
    assert_eq!(registry.resolve(&response.key_id), Ok(key));
}

#[test]
fn generate_key_pair_without_seed_registers_key() {
    let mut registry = KeyRegistry::new();
    let response = generate_key_pair(&mut registry, GenerateKeyRequest { seed: None });
    let key = registry.resolve(&response.key_id).unwrap();
    assert_eq!(key.len(), 32);
    assert_eq!(response.key_id, expected_key_id(&key));
}

#[test]
fn key_id_of_known_seed_key() {
    // key = SHA-256("test"); id = hex(SHA-256(SHA-256(key) || "public")[..16])
    let key = Sha256::digest(b"test").to_vec();
    assert_eq!(key_id(&key), expected_key_id(&key));
    assert_ne!(key_id(&key), hex::encode(&Sha256::digest(public_id(&key))[..16]));
}

#[test]
fn register_stores_key_under_its_id() {
    let mut registry = KeyRegistry::new();
    let key: Vec<u8> = (0..32).collect();
    let id = registry.register(key.clone());
    assert_eq!(id, expected_key_id(&key));
    assert_eq!(registry.resolve(&id), Ok(key.clone()));
    let other: Vec<u8> = (100..132).collect();
    let id2 = registry.register(other.clone());
    assert_ne!(id, id2);
    assert_eq!(registry.resolve(&id), Ok(key));
    assert_eq!(registry.resolve(&id2), Ok(other));
}
