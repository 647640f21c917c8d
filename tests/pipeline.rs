use std::collections::HashMap;

use nautilus_pipeline::attest::{verify_signed_response, AttestedResponder, IntentScope, SignedResponse};
use nautilus_pipeline::cipher::{decrypt, encrypt};
use nautilus_pipeline::error::PipelineError;
use nautilus_pipeline::keys::KeyRegistry;
use nautilus_pipeline::pipeline::{
    ComputeOutput, DecryptedInputs, Job, JobFailure, MLTrainingRequest, Stage,
};
use sha2::{Digest, Sha256};

/// In-memory blob store that counts the calls made to it.
struct MockStore {
    blobs: HashMap<String, Vec<u8>>,
    fetches: usize,
    publishes: usize,
    fail_publish: bool,
    unreachable: bool,
}

impl MockStore {
    fn new() -> Self {
        MockStore { blobs: HashMap::new(), fetches: 0, publishes: 0, fail_publish: false, unreachable: false }
    }

    fn fetch(&mut self, id: &str) -> Result<Vec<u8>, PipelineError> {
        self.fetches += 1;
        if self.unreachable {
            return Err(PipelineError::TransportError);
        }
        self.blobs.get(id).cloned().ok_or(PipelineError::BlobNotFound)
    }

    fn publish(&mut self, bytes: Vec<u8>) -> Result<String, PipelineError> {
        self.publishes += 1;
        if self.fail_publish {
            return Err(PipelineError::TransportError);
        }
        let id = format!("out{}", self.publishes);
        self.blobs.insert(id.clone(), bytes);
        Ok(id)
    }
}

/// Compute stage for the tests: counts the data rows of the CSV inputs.
fn count_rows(inputs: &DecryptedInputs, calls: &mut usize) -> ComputeOutput {
    *calls += 1;
    let rows = inputs
        .inputs
        .iter()
        .map(|blob| {
            String::from_utf8(blob.clone())
                .unwrap()
                .lines()
                .map(str::trim)
                .filter(|l| !l.is_empty() && !l.starts_with('#'))
                .count() as u64
        })
        .sum::<u64>();
    ComputeOutput { model: format!("model over {} rows", rows).into_bytes(), accuracy: 100, final_loss: 0, num_samples: rows }
}

fn run(
    registry: &KeyRegistry,
    responder: &AttestedResponder,
    store: &mut MockStore,
    request: MLTrainingRequest,
    compute_calls: &mut usize,
) -> Result<SignedResponse, JobFailure> {
    let mut job = Job::start(registry, request)?;
    let fetched: Vec<_> = job.blobs_to_fetch().iter().map(|id| store.fetch(id)).collect();
    let inputs = job.inputs_fetched(fetched)?;
    let output = count_rows(&inputs, compute_calls);
    let envelope = job.seal_output(output);
    let outcome = store.publish(envelope);
    job.output_published(outcome)?;
    let signed = job.finish(responder, 1_700_000_000_000);
    assert_eq!(job.stage(), Stage::Signed);
    Ok(signed)
}

fn request(inputs: &[&str], config: &str, key_id: &str) -> MLTrainingRequest {
    MLTrainingRequest {
        data_blob_ids: inputs.iter().map(|s| s.to_string()).collect(),
        model_config_blob_id: config.to_string(),
        key_id: key_id.to_string(),
        learning_rate: 100,
        epochs: 10,
    }
}

const CONFIG: &[u8] = br#"{"hidden_layer_size":4,"activation":"relu"}"#;
const ROWS: &[u8] = b"# x1,x2,label\n0.1,0.2,0\n0.9,0.8,1\n\n0.5,0.4,1\n";

#[test]
fn end_to_end_seeded_job() {
    let mut registry = KeyRegistry::new();
    let (key_id, key) = registry.generate(Some("test".to_string()));
    let responder = AttestedResponder::generate();
    let mut store = MockStore::new();
    store.blobs.insert("b1".to_string(), encrypt(ROWS, &key));
    store.blobs.insert("c1".to_string(), encrypt(CONFIG, &key));
    let mut calls = 0;
    let signed = run(&registry, &responder, &mut store, request(&["b1"], "c1", &key_id), &mut calls).unwrap();
    assert_eq!(calls, 1);
    assert_eq!(store.fetches, 2);
    assert_eq!(store.publishes, 1);
    assert_eq!(signed.intent_scope, IntentScope::ProcessData);
    assert_eq!(signed.timestamp_ms, 1_700_000_000_000);
    assert!(verify_signed_response(&signed));
    // payload: blob id "out1", then accuracy, loss, num_samples (= 3 rows), then hash
    let p = &signed.payload;
    assert_eq!(&p[0..8], &[4, 0, 0, 0, 0, 0, 0, 0]);
    assert_eq!(&p[8..12], b"out1");
    assert_eq!(u64::from_le_bytes(p[12..20].try_into().unwrap()), 100);
    assert_eq!(u64::from_le_bytes(p[20..28].try_into().unwrap()), 0);
    assert_eq!(u64::from_le_bytes(p[28..36].try_into().unwrap()), 3);
    let model = decrypt(&store.blobs["out1"], &key).unwrap();
    assert_eq!(model, b"model over 3 rows".to_vec());
    assert_eq!(&p[36..44], &[32, 0, 0, 0, 0, 0, 0, 0]);
    assert_eq!(&p[44..], Sha256::digest(&model).as_slice());
}

#[test]
fn output_published_returns_response() {
    let mut registry = KeyRegistry::new();
    let (key_id, key) = registry.generate(Some("test".to_string()));
    let mut job = Job::start(&registry, request(&["b1"], "c1", &key_id)).unwrap();
    assert_eq!(job.stage(), Stage::KeyResolved);
    assert_eq!(job.blobs_to_fetch(), vec!["c1".to_string(), "b1".to_string()]);
    let inputs = job
        .inputs_fetched(vec![Ok(encrypt(CONFIG, &key)), Ok(encrypt(ROWS, &key))])
        .unwrap();
    assert_eq!(inputs.config, CONFIG.to_vec());
    assert_eq!(inputs.inputs, vec![ROWS.to_vec()]);
    assert_eq!(job.stage(), Stage::InputsDecrypted);
    let envelope = job.seal_output(ComputeOutput { model: b"m".to_vec(), accuracy: 7, final_loss: 8, num_samples: 9 });
    assert_eq!(job.stage(), Stage::OutputEncrypted);
    assert_eq!(decrypt(&envelope, &key), Ok(b"m".to_vec()));
    let response = job.output_published(Ok("blob-9".to_string())).unwrap();
    assert_eq!(job.stage(), Stage::OutputPublished);
    assert_eq!(response.model_blob_id, "blob-9");
    assert_eq!((response.accuracy, response.final_loss, response.num_samples), (7, 8, 9));
    assert_eq!(response.model_hash, Sha256::digest(b"m").to_vec());
    assert_eq!(response.model_hash.len(), 32);
}

#[test]
fn empty_input_list_fails_before_any_fetch() {
    let mut registry = KeyRegistry::new();
    let (key_id, key) = registry.generate(Some("test".to_string()));
    let responder = AttestedResponder::generate();
    let mut store = MockStore::new();
    store.blobs.insert("c1".to_string(), encrypt(CONFIG, &key));
    let mut calls = 0;
    let r = run(&registry, &responder, &mut store, request(&[], "c1", &key_id), &mut calls);
    assert_eq!(r.err(), Some(JobFailure { stage: Stage::KeyResolved, error: PipelineError::InvalidInput }));
    assert_eq!(store.fetches, 0);
    assert_eq!(store.publishes, 0);
    assert_eq!(calls, 0);
}

#[test]
fn unknown_key_fails_before_any_fetch() {
    let registry = KeyRegistry::new();
    let responder = AttestedResponder::generate();
    let mut store = MockStore::new();
    let mut calls = 0;
    let r = run(&registry, &responder, &mut store, request(&["b1"], "c1", "nope"), &mut calls);
    assert_eq!(r.err(), Some(JobFailure { stage: Stage::Received, error: PipelineError::KeyNotFound }));
    assert_eq!(store.fetches, 0);
}

#[test]
fn one_bad_blob_of_three_aborts_with_decryption_error() {
    let mut registry = KeyRegistry::new();
    let (key_id, key) = registry.generate(Some("test".to_string()));
    let (_, other_key) = registry.generate(Some("other".to_string()));
    let responder = AttestedResponder::generate();
    let mut store = MockStore::new();
    store.blobs.insert("c1".to_string(), encrypt(CONFIG, &key));
    store.blobs.insert("b1".to_string(), encrypt(ROWS, &key));
    store.blobs.insert("b2".to_string(), encrypt(ROWS, &other_key));
    store.blobs.insert("b3".to_string(), encrypt(ROWS, &key));
    let mut calls = 0;
    let r = run(&registry, &responder, &mut store, request(&["b1", "b2", "b3"], "c1", &key_id), &mut calls);
    assert_eq!(r.err(), Some(JobFailure { stage: Stage::InputsFetched, error: PipelineError::DecryptionError }));
    assert_eq!(calls, 0);
    assert_eq!(store.publishes, 0);
}

#[test]
fn failed_job_reports_failed_stage() {
    let mut registry = KeyRegistry::new();
    let (key_id, key) = registry.generate(Some("test".to_string()));
    let mut job = Job::start(&registry, request(&["b1"], "c1", &key_id)).unwrap();
    let r = job.inputs_fetched(vec![Ok(encrypt(CONFIG, &key)), Ok(vec![1, 2, 3])]);
    assert!(matches!(r, Err(JobFailure { stage: Stage::InputsFetched, error: PipelineError::DecryptionError })));
    assert_eq!(job.stage(), Stage::Failed);
}

#[test]
fn missing_blob_aborts_with_blob_not_found() {
    let mut registry = KeyRegistry::new();
    let (key_id, key) = registry.generate(Some("test".to_string()));
    let responder = AttestedResponder::generate();
    let mut store = MockStore::new();
    store.blobs.insert("c1".to_string(), encrypt(CONFIG, &key));
    store.blobs.insert("b1".to_string(), encrypt(ROWS, &key));
    let mut calls = 0;
    let r = run(&registry, &responder, &mut store, request(&["b1", "missing"], "c1", &key_id), &mut calls);
    assert_eq!(r.err(), Some(JobFailure { stage: Stage::KeyResolved, error: PipelineError::BlobNotFound }));
    assert_eq!(calls, 0);
}

#[test]
fn unreachable_store_aborts_with_transport_error() {
    let mut registry = KeyRegistry::new();
    let (key_id, _) = registry.generate(Some("test".to_string()));
    let responder = AttestedResponder::generate();
    let mut store = MockStore::new();
    store.unreachable = true;
    let mut calls = 0;
    let r = run(&registry, &responder, &mut store, request(&["b1"], "c1", &key_id), &mut calls);
    assert_eq!(r.err(), Some(JobFailure { stage: Stage::KeyResolved, error: PipelineError::TransportError }));
}

#[test]
fn first_fetch_failure_is_reported() {
    let mut registry = KeyRegistry::new();
    let (key_id, key) = registry.generate(Some("test".to_string()));
    let mut job = Job::start(&registry, request(&["b1", "b2"], "c1", &key_id)).unwrap();
    let r = job.inputs_fetched(vec![
        Ok(encrypt(CONFIG, &key)),
        Err(PipelineError::InvalidInput),
        Err(PipelineError::BlobNotFound),
    ]);
    assert!(matches!(r, Err(JobFailure { stage: Stage::KeyResolved, error: PipelineError::TransportError })));
    assert_eq!(job.stage(), Stage::Failed);
}

#[test]
fn publish_failure_aborts_with_transport_error() {
    let mut registry = KeyRegistry::new();
    let (key_id, key) = registry.generate(Some("test".to_string()));
    let responder = AttestedResponder::generate();
    let mut store = MockStore::new();
    store.blobs.insert("c1".to_string(), encrypt(CONFIG, &key));
    store.blobs.insert("b1".to_string(), encrypt(ROWS, &key));
    store.fail_publish = true;
    let mut calls = 0;
    let r = run(&registry, &responder, &mut store, request(&["b1"], "c1", &key_id), &mut calls);
    assert_eq!(r.err(), Some(JobFailure { stage: Stage::OutputEncrypted, error: PipelineError::TransportError }));
    assert_eq!(calls, 1);
    assert_eq!(store.publishes, 1);
}

#[test]
fn fetch_failed_aborts_job() {
    let mut registry = KeyRegistry::new();
    let (key_id, _) = registry.generate(Some("test".to_string()));
    let mut job = Job::start(&registry, request(&["b1"], "c1", &key_id)).unwrap();
    assert_eq!(
        job.fetch_failed(PipelineError::BlobNotFound),
        JobFailure { stage: Stage::KeyResolved, error: PipelineError::BlobNotFound }
    );
    assert_eq!(job.stage(), Stage::Failed);
    let mut job = Job::start(&registry, request(&["b1"], "c1", &key_id)).unwrap();
    assert_eq!(
        job.fetch_failed(PipelineError::KeyNotFound),
        JobFailure { stage: Stage::KeyResolved, error: PipelineError::TransportError }
    );
}
