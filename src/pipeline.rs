//! The per-job state machine: resolve the key, fetch and decrypt the inputs,
//! hand the plaintext to the compute stage, encrypt and publish its result,
//! and sign the response.
//!
//! The network, the compute stage and the clock are outside this module: the
//! caller performs each of those steps and hands its outcome to the job, which
//! decides what comes next. A failure at any stage is terminal and is
//! reported with the stage at which it occurred; nothing is retried.

use crate::attest::{
    ed25519_accepts, ed25519_signature_of, le64, lemma_le64_injective, push_le64, signed_message, AttestedResponder, IntentScope, SignedResponse,
};
use crate::cipher::{decrypt, encrypt, open_envelope, seal_envelope, KEY_LEN, MAX_PLAINTEXT_LEN, NONCE_LEN};
use crate::error::PipelineError;
use crate::keys::KeyRegistry;
use crate::primitives::{append_bytes, copy_range, sha256, sha256_of};
use vstd::prelude::*;
use vstd::utf8::{encode_utf8, encode_utf8_decode_utf8};

verus! {

/// Where a job stands.
#[derive(Clone, Copy, Debug, PartialEq, Eq, Structural)]
pub enum Stage {
    Received,
    KeyResolved,
    InputsFetched,
    InputsDecrypted,
    Computed,
    OutputEncrypted,
    OutputPublished,
    Signed,
    Failed,
}

/// A job's failure: the stage at which it occurred and why.
#[derive(Clone, Copy, Debug, PartialEq, Eq, Structural)]
pub struct JobFailure {
    pub stage: Stage,
    pub error: PipelineError,
}

/// A job request.
pub struct MLTrainingRequest {
    /// Blob ids of the encrypted input data; must not be empty.
    pub data_blob_ids: Vec<String>,
    /// Blob id of the encrypted configuration of the compute stage.
    pub model_config_blob_id: String,
    /// Key id of the key that the blobs are encrypted under.
    pub key_id: String,
    /// Rate parameter of the compute stage (fixed point, 1/10000).
    pub learning_rate: u64,
    /// Iteration count of the compute stage.
    pub epochs: u64,
}

/// The plaintext that the compute stage receives.
pub struct DecryptedInputs {
    pub config: Vec<u8>,
    pub inputs: Vec<Vec<u8>>,
}

/// What the compute stage hands back: the result blob and its metrics.
pub struct ComputeOutput {
    pub model: Vec<u8>,
    pub accuracy: u64,
    pub final_loss: u64,
    pub num_samples: u64,
}

/// The payload of a job's signed response.
pub struct MLTrainingResponse {
    /// Blob id of the encrypted result, as the store assigned it.
    pub model_blob_id: String,
    /// Accuracy metric of the compute stage (0 to 100).
    pub accuracy: u64,
    /// Final loss metric of the compute stage (fixed point, 1/10000).
    pub final_loss: u64,
    /// Number of input samples.
    pub num_samples: u64,
    /// SHA-256 of the plaintext result.
    pub model_hash: Vec<u8>,
}

/// A byte string prefixed with its length (eight bytes, little endian).
pub open spec fn length_prefixed(bytes: Seq<u8>) -> Seq<u8> {
    le64(bytes.len() as u64) + bytes
}

/// Canonical bytes of a response payload: its blob id and hash length-prefixed,
/// its metrics as eight little-endian bytes each.
pub open spec fn response_bytes(r: MLTrainingResponse) -> Seq<u8> {
    length_prefixed(encode_utf8(r.model_blob_id@)) + le64(r.accuracy) + le64(r.final_loss) + le64(
        r.num_samples,
    ) + length_prefixed(r.model_hash@)
}

fn push_length_prefixed(out: &mut Vec<u8>, bytes: &[u8])
    ensures
        final(out)@ == old(out)@ + length_prefixed(bytes@),
{
    push_le64(out, bytes.len() as u64);
    append_bytes(out, bytes);
    assert(final(out)@ =~= old(out)@ + length_prefixed(bytes@));
}

impl MLTrainingResponse {
    /// The canonical bytes of this payload, which the signature covers.
    pub fn encode(&self) -> (r: Vec<u8>)
        ensures
            r@ == response_bytes(*self),
    {
        let mut out: Vec<u8> = Vec::new();
        push_length_prefixed(&mut out, self.model_blob_id.as_str().as_bytes());
        push_le64(&mut out, self.accuracy);
        push_le64(&mut out, self.final_loss);
        push_le64(&mut out, self.num_samples);
        push_length_prefixed(&mut out, self.model_hash.as_slice());
        assert(out@ =~= response_bytes(*self));
        out
    }
}

/// Tamper evidence for payloads: two responses with the same canonical bytes
/// agree on every field, so altering any field of a signed response's payload
/// changes the bytes that its signature covers.
pub proof fn lemma_response_bytes_injective(a: MLTrainingResponse, b: MLTrainingResponse)
    requires
        encode_utf8(a.model_blob_id@).len() <= u64::MAX,
        encode_utf8(b.model_blob_id@).len() <= u64::MAX,
        a.model_hash@.len() <= u64::MAX,
        b.model_hash@.len() <= u64::MAX,
        response_bytes(a) == response_bytes(b),
    ensures
        a.model_blob_id@ == b.model_blob_id@,
        a.accuracy == b.accuracy,
        a.final_loss == b.final_loss,
        a.num_samples == b.num_samples,
        a.model_hash@ == b.model_hash@,
{
    let ia = encode_utf8(a.model_blob_id@);
    let ib = encode_utf8(b.model_blob_id@);
    let ma = response_bytes(a);
    let mb = response_bytes(b);
    assert(ma.subrange(0, 8) =~= le64(ia.len() as u64));
    assert(mb.subrange(0, 8) =~= le64(ib.len() as u64));
    lemma_le64_injective(ia.len() as u64, ib.len() as u64);
    let o: int = 8 + ia.len() as int;
    assert(ma.subrange(8, o) =~= ia);
    assert(mb.subrange(8, o) =~= ib);
    encode_utf8_decode_utf8(a.model_blob_id@);
    encode_utf8_decode_utf8(b.model_blob_id@);
    assert(ma.subrange(o, o + 8) =~= le64(a.accuracy));
    assert(mb.subrange(o, o + 8) =~= le64(b.accuracy));
    lemma_le64_injective(a.accuracy, b.accuracy);
    assert(ma.subrange(o + 8, o + 16) =~= le64(a.final_loss));
    assert(mb.subrange(o + 8, o + 16) =~= le64(b.final_loss));
    lemma_le64_injective(a.final_loss, b.final_loss);
    assert(ma.subrange(o + 16, o + 24) =~= le64(a.num_samples));
    assert(mb.subrange(o + 16, o + 24) =~= le64(b.num_samples));
    lemma_le64_injective(a.num_samples, b.num_samples);
    assert(ma.subrange(o + 24, o + 32) =~= le64(a.model_hash@.len() as u64));
    assert(mb.subrange(o + 24, o + 32) =~= le64(b.model_hash@.len() as u64));
    lemma_le64_injective(a.model_hash@.len() as u64, b.model_hash@.len() as u64);
    assert(ma.subrange(o + 32, ma.len() as int) =~= a.model_hash@);
    assert(mb.subrange(o + 32, mb.len() as int) =~= b.model_hash@);
}

/// The error that a failed fetch is reported as: `BlobNotFound` stays, every
/// other failure is a `TransportError`.
pub open spec fn fetch_error(e: PipelineError) -> PipelineError {
    if e == PipelineError::BlobNotFound {
        PipelineError::BlobNotFound
    } else {
        PipelineError::TransportError
    }
}

/// The first failed fetch among `outcomes`, as it is reported.
pub open spec fn first_fetch_failure(outcomes: Seq<Result<Vec<u8>, PipelineError>>) -> Option<
    PipelineError,
>
    decreases outcomes.len(),
{
    if outcomes.len() == 0 {
        None
    } else {
        match outcomes[0] {
            Err(e) => Some(fetch_error(e)),
            Ok(_) => first_fetch_failure(outcomes.drop_first()),
        }
    }
}

/// The fetched envelope at `i` (meaningful when that fetch succeeded).
pub open spec fn fetched_at(outcomes: Seq<Result<Vec<u8>, PipelineError>>, i: int) -> Seq<u8> {
    match outcomes[i] {
        Ok(b) => b@,
        Err(_) => Seq::empty(),
    }
}

/// Every fetched envelope opens under `key`.
pub open spec fn all_open(key: Seq<u8>, outcomes: Seq<Result<Vec<u8>, PipelineError>>) -> bool {
    forall|i: int| 0 <= i < outcomes.len() ==> open_envelope(key, #[trigger] fetched_at(outcomes, i)) is Some
}

/// The plaintext of the fetched envelope at `i` under `key`.
pub open spec fn plaintext_at(key: Seq<u8>, outcomes: Seq<Result<Vec<u8>, PipelineError>>, i: int) -> Seq<u8> {
    open_envelope(key, fetched_at(outcomes, i))->0
}

/// One job on its way through the pipeline.
pub struct Job {
    request: MLTrainingRequest,
    key: Vec<u8>,
    stage: Stage,
    summary: Option<MLTrainingResponse>,
}

impl Job {
    /// Where the job stands.
    pub closed spec fn stage_of(&self) -> Stage {
        self.stage
    }

    /// The key that the job's blobs are encrypted under.
    pub closed spec fn key_of(&self) -> Seq<u8> {
        self.key@
    }

    /// The request that started the job.
    pub closed spec fn request_of(&self) -> &MLTrainingRequest {
        &self.request
    }

    /// The response being assembled, once the compute stage has reported.
    pub closed spec fn summary_of(&self) -> Option<MLTrainingResponse> {
        self.summary
    }

    /// Number of blobs that the job fetches: the configuration and every input.
    pub open spec fn blob_count(&self) -> int {
        1 + self.request_of().data_blob_ids@.len() as int
    }

    /// The job's key is a full symmetric key, and from the moment its output
    /// is encrypted until it is signed the job holds the response being
    /// assembled.
    pub closed spec fn wf(&self) -> bool {
        &&& self.key@.len() == KEY_LEN
        &&& (self.stage == Stage::OutputEncrypted || self.stage == Stage::OutputPublished)
            ==> self.summary is Some
    }

    /// `after` is the same job as `self`, whatever its stage.
    pub open spec fn same_job(&self, after: &Job) -> bool {
        &&& after.wf()
        &&& after.key_of() == self.key_of()
        &&& after.request_of() == self.request_of()
    }

    /// Where the job stands.
    pub fn stage(&self) -> (r: Stage)
        ensures
            r == self.stage_of(),
    {
        self.stage
    }

    /// Starts a job: resolves its key (`KeyNotFound` when the registry does
    /// not know it), then refuses an empty input list (`InvalidInput`), both
    /// before any blob is fetched.
    pub fn start(registry: &KeyRegistry, request: MLTrainingRequest) -> (r: Result<Job, JobFailure>)
        requires
            registry.wf(),
        ensures
            !registry@.contains_key(request.key_id@) ==> r == Err::<Job, JobFailure>(
                JobFailure { stage: Stage::Received, error: PipelineError::KeyNotFound },
            ),
            registry@.contains_key(request.key_id@) && request.data_blob_ids@.len() == 0 ==> r
                == Err::<Job, JobFailure>(
                JobFailure { stage: Stage::KeyResolved, error: PipelineError::InvalidInput },
            ),
            registry@.contains_key(request.key_id@) && request.data_blob_ids@.len() > 0 ==> (
            r matches Ok(job) && job.wf() && job.stage_of() == Stage::KeyResolved && job.key_of()
                == registry@[request.key_id@] && *job.request_of() == request
                && job.summary_of() is None),
    {
        let key = match registry.resolve(&request.key_id) {
            Ok(k) => k,
            Err(_) => {
                return Err(JobFailure { stage: Stage::Received, error: PipelineError::KeyNotFound });
            },
        };
        if request.data_blob_ids.len() == 0 {
            return Err(JobFailure { stage: Stage::KeyResolved, error: PipelineError::InvalidInput });
        }
        Ok(Job { request, key, stage: Stage::KeyResolved, summary: None })
    }

    /// The blobs to fetch, in order: the configuration, then every input.
    pub fn blobs_to_fetch(&self) -> (r: Vec<String>)
        ensures
            r@.len() == self.blob_count(),
            r@[0]@ == self.request_of().model_config_blob_id@,
            forall|i: int|
                0 <= i < self.request_of().data_blob_ids@.len() ==> #[trigger] r@[i + 1]@
                    == self.request_of().data_blob_ids@[i]@,
    {
        let mut out: Vec<String> = Vec::new();
        out.push(self.request.model_config_blob_id.clone());
        let mut i: usize = 0;
        while i < self.request.data_blob_ids.len()
            invariant
                i <= self.request.data_blob_ids@.len(),
                out@.len() == i + 1,
                out@[0]@ == self.request.model_config_blob_id@,
                forall|j: int| 0 <= j < i ==> #[trigger] out@[j + 1]@ == self.request.data_blob_ids@[j]@,
            decreases self.request.data_blob_ids@.len() - i,
        {
            out.push(self.request.data_blob_ids[i].clone());
            i = i + 1;
        }
        out
    }

    /// Takes the outcome of every fetch, in the order of
    /// [`Job::blobs_to_fetch`], and decrypts them all under the job's key.
    ///
    /// All or nothing: the first failed fetch aborts the job with
    /// `BlobNotFound` or `TransportError`; otherwise a single envelope that
    /// does not open aborts it with `DecryptionError`, and no plaintext at all
    /// is handed out. Only when every envelope opens does the compute stage
    /// receive the plaintexts.
    pub fn inputs_fetched(&mut self, fetched: Vec<Result<Vec<u8>, PipelineError>>) -> (r: Result<
        DecryptedInputs,
        JobFailure,
    >)
        requires
            old(self).wf(),
            old(self).stage_of() == Stage::KeyResolved,
            fetched@.len() == old(self).blob_count(),
        ensures
            old(self).same_job(final(self)),
            final(self).summary_of() == old(self).summary_of(),
            match first_fetch_failure(fetched@) {
                Some(e) => r == Err::<DecryptedInputs, JobFailure>(
                    JobFailure { stage: Stage::KeyResolved, error: e },
                ) && final(self).stage_of() == Stage::Failed,
                None => if all_open(old(self).key_of(), fetched@) {
                    &&& r matches Ok(d)
                    &&& final(self).stage_of() == Stage::InputsDecrypted
                    &&& d.config@ == plaintext_at(old(self).key_of(), fetched@, 0)
                    &&& d.inputs@.len() == fetched@.len() - 1
                    &&& forall|i: int|
                        0 <= i < d.inputs@.len() ==> #[trigger] d.inputs@[i]@ == plaintext_at(
                            old(self).key_of(),
                            fetched@,
                            i + 1,
                        )
                } else {
                    &&& r == Err::<DecryptedInputs, JobFailure>(
                        JobFailure { stage: Stage::InputsFetched, error: PipelineError::DecryptionError },
                    )
                    &&& final(self).stage_of() == Stage::Failed
                },
            },
    {
        let ghost outcomes = fetched@;
        let ghost n = fetched@.len() as int;
        let mut i: usize = 0;
        assert(outcomes.subrange(0, n) =~= outcomes);
        while i < fetched.len()
            invariant
                i <= n == fetched@.len(),
                outcomes == fetched@,
                self.key@.len() == KEY_LEN,
                self.stage == Stage::KeyResolved,
                self.key@ == old(self).key@,
                self.request == old(self).request,
                self.summary == old(self).summary,
                first_fetch_failure(outcomes) == first_fetch_failure(outcomes.subrange(i as int, n)),
                forall|j: int| 0 <= j < i ==> #[trigger] outcomes[j] is Ok,
            decreases n - i,
        {
            assert(outcomes.subrange(i as int, n)[0] == outcomes[i as int]);
            match &fetched[i] {
                Err(e) => {
                    let error = if *e == PipelineError::BlobNotFound {
                        PipelineError::BlobNotFound
                    } else {
                        PipelineError::TransportError
                    };
                    self.stage = Stage::Failed;
                    return Err(JobFailure { stage: Stage::KeyResolved, error });
                },
                Ok(_) => {},
            }
            assert(outcomes.subrange(i as int, n).drop_first() =~= outcomes.subrange(i + 1, n));
            i = i + 1;
        }
        assert(outcomes.subrange(n, n).len() == 0);
        self.stage = Stage::InputsFetched;
        let mut plain: Vec<Vec<u8>> = Vec::new();
        let mut j: usize = 0;
        while j < fetched.len()
            invariant
                j <= n == fetched@.len(),
                outcomes == fetched@,
                self.key@.len() == KEY_LEN,
                self.stage == Stage::InputsFetched,
                self.key@ == old(self).key@,
                self.request == old(self).request,
                self.summary == old(self).summary,
                first_fetch_failure(outcomes) is None,
                forall|k: int| 0 <= k < n ==> #[trigger] outcomes[k] is Ok,
                plain@.len() == j,
                forall|k: int|
                    0 <= k < j ==> open_envelope(self.key@, #[trigger] fetched_at(outcomes, k)) is Some,
                forall|k: int| 0 <= k < j ==> #[trigger] plain@[k]@ == plaintext_at(self.key@, outcomes, k),
            decreases n - j,
        {
            match &fetched[j] {
                Ok(envelope) => {
                    match decrypt(envelope.as_slice(), self.key.as_slice()) {
                        Ok(p) => {
                            plain.push(p);
                        },
                        Err(_) => {
                            assert(fetched_at(outcomes, j as int) == envelope@);
                            assert(open_envelope(self.key@, fetched_at(outcomes, j as int)) is None);
                            self.stage = Stage::Failed;
                            return Err(
                                JobFailure {
                                    stage: Stage::InputsFetched,
                                    error: PipelineError::DecryptionError,
                                },
                            );
                        },
                    }
                },
                Err(_) => {
                    assert(outcomes[j as int] is Ok);
                    self.stage = Stage::Failed;
                    return Err(JobFailure { stage: Stage::KeyResolved, error: PipelineError::TransportError });
                },
            }
            j = j + 1;
        }
        let ghost all = plain@;
        let config = plain.remove(0);
        assert forall|k: int| 0 <= k < plain@.len() implies #[trigger] plain@[k]@ == plaintext_at(
            self.key@,
            outcomes,
            k + 1,
        ) by {
            assert(plain@[k] == all[k + 1]);
        }
        self.stage = Stage::InputsDecrypted;
        Ok(DecryptedInputs { config, inputs: plain })
    }

    /// Aborts the job on a failed fetch, before the remaining blobs are
    /// fetched: the failure is reported as in [`Job::inputs_fetched`].
    pub fn fetch_failed(&mut self, error: PipelineError) -> (r: JobFailure)
        requires
            old(self).wf(),
            old(self).stage_of() == Stage::KeyResolved,
        ensures
            old(self).same_job(final(self)),
            final(self).stage_of() == Stage::Failed,
            r == (JobFailure { stage: Stage::KeyResolved, error: fetch_error(error) }),
    {
        self.stage = Stage::Failed;
        let error = if error == PipelineError::BlobNotFound {
            PipelineError::BlobNotFound
        } else {
            PipelineError::TransportError
        };
        JobFailure { stage: Stage::KeyResolved, error }
    }

    /// Takes what the compute stage returned and encrypts its result under
    /// the job's key with a fresh nonce; the envelope is what to publish. The
    /// job keeps the metrics and the SHA-256 of the plaintext result for the
    /// response.
    pub fn seal_output(&mut self, output: ComputeOutput) -> (r: Vec<u8>)
        requires
            old(self).wf(),
            old(self).stage_of() == Stage::InputsDecrypted,
            output.model@.len() <= MAX_PLAINTEXT_LEN,
        ensures
            old(self).same_job(final(self)),
            final(self).stage_of() == Stage::OutputEncrypted,
            open_envelope(old(self).key_of(), r@) == Some(output.model@),
            r@ == seal_envelope(old(self).key_of(), r@.subrange(0, NONCE_LEN as int), output.model@),
            final(self).summary_of() matches Some(s) && s.model_blob_id@.len() == 0
                && s.accuracy == output.accuracy && s.final_loss == output.final_loss
                && s.num_samples == output.num_samples && s.model_hash@ == sha256_of(output.model@)
                && s.model_hash@.len() == 32,
    {
        self.stage = Stage::Computed;
        let envelope = encrypt(output.model.as_slice(), self.key.as_slice());
        let model_hash = sha256(output.model.as_slice());
        self.summary = Some(
            MLTrainingResponse {
                model_blob_id: String::new(),
                accuracy: output.accuracy,
                final_loss: output.final_loss,
                num_samples: output.num_samples,
                model_hash,
            },
        );
        self.stage = Stage::OutputEncrypted;
        envelope
    }

    /// Takes the outcome of publishing the encrypted result. A failure
    /// aborts the job with `TransportError`; otherwise the response is
    /// complete, carries the blob id that the store assigned, and is returned.
    pub fn output_published(&mut self, outcome: Result<String, PipelineError>) -> (r: Result<
        MLTrainingResponse,
        JobFailure,
    >)
        requires
            old(self).wf(),
            old(self).stage_of() == Stage::OutputEncrypted,
        ensures
            old(self).same_job(final(self)),
            outcome is Err ==> r == Err::<MLTrainingResponse, JobFailure>(
                JobFailure { stage: Stage::OutputEncrypted, error: PipelineError::TransportError },
            ) && final(self).stage_of() == Stage::Failed,
            outcome matches Ok(id) ==> {
                &&& final(self).stage_of() == Stage::OutputPublished
                &&& old(self).summary_of() matches Some(before)
                &&& final(self).summary_of() matches Some(after)
                &&& r matches Ok(resp)
                &&& resp.model_blob_id@ == id@ && after.model_blob_id@ == id@
                &&& resp.accuracy == before.accuracy && after.accuracy == before.accuracy
                &&& resp.final_loss == before.final_loss && after.final_loss == before.final_loss
                &&& resp.num_samples == before.num_samples && after.num_samples == before.num_samples
                &&& resp.model_hash@ == before.model_hash@ && after.model_hash@ == before.model_hash@
                &&& resp.model_hash@.len() == before.model_hash@.len()
            },
    {
        match outcome {
            Err(_) => {
                self.stage = Stage::Failed;
                Err(JobFailure { stage: Stage::OutputEncrypted, error: PipelineError::TransportError })
            },
            Ok(id) => {
                let before = self.summary.as_ref().unwrap();
                let response = MLTrainingResponse {
                    model_blob_id: id.clone(),
                    accuracy: before.accuracy,
                    final_loss: before.final_loss,
                    num_samples: before.num_samples,
                    model_hash: copy_range(before.model_hash.as_slice(), 0, before.model_hash.len()),
                };
                let kept = MLTrainingResponse {
                    model_blob_id: id,
                    accuracy: before.accuracy,
                    final_loss: before.final_loss,
                    num_samples: before.num_samples,
                    model_hash: copy_range(before.model_hash.as_slice(), 0, before.model_hash.len()),
                };
                proof {
                    assert(response.model_hash@ =~= before.model_hash@);
                    assert(kept.model_hash@ =~= before.model_hash@);
                }
                self.summary = Some(kept);
                self.stage = Stage::OutputPublished;
                Ok(response)
            },
        }
    }

    /// Signs the completed response under the `ProcessData` scope at
    /// `timestamp_ms`, which ends the job.
    pub fn finish(&mut self, responder: &AttestedResponder, timestamp_ms: u64) -> (r: SignedResponse)
        requires
            old(self).wf(),
            old(self).stage_of() == Stage::OutputPublished,
            responder.wf(),
        ensures
            old(self).same_job(final(self)),
            final(self).stage_of() == Stage::Signed,
            old(self).summary_of() matches Some(s) && r.payload@ == response_bytes(s),
            r.timestamp_ms == timestamp_ms,
            r.intent_scope == IntentScope::ProcessData,
            r.signer_public_key@ == responder.public_key(),
            r.signature@ == ed25519_signature_of(
                responder.secret_key(),
                signed_message(r.payload@, timestamp_ms, IntentScope::ProcessData),
            ),
            ed25519_accepts(
                r.signer_public_key@,
                signed_message(r.payload@, r.timestamp_ms, r.intent_scope),
                r.signature@,
            ),
    {
        let payload = self.summary.as_ref().unwrap().encode();
        self.stage = Stage::Signed;
        responder.sign_at(payload, IntentScope::ProcessData, timestamp_ms)
    }
}

} // verus!
