//! Confidential-computing job pipeline: key registry, authenticated
//! encryption envelopes, attested (signed) responses and the per-job
//! state machine that ties them together.

pub mod primitives;
pub mod error;
pub mod cipher;
pub mod keys;
pub mod attest;
pub mod pipeline;
