//! Error taxonomy for the pipeline: input errors, provider errors
//! (unavailable after retries, or a non-retryable embedding failure),
//! and storage errors.

use vstd::prelude::*;

verus! {

/// The error type shared by the whole pipeline.
#[derive(Debug, Clone, PartialEq, Eq)]
pub enum VectDbError {
    /// A configuration file could not be read or parsed.
    Config(String),
    /// The storage layer reported a failure.
    Database(String),
    /// A file could not be read or written.
    Io(String),
    /// The transport layer reported a failure.
    Http(String),
    /// A value could not be serialized or deserialized.
    Serialization(String),
    /// An input was rejected before any work was done.
    InvalidInput(String),
    /// The embedding provider stayed unreachable after all retries.
    OllamaUnavailable(String),
    /// The provider rejected the request, or its answer was unusable.
    EmbeddingFailed(String),
    /// A query could not be completed.
    SearchFailed(String),
    /// Anything that fits no other kind.
    Other(String),
}

impl VectDbError {
    /// A short human-readable account of the error.
    pub fn describe(&self) -> String {
        match self {
            VectDbError::Config(m) => m.clone(),
            VectDbError::Database(m) => m.clone(),
            VectDbError::Io(m) => m.clone(),
            VectDbError::Http(m) => m.clone(),
            VectDbError::Serialization(m) => m.clone(),
            VectDbError::InvalidInput(m) => m.clone(),
            VectDbError::OllamaUnavailable(m) => m.clone(),
            VectDbError::EmbeddingFailed(m) => m.clone(),
            VectDbError::SearchFailed(m) => m.clone(),
            VectDbError::Other(m) => m.clone(),
        }
    }
}

} // verus!
