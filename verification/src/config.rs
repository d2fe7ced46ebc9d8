//! Pipeline configuration values.
//!
//! Every default the pipeline relies on is collected here as an explicit
//! value object handed to the pipelines; nothing is read from ambient
//! state. Reading and writing configuration files is the caller's
//! business.

use vstd::prelude::*;
use crate::chunk::ChunkStrategy;
use crate::provider::str_eq;

verus! {

/// Where the vector store keeps its database.
#[derive(Debug, Clone)]
pub struct DatabaseConfig {
    /// Path to the database file.
    pub path: String,
}

impl Default for DatabaseConfig {
    /// The default database file, relative to the working directory;
    /// callers that want a platform data directory resolve it themselves
    /// and overwrite this path.
    fn default() -> (r: Self)
        ensures
            r.path@ == "vectors.db"@,
    {
        DatabaseConfig { path: "vectors.db".to_owned() }
    }
}

/// How to reach the embedding provider.
#[derive(Debug, Clone)]
pub struct OllamaConfig {
    /// Base URL of the provider's API.
    pub base_url: String,
    /// The embedding model used when the caller names none.
    pub default_model: String,
    /// Request timeout in seconds, per network call.
    pub timeout_seconds: u64,
}

impl Default for OllamaConfig {
    /// A local provider with the stock embedding model and a 30 second
    /// request timeout.
    fn default() -> (r: Self)
        ensures
            r.base_url@ == "http://localhost:11434"@,
            r.default_model@ == "nomic-embed-text"@,
            r.timeout_seconds == 30,
    {
        OllamaConfig {
            base_url: "http://localhost:11434".to_owned(),
            default_model: "nomic-embed-text".to_owned(),
            timeout_seconds: 30,
        }
    }
}

/// How documents are chunked.
#[derive(Debug, Clone)]
pub struct ChunkingConfig {
    /// Greatest chunk size, in graphemes.
    pub max_chunk_size: usize,
    /// Overlap between successive fixed-size chunks, in graphemes.
    pub overlap_size: usize,
    /// The strategy name: `"semantic"` selects semantic chunking, any
    /// other name fixed-size chunking.
    pub strategy: String,
}

impl Default for ChunkingConfig {
    /// Fixed-size chunks of 512 graphemes overlapping by 50.
    fn default() -> (r: Self)
        ensures
            r.max_chunk_size == 512,
            r.overlap_size == 50,
            r.strategy@ == "fixed"@,
    {
        ChunkingConfig { max_chunk_size: 512, overlap_size: 50, strategy: "fixed".to_owned() }
    }
}

impl ChunkingConfig {
    /// The strategy value this configuration names: `"semantic"` selects
    /// semantic chunking with `max_chunk_size`; any other name selects
    /// fixed-size chunking with `max_chunk_size` and `overlap_size`.
    pub fn to_strategy(&self) -> (r: ChunkStrategy)
        ensures
            self.strategy@ == "semantic"@ ==> r == (ChunkStrategy::Semantic {
                max_size: self.max_chunk_size,
            }),
            self.strategy@ != "semantic"@ ==> r == (ChunkStrategy::FixedSize {
                size: self.max_chunk_size,
                overlap: self.overlap_size,
            }),
    {
        if str_eq(self.strategy.as_str(), "semantic") {
            ChunkStrategy::Semantic { max_size: self.max_chunk_size }
        } else {
            ChunkStrategy::FixedSize { size: self.max_chunk_size, overlap: self.overlap_size }
        }
    }
}

/// The number of results a search returns when the caller asks for no
/// particular count.
pub fn default_top_k() -> (r: usize)
    ensures
        r == 10,
{
    10
}

} // verus!
