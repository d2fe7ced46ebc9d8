//! A small semantic-search core: text chunking, content-addressed
//! deduplication, retry/backoff planning for an embedding provider,
//! a binary vector codec, and similarity ranking over a SQLite-backed
//! vector store.

pub mod chunk;
pub mod codec;
pub mod config;
pub mod domain;
pub mod error;
pub mod export;
pub mod files;
pub mod ingest;
pub mod provider;
pub mod rank;
pub mod retry;
pub mod store;
pub mod text;
