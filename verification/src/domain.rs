//! The data model: documents, chunks, and embeddings.

use vstd::prelude::*;
use vstd::utf8::encode_utf8;
use sha2::Digest;

verus! {

/// The hex rendering of the SHA-256 digest of a text's bytes: the
/// content fingerprint used as the deduplication key.
pub uninterp spec fn sha256_hex_of(content: Seq<char>) -> Seq<char>;

/// Relies on `sha2::Sha256` through the `Digest` trait: the digest is a
/// function of the content bytes alone, 32 bytes long, rendered here as
/// 64 lowercase hex digits.
#[verifier::external_body]
fn sha256_hex(content: &str) -> (r: String)
    ensures
        r@ == sha256_hex_of(content@),
        r@.len() == 64,
{
    let mut hasher = sha2::Sha256::new();
    hasher.update(content.as_bytes());
    let digest = hasher.finalize();
    let mut out = String::new();
    for b in digest.iter() {
        out.push_str(&format!("{:02x}", b));
    }
    out
}

/// Relies on `std::time::SystemTime::now`: the seconds since the Unix
/// epoch; the clock decides the value, so only its sign is stated.
#[verifier::external_body]
fn unix_timestamp_now() -> (r: i64)
    ensures
        r >= 0,
{
    std::time::SystemTime::now()
        .duration_since(std::time::UNIX_EPOCH)
        .map(|d| i64::try_from(d.as_secs()).unwrap_or(i64::MAX))
        .unwrap_or(0)
}

/// One ingested source unit. Immutable once persisted, except for its
/// metadata; its content fingerprint is its deduplication key.
#[derive(Debug, Clone)]
pub struct Document {
    /// Identifier assigned on persist; `None` before.
    pub id: Option<i64>,
    /// Source path or URL.
    pub source: String,
    /// SHA-256 fingerprint of the content, as 64 hex digits.
    pub content_hash: String,
    /// Free-form string-keyed metadata, in insertion order; a later
    /// entry for the same key wins.
    pub metadata: Vec<(String, String)>,
    /// Unix timestamp of creation.
    pub created_at: i64,
}

impl Document {
    /// A fresh in-memory document for this source: its fingerprint is
    /// the SHA-256 hash of the content, its creation time the clock's
    /// current reading, and it carries no id and no metadata yet.
    pub fn new(source: String, content: &str) -> (r: Self)
        ensures
            r.id is None,
            r.source@ == source@,
            r.content_hash@ == sha256_hex_of(content@),
            r.content_hash@.len() == 64,
            r.metadata@.len() == 0,
            r.created_at >= 0,
    {
        let content_hash = sha256_hex(content);
        Document {
            id: None,
            source,
            content_hash,
            metadata: Vec::new(),
            created_at: unix_timestamp_now(),
        }
    }

    /// The document with one more metadata pair appended.
    pub fn with_metadata(self, key: String, value: String) -> (r: Self)
        ensures
            r.id == self.id,
            r.source == self.source,
            r.content_hash == self.content_hash,
            r.created_at == self.created_at,
            r.metadata@ == self.metadata@.push((key, value)),
    {
        let mut d = self;
        d.metadata.push((key, value));
        d
    }
}

/// One contiguous span of a document's text. Within a document, chunk
/// ordinals are contiguous from zero and unique.
#[derive(Debug, Clone)]
pub struct Chunk {
    /// Identifier assigned on persist; `None` before.
    pub id: Option<i64>,
    /// The owning document.
    pub document_id: i64,
    /// Zero-based position within the document.
    pub chunk_index: usize,
    /// The text content.
    pub content: String,
    /// Rough token estimate: one token per four content bytes.
    pub token_count: Option<usize>,
}

impl Chunk {
    /// A fresh in-memory chunk, its token count estimated from the
    /// content's byte length.
    pub fn new(document_id: i64, chunk_index: usize, content: String) -> (r: Self)
        ensures
            r.id is None,
            r.document_id == document_id,
            r.chunk_index == chunk_index,
            r.content@ == content@,
            r.token_count matches Some(t) && t == #[verifier::truncate] (encode_utf8(content@).len() as usize) / 4,
    {
        let token_count = Some(content.as_str().len() / 4);
        Chunk { id: None, document_id, chunk_index, content, token_count }
    }
}

/// The numeric representation of one chunk under one model. The vector's
/// components are carried as the 32-bit patterns of the stored
/// floating-point values; the declared dimension always equals the
/// vector's length.
#[derive(Debug, Clone)]
pub struct Embedding {
    /// The chunk this embedding belongs to.
    pub chunk_id: i64,
    /// The model that produced it.
    pub model: String,
    /// The vector, one 32-bit pattern per component.
    pub vector: Vec<u32>,
    /// The vector's length.
    pub dimension: usize,
}

impl Embedding {
    /// A fresh embedding; the dimension is the vector's length.
    pub fn new(chunk_id: i64, model: String, vector: Vec<u32>) -> (r: Self)
        ensures
            r.chunk_id == chunk_id,
            r.model@ == model@,
            r.vector@ == vector@,
            r.dimension == vector@.len(),
    {
        let dimension = vector.len();
        Embedding { chunk_id, model, vector, dimension }
    }
}

} // verus!
