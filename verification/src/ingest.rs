//! The ingestion pipeline for one document, split at the provider call.
//!
//! [`ingest_prepare`] runs every step up to the embedding request: the
//! blank check, the deduplication gate on the content fingerprint, the
//! document row, chunking, and the chunk rows. The caller then obtains
//! one vector per chunk text from the provider and hands them to
//! [`ingest_store_embeddings`], which refuses a count mismatch before
//! writing anything. The storage steps are deliberately not atomic: a
//! caller that aborts between them leaves a document with fewer chunks
//! or embeddings than its final count.

use vstd::prelude::*;
use crate::chunk::{chunk_text, spec_chunks, ChunkStrategy};
use crate::codec::spec_encode;
use crate::domain::{sha256_hex_of, Chunk, Document, Embedding};
use crate::error::VectDbError;
use crate::store::{chunks_of, docs_of, embs_of, VectorStore};
use crate::text::{spec_is_blank, str_is_blank};

verus! {

/// What the preparation steps decided for one document.
pub enum PrepareOutcome {
    /// The content was empty or all whitespace: nothing was written.
    SkippedEmpty,
    /// A document with the same content fingerprint already exists:
    /// nothing was written, and this is the existing document's id.
    SkippedDuplicate { document_id: i64 },
    /// The document and its chunks were written; the embeddings for the
    /// chunk texts are still owed, one per chunk, in order.
    Proceed { document_id: i64, chunk_ids: Vec<i64>, chunk_texts: Vec<String> },
}

/// The per-file summary the pipeline reports.
#[derive(Debug, Clone)]
pub struct IngestionResult {
    /// The file the result speaks of.
    pub file_path: String,
    /// The document's id: the fresh one, the existing one for a
    /// duplicate, or zero when nothing was written.
    pub document_id: i64,
    /// Chunk rows written.
    pub chunks_created: usize,
    /// Embedding rows written.
    pub embeddings_created: usize,
    /// Whether the file was skipped (empty, duplicate, or failed).
    pub skipped: bool,
}

/// Run the ingestion steps that precede the provider call: skip blank
/// content; skip content whose fingerprint is already stored, answering
/// the existing document's id; otherwise persist the document row, chunk
/// the content under the strategy, and persist one chunk row per chunk
/// in order. No embedding row is touched here.
pub fn ingest_prepare(
    store: &mut VectorStore,
    source: &str,
    content: &str,
    strategy: ChunkStrategy,
) -> (r: Result<PrepareOutcome, VectDbError>)
    ensures
        embs_of(*final(store)) == embs_of(*old(store)),
        spec_is_blank(content@) ==> (r matches Ok(o) && o is SkippedEmpty && docs_of(
            *final(store),
        ) == docs_of(*old(store)) && chunks_of(*final(store)) == chunks_of(*old(store))),
        r matches Ok(o) && o is SkippedEmpty ==> spec_is_blank(content@),
        !spec_is_blank(content@) && (exists|i: int|
            docs_of(*old(store)).contains_key(i) && (#[trigger] docs_of(*old(store))[i]).1
                == sha256_hex_of(content@)) ==> (docs_of(*final(store)) == docs_of(*old(store))
            && chunks_of(*final(store)) == chunks_of(*old(store)) && (r matches Ok(o) ==> o
            is SkippedDuplicate)),
        r matches Ok(PrepareOutcome::SkippedDuplicate { document_id }) ==> (docs_of(
            *final(store),
        ) == docs_of(*old(store)) && chunks_of(*final(store)) == chunks_of(*old(store)) && docs_of(
            *old(store),
        ).contains_key(document_id as int) && docs_of(*old(store))[document_id as int].1
            == sha256_hex_of(content@)),
        r matches Ok(PrepareOutcome::Proceed { document_id, chunk_ids, chunk_texts }) ==> ({
            &&& chunk_texts@.map_values(|s: String| s@) == spec_chunks(content@, strategy)
            &&& chunk_ids@.len() == chunk_texts@.len()
            &&& document_id > 0
            &&& !docs_of(*old(store)).contains_key(document_id as int)
            &&& docs_of(*final(store)).contains_key(document_id as int)
            &&& docs_of(*final(store))[document_id as int].0 == source@
            &&& docs_of(*final(store))[document_id as int].1 == sha256_hex_of(content@)
            &&& docs_of(*final(store)) == docs_of(*old(store)).insert(
                document_id as int,
                docs_of(*final(store))[document_id as int],
            )
            &&& forall|i: int|
                docs_of(*old(store)).contains_key(i) ==> (#[trigger] docs_of(*old(store))[i]).1
                    != sha256_hex_of(content@)
            &&& forall|k: int, l: int| 0 <= k < l < chunk_ids@.len() ==> chunk_ids@[k] != chunk_ids@[l]
            &&& forall|k: int|
                0 <= k < chunk_ids@.len() ==> chunks_of(*final(store)).contains_key(
                    (#[trigger] chunk_ids@[k]) as int,
                ) && chunks_of(*final(store))[chunk_ids@[k] as int].0 == document_id as int
                    && chunks_of(*final(store))[chunk_ids@[k] as int].1 == k && chunks_of(
                    *final(store),
                )[chunk_ids@[k] as int].2 == chunk_texts@[k]@
        }),
{
    if str_is_blank(content) {
        return Ok(PrepareOutcome::SkippedEmpty);
    }
    let document = Document::new(source.to_owned(), content);
    let existing = match store.get_document_by_hash(document.content_hash.as_str()) {
        Ok(e) => e,
        Err(e) => {
            return Err(e);
        },
    };
    match existing {
        Some(found) => {
            let document_id = match found.id {
                Some(i) => i,
                None => 0,
            };
            Ok(PrepareOutcome::SkippedDuplicate { document_id })
        },
        None => {
            let document_id = match store.insert_document(&document) {
                Ok(id) => id,
                Err(e) => {
                    return Err(e);
                },
            };
            let chunk_texts = chunk_text(content, strategy);
            let mut chunk_ids: Vec<i64> = Vec::new();
            let ghost store_after_doc = *store;
            let mut idx: usize = 0;
            while idx < chunk_texts.len()
                invariant
                    idx <= chunk_texts@.len(),
                    chunk_ids@.len() == idx,
                    docs_of(*store) == docs_of(store_after_doc),
                    embs_of(*store) == embs_of(*old(store)),
                    !spec_is_blank(content@),
                    forall|i: int|
                        docs_of(*old(store)).contains_key(i) ==> (#[trigger] docs_of(
                            *old(store),
                        )[i]).1 != sha256_hex_of(content@),
                    document_id > 0,
                    forall|k: int, l: int|
                        0 <= k < l < chunk_ids@.len() ==> chunk_ids@[k] != chunk_ids@[l],
                    forall|k: int|
                        0 <= k < chunk_ids@.len() ==> chunks_of(*store).contains_key(
                            (#[trigger] chunk_ids@[k]) as int,
                        ) && chunks_of(*store)[chunk_ids@[k] as int].0 == document_id as int
                            && chunks_of(*store)[chunk_ids@[k] as int].1 == k && chunks_of(
                            *store,
                        )[chunk_ids@[k] as int].2 == chunk_texts@[k]@,
                decreases chunk_texts@.len() - idx,
            {
                let piece = chunk_texts[idx].clone();
                let chunk = Chunk::new(document_id, idx, piece);
                let ghost before = *store;
                let chunk_id = match store.insert_chunk(&chunk) {
                    Ok(id) => id,
                    Err(e) => {
                        return Err(e);
                    },
                };
                proof {
                    assert forall|k: int| 0 <= k < chunk_ids@.len() implies chunk_ids@[k]
                        != chunk_id by {
                        assert(chunks_of(before).contains_key((chunk_ids@[k]) as int));
                    }
                }
                chunk_ids.push(chunk_id);
                idx = idx + 1;
            }
            Ok(PrepareOutcome::Proceed { document_id, chunk_ids, chunk_texts })
        },
    }
}

/// Store one embedding row per (chunk id, vector) pair, in order. A
/// count mismatch between chunks and vectors is a provider contract
/// violation: the whole file fails with an embedding-failed error and
/// no embedding row is written.
pub fn ingest_store_embeddings(
    store: &mut VectorStore,
    model: &str,
    chunk_ids: &Vec<i64>,
    vectors: &Vec<Vec<u32>>,
) -> (r: Result<usize, VectDbError>)
    requires
        forall|k: int| 0 <= k < vectors@.len() ==> (#[trigger] vectors@[k])@.len() * 4 <= usize::MAX,
    ensures
        docs_of(*final(store)) == docs_of(*old(store)),
        chunks_of(*final(store)) == chunks_of(*old(store)),
        vectors@.len() != chunk_ids@.len() ==> (r matches Err(e) && e is EmbeddingFailed && embs_of(
            *final(store),
        ) == embs_of(*old(store))),
        r matches Ok(n) ==> ({
            &&& vectors@.len() == chunk_ids@.len()
            &&& n == chunk_ids@.len()
            &&& (forall|k: int, l: int|
                0 <= k < l < chunk_ids@.len() ==> chunk_ids@[k] != chunk_ids@[l]) ==> forall|k: int|
                0 <= k < chunk_ids@.len() ==> embs_of(*final(store)).contains_key(
                    (#[trigger] chunk_ids@[k]) as int,
                ) && embs_of(*final(store))[chunk_ids@[k] as int] == (
                    model@,
                    spec_encode(vectors@[k]@),
                    vectors@[k]@.len() as int,
                )
        }),
{
    if vectors.len() != chunk_ids.len() {
        return Err(
            VectDbError::EmbeddingFailed(
                "provider returned a different number of vectors than chunks".to_owned(),
            ),
        );
    }
    let mut k: usize = 0;
    while k < chunk_ids.len()
        invariant
            k <= chunk_ids@.len(),
            vectors@.len() == chunk_ids@.len(),
            forall|t: int|
                0 <= t < vectors@.len() ==> (#[trigger] vectors@[t])@.len() * 4 <= usize::MAX,
            docs_of(*store) == docs_of(*old(store)),
            chunks_of(*store) == chunks_of(*old(store)),
            forall|t: int|
                (forall|a: int, b: int|
                    0 <= a < b < chunk_ids@.len() ==> chunk_ids@[a] != chunk_ids@[b]) && 0 <= t < k
                    ==> embs_of(*store).contains_key((#[trigger] chunk_ids@[t]) as int) && embs_of(
                    *store,
                )[chunk_ids@[t] as int] == (
                    model@,
                    spec_encode(vectors@[t]@),
                    vectors@[t]@.len() as int,
                ),
        decreases chunk_ids@.len() - k,
    {
        let vector = vectors[k].clone();
        let embedding = Embedding::new(chunk_ids[k], model.to_owned(), vector);
        match store.upsert_embedding(&embedding) {
            Ok(()) => {},
            Err(e) => {
                return Err(e);
            },
        }
        k = k + 1;
    }
    Ok(chunk_ids.len())
}

} // verus!
