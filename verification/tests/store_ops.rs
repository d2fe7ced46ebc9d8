use vectdb::chunk::ChunkStrategy;
use vectdb::domain::{Chunk, Document, Embedding};
use vectdb::error::VectDbError;
use vectdb::ingest::{ingest_prepare, ingest_store_embeddings, PrepareOutcome};
use vectdb::rank::select_top_k;
use vectdb::store::VectorStore;

fn bits(v: &[f32]) -> Vec<u32> {
    v.iter().map(|x| x.to_bits()).collect()
}

fn floats(v: &[u32]) -> Vec<f32> {
    v.iter().map(|x| f32::from_bits(*x)).collect()
}

/// An order-preserving key for a (non-NaN) f32: greater key, greater score.
fn sim_key(s: f32) -> u64 {
    let b = s.to_bits();
    let k = if b & 0x8000_0000 != 0 { !b } else { b | 0x8000_0000 };
    k as u64
}

fn cosine(a: &[f32], b: &[f32]) -> f32 {
    if a.len() != b.len() {
        return 0.0;
    }
    let dot: f32 = a.iter().zip(b.iter()).map(|(x, y)| x * y).sum();
    let ma: f32 = a.iter().map(|x| x * x).sum::<f32>().sqrt();
    let mb: f32 = b.iter().map(|x| x * x).sum::<f32>().sqrt();
    if ma == 0.0 || mb == 0.0 {
        return 0.0;
    }
    dot / (ma * mb)
}

#[test]
fn test_database_creation() {
    let store = VectorStore::in_memory().unwrap();
    let stats = store.get_stats().unwrap();

    assert_eq!(stats.document_count, 0);
    assert_eq!(stats.chunk_count, 0);
    assert_eq!(stats.embedding_count, 0);
}

#[test]
fn test_document_operations() {
    let mut store = VectorStore::in_memory().unwrap();

    let doc = Document::new("test.txt".to_string(), "Hello world");
    let doc_id = store.insert_document(&doc).unwrap();

    assert!(doc_id > 0);

    let retrieved = store.get_document(doc_id).unwrap().unwrap();
    assert_eq!(retrieved.source, "test.txt");
    assert_eq!(retrieved.content_hash, doc.content_hash);

    let count = store.count_documents().unwrap();
    assert_eq!(count, 1);
}

#[test]
fn test_chunk_operations() {
    let mut store = VectorStore::in_memory().unwrap();

    let doc = Document::new("test.txt".to_string(), "Hello world");
    let doc_id = store.insert_document(&doc).unwrap();

    let chunk = Chunk::new(doc_id, 0, "Hello world".to_string());
    let chunk_id = store.insert_chunk(&chunk).unwrap();

    assert!(chunk_id > 0);

    let retrieved = store.get_chunk(chunk_id).unwrap().unwrap();
    assert_eq!(retrieved.content, "Hello world");
    assert_eq!(retrieved.chunk_index, 0);

    let chunks = store.get_chunks_for_document(doc_id).unwrap();
    assert_eq!(chunks.len(), 1);
}

#[test]
fn test_embedding_operations() {
    let mut store = VectorStore::in_memory().unwrap();

    let doc = Document::new("test.txt".to_string(), "Hello world");
    let doc_id = store.insert_document(&doc).unwrap();

    let chunk = Chunk::new(doc_id, 0, "Hello world".to_string());
    let chunk_id = store.insert_chunk(&chunk).unwrap();

    let vector = bits(&[0.1, 0.2, 0.3]);
    let embedding = Embedding::new(chunk_id, "test-model".to_string(), vector.clone());

    store.upsert_embedding(&embedding).unwrap();

    let retrieved = store.get_embedding(chunk_id).unwrap().unwrap();
    assert_eq!(retrieved.model, "test-model");
    assert_eq!(retrieved.dimension, 3);
    assert_eq!(retrieved.vector, vector);
}

#[test]
fn test_search_similar() {
    let mut store = VectorStore::in_memory().unwrap();

    // Insert test data
    let doc = Document::new("test.txt".to_string(), "Test document");
    let doc_id = store.insert_document(&doc).unwrap();

    let chunk1 = Chunk::new(doc_id, 0, "First chunk".to_string());
    let chunk1_id = store.insert_chunk(&chunk1).unwrap();

    let chunk2 = Chunk::new(doc_id, 1, "Second chunk".to_string());
    let chunk2_id = store.insert_chunk(&chunk2).unwrap();

    // Insert embeddings
    let embedding1 = Embedding::new(chunk1_id, "model".to_string(), bits(&[1.0, 0.0, 0.0]));
    store.upsert_embedding(&embedding1).unwrap();

    let embedding2 = Embedding::new(chunk2_id, "model".to_string(), bits(&[0.0, 1.0, 0.0]));
    store.upsert_embedding(&embedding2).unwrap();

    // Search with query similar to first embedding
    let query = vec![0.9, 0.1, 0.0];
    let (rows, vectors) = store.search_candidates("model").unwrap();
    let keys: Vec<u64> = vectors
        .iter()
        .map(|bits| sim_key(cosine(&query, &floats(bits))))
        .collect();
    let idx = select_top_k(&keys, 2);

    assert_eq!(idx.len(), 2);
    assert_eq!(rows[idx[0]].content, "First chunk");
    assert!(keys[idx[0]] > keys[idx[1]]);
}

#[test]
fn test_ingest_deduplicates_same_content() {
    let mut store = VectorStore::in_memory().unwrap();
    let strategy = ChunkStrategy::FixedSize { size: 5, overlap: 0 };

    let first = ingest_prepare(&mut store, "a.txt", "same content", strategy).unwrap();
    let first_id = match first {
        PrepareOutcome::Proceed { document_id, .. } => document_id,
        _ => panic!("first ingestion must proceed"),
    };

    // Same bytes under another path: one document row in all, and the
    // second call answers the original document's id.
    let second = ingest_prepare(&mut store, "b.txt", "same content", strategy).unwrap();
    match second {
        PrepareOutcome::SkippedDuplicate { document_id } => assert_eq!(document_id, first_id),
        _ => panic!("second ingestion must be skipped as a duplicate"),
    }

    assert_eq!(store.count_documents().unwrap(), 1);
}

#[test]
fn test_ingest_prepare_empty_content() {
    let mut store = VectorStore::in_memory().unwrap();
    let strategy = ChunkStrategy::FixedSize { size: 5, overlap: 0 };

    let outcome = ingest_prepare(&mut store, "empty.txt", "   \n\t ", strategy).unwrap();
    assert!(matches!(outcome, PrepareOutcome::SkippedEmpty));
    assert_eq!(store.count_documents().unwrap(), 0);
    assert_eq!(store.count_chunks().unwrap(), 0);
}

#[test]
fn test_ingest_prepare_writes_chunks_in_order() {
    let mut store = VectorStore::in_memory().unwrap();
    let strategy = ChunkStrategy::FixedSize { size: 5, overlap: 0 };

    let outcome = ingest_prepare(&mut store, "c.txt", "0123456789", strategy).unwrap();
    match outcome {
        PrepareOutcome::Proceed { document_id, chunk_ids, chunk_texts } => {
            assert_eq!(chunk_texts, vec!["01234".to_string(), "56789".to_string()]);
            assert_eq!(chunk_ids.len(), 2);
            let chunks = store.get_chunks_for_document(document_id).unwrap();
            assert_eq!(chunks.len(), 2);
            assert_eq!(chunks[0].chunk_index, 0);
            assert_eq!(chunks[0].content, "01234");
            assert_eq!(chunks[1].chunk_index, 1);
            assert_eq!(chunks[1].content, "56789");
        }
        _ => panic!("expected the ingestion to proceed"),
    }
}

#[test]
fn test_batch_mismatch_writes_no_embeddings() {
    let mut store = VectorStore::in_memory().unwrap();
    let strategy = ChunkStrategy::FixedSize { size: 5, overlap: 0 };

    let outcome = ingest_prepare(&mut store, "d.txt", "0123456789", strategy).unwrap();
    let chunk_ids = match outcome {
        PrepareOutcome::Proceed { chunk_ids, .. } => chunk_ids,
        _ => panic!("expected the ingestion to proceed"),
    };
    assert_eq!(chunk_ids.len(), 2);

    // The provider answered one vector for two chunks: the file fails
    // with an embedding-failed error and zero embedding rows exist.
    let vectors = vec![bits(&[1.0, 0.0])];
    let r = ingest_store_embeddings(&mut store, "m", &chunk_ids, &vectors);
    match r {
        Err(VectDbError::EmbeddingFailed(_)) => {}
        _ => panic!("expected an embedding-count mismatch error"),
    }
    assert_eq!(store.count_embeddings().unwrap(), 0);
}

#[test]
fn test_ingest_store_embeddings_matching_counts() {
    let mut store = VectorStore::in_memory().unwrap();
    let strategy = ChunkStrategy::FixedSize { size: 5, overlap: 0 };

    let outcome = ingest_prepare(&mut store, "e.txt", "0123456789", strategy).unwrap();
    let chunk_ids = match outcome {
        PrepareOutcome::Proceed { chunk_ids, .. } => chunk_ids,
        _ => panic!("expected the ingestion to proceed"),
    };

    let vectors = vec![bits(&[1.0, 0.0]), bits(&[0.0, 1.0])];
    let n = ingest_store_embeddings(&mut store, "m", &chunk_ids, &vectors).unwrap();
    assert_eq!(n, 2);
    assert_eq!(store.count_embeddings().unwrap(), 2);

    let e = store.get_embedding(chunk_ids[0]).unwrap().unwrap();
    assert_eq!(e.model, "m");
    assert_eq!(e.vector, bits(&[1.0, 0.0]));
}

#[test]
fn test_insert_chunk_without_document_is_a_database_error() {
    let mut store = VectorStore::in_memory().unwrap();
    let chunk = Chunk::new(12345, 0, "orphan".to_string());
    match store.insert_chunk(&chunk) {
        Err(VectDbError::Database(_)) => {}
        _ => panic!("expected a database error for the missing parent row"),
    }
}

#[test]
fn test_vacuum_and_analyze() {
    let mut store = VectorStore::in_memory().unwrap();
    let doc = Document::new("v.txt".to_string(), "keep me");
    store.insert_document(&doc).unwrap();
    store.vacuum().unwrap();
    store.analyze().unwrap();
    assert_eq!(store.count_documents().unwrap(), 1);
}

#[test]
fn test_get_stats_counts_and_size() {
    let mut store = VectorStore::in_memory().unwrap();
    let doc = Document::new("s.txt".to_string(), "stats content");
    let doc_id = store.insert_document(&doc).unwrap();
    let chunk = Chunk::new(doc_id, 0, "stats content".to_string());
    let chunk_id = store.insert_chunk(&chunk).unwrap();
    let emb = Embedding::new(chunk_id, "m".to_string(), bits(&[0.5]));
    store.upsert_embedding(&emb).unwrap();

    let stats = store.get_stats().unwrap();
    assert_eq!(stats.document_count, 1);
    assert_eq!(stats.chunk_count, 1);
    assert_eq!(stats.embedding_count, 1);
    assert!(stats.db_size_bytes > 0);
}
