use vectdb::config::{default_top_k, DatabaseConfig, OllamaConfig};
use vectdb::domain::{Chunk, Document};
use vectdb::export::csv_escape_content;
use vectdb::files::{is_readable_file, is_supported_file};
use vectdb::provider::{has_model, ModelInfo};
use vectdb::rank::{filter_by_threshold, select_top_k};
use vectdb::retry::{backoff_delay_ms, retry_step, AttemptOutcome, RetryDecision};

fn listing(names: &[&str]) -> Vec<ModelInfo> {
    names
        .iter()
        .map(|n| ModelInfo { name: n.to_string(), size: 0, modified_at: String::new() })
        .collect()
}

/// An order-preserving key for a (non-NaN) f32: greater key, greater score.
fn sim_key(s: f32) -> u64 {
    let b = s.to_bits();
    let k = if b & 0x8000_0000 != 0 { !b } else { b | 0x8000_0000 };
    k as u64
}

#[test]
fn test_has_model_latest_tag() {
    let models = listing(&["foo:latest"]);
    assert!(has_model(&models, "foo"));
}

#[test]
fn test_has_model_exact_and_base() {
    let models = listing(&["foo:v1"]);
    assert!(has_model(&models, "foo:v1"));

    // The base-name tier ignores the tag on both sides.
    let models = listing(&["foo:v2"]);
    assert!(has_model(&models, "foo:v1"));

    let models = listing(&["bar:v2"]);
    assert!(!has_model(&models, "foo:v1"));
}

#[test]
fn test_has_model_no_match() {
    let models = listing(&["alpha:latest", "beta"]);
    assert!(!has_model(&models, "gamma"));
    assert!(has_model(&models, "beta"));
    assert!(has_model(&models, "alpha"));
}

#[test]
fn test_retry_exhaustion_after_four_attempts() {
    // Every attempt fails at the transport level: attempts 0, 1 and 2
    // are retried with doubling backoff, and the fourth attempt ends in
    // a provider-unavailable failure.
    let mut attempts = 0u32;
    let mut attempt = 0u32;
    loop {
        attempts += 1;
        match retry_step(attempt, AttemptOutcome::Transport) {
            RetryDecision::RetryAfter { delay_ms } => {
                assert_eq!(delay_ms, 100 << attempt);
                attempt += 1;
            }
            RetryDecision::FailUnavailable => break,
            other => panic!("unexpected decision: {:?}", other),
        }
    }
    assert_eq!(attempts, 4);
}

#[test]
fn test_retry_backoff_delays() {
    assert_eq!(backoff_delay_ms(0), 100);
    assert_eq!(backoff_delay_ms(1), 200);
    assert_eq!(backoff_delay_ms(2), 400);
}

#[test]
fn test_retry_non_retryable_outcomes() {
    assert_eq!(retry_step(0, AttemptOutcome::ModelNotFound), RetryDecision::FailEmbedding);
    assert_eq!(retry_step(0, AttemptOutcome::ParseFailure), RetryDecision::FailEmbedding);
    assert_eq!(retry_step(0, AttemptOutcome::Success), RetryDecision::Done);
    assert_eq!(retry_step(3, AttemptOutcome::ServerError), RetryDecision::FailEmbedding);
    assert_eq!(retry_step(3, AttemptOutcome::Transport), RetryDecision::FailUnavailable);
}

#[test]
fn test_threshold_zero_keeps_all_ranked() {
    let keys: Vec<u64> = vec![0.9f32, 0.5, 0.1].into_iter().map(sim_key).collect();
    let idx = select_top_k(&keys, 2);
    assert_eq!(idx, vec![0, 1]);

    // A threshold of exactly zero is a no-op filter.
    let kept = filter_by_threshold(idx.clone(), &keys, sim_key(0.0), false);
    assert_eq!(kept, idx);
}

#[test]
fn test_threshold_excludes_low_similarity() {
    let keys: Vec<u64> = vec![0.95f32, 0.4, 0.92].into_iter().map(sim_key).collect();
    let idx = select_top_k(&keys, 3);
    assert_eq!(idx, vec![0, 2, 1]);

    // With a threshold of 0.9 the 0.4-scored entry is excluded even
    // though it would fit within the requested count.
    let kept = filter_by_threshold(idx, &keys, sim_key(0.9), true);
    assert_eq!(kept, vec![0, 2]);
}

#[test]
fn test_select_top_k_orders_descending() {
    let keys: Vec<u64> = vec![5, 1, 9, 7];
    let idx = select_top_k(&keys, 10);
    assert_eq!(idx, vec![2, 3, 0, 1]);
}

#[test]
fn test_default_config() {
    let ollama = OllamaConfig::default();
    assert_eq!(ollama.default_model, "nomic-embed-text");
    assert_eq!(ollama.base_url, "http://localhost:11434");
    assert_eq!(ollama.timeout_seconds, 30);
    assert_eq!(default_top_k(), 10);
    assert_eq!(DatabaseConfig::default().path, "vectors.db");
}

#[test]
fn test_is_supported_file() {
    assert!(is_supported_file("notes.txt"));
    assert!(is_supported_file("README.MD"));
    assert!(is_supported_file("/docs/guide.markdown"));
    assert!(!is_supported_file("image.png"));
    assert!(!is_supported_file("no_extension"));
    assert!(!is_supported_file(".hidden"));
}

#[test]
fn test_is_readable_file() {
    assert!(is_readable_file("notes.txt"));
    assert!(is_readable_file("no_extension"));
    assert!(!is_readable_file("image.png"));
}

#[test]
fn test_format_csv_escapes_quotes() {
    let escaped = csv_escape_content("Content with \"quotes\"");
    assert!(escaped.contains("\"\""));
    assert_eq!(escaped, "Content with \"\"quotes\"\"");
}

#[test]
fn test_csv_escape_newlines() {
    assert_eq!(csv_escape_content("a\nb"), "a b");
}

#[test]
fn test_document_fingerprint_is_sha256_hex() {
    // The canonical SHA-256 test vector for "abc".
    let doc = Document::new("abc.txt".to_string(), "abc");
    assert_eq!(
        doc.content_hash,
        "ba7816bf8f01cfea414140de5dae2223b00361a396177a9cb410ff61f20015ad"
    );
}

#[test]
fn test_chunk_token_estimate() {
    // One token per four content bytes: 11 bytes give 2 tokens.
    let chunk = Chunk::new(7, 3, "Hello world".to_string());
    assert_eq!(chunk.token_count, Some(2));
    assert_eq!(chunk.document_id, 7);
    assert_eq!(chunk.chunk_index, 3);
    assert_eq!(chunk.id, None);
}

#[test]
fn test_with_metadata_appends() {
    let doc = Document::new("m.txt".to_string(), "content")
        .with_metadata("author".to_string(), "someone".to_string());
    assert_eq!(doc.metadata.len(), 1);
    assert_eq!(doc.metadata[0].0, "author");
    assert_eq!(doc.metadata[0].1, "someone");
}
