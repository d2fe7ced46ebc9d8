use unicode_segmentation::UnicodeSegmentation;
use vectdb::chunk::{chunk_fixed_size, chunk_semantic, chunk_text, split_into_sentences, ChunkStrategy};
use vectdb::config::ChunkingConfig;

#[test]
fn test_chunk_fixed_size_simple() {
    let text = "Hello world! This is a test.";
    let chunks = chunk_fixed_size(text, 10, 2);

    assert!(chunks.len() > 0);
    assert!(chunks[0].len() <= 10);
}

#[test]
fn test_chunk_fixed_size_with_overlap() {
    let text = "0123456789"; // 10 chars
    let chunks = chunk_fixed_size(text, 5, 2);

    // With size=5 and overlap=2, step = 5-2 = 3
    // Should get: "01234" (0-4), "34567" (3-7), "6789" (6-9)
    assert_eq!(chunks.len(), 3);
    assert_eq!(chunks[0], "01234");
    assert_eq!(chunks[1], "34567");
    assert_eq!(chunks[2], "6789");
}

#[test]
fn test_chunk_fixed_size_empty() {
    let chunks = chunk_fixed_size("", 10, 2);
    assert_eq!(chunks.len(), 0);
}

#[test]
fn test_chunk_semantic() {
    let text = "This is sentence one. This is sentence two. This is sentence three.";
    let chunks = chunk_semantic(text, 30);

    assert!(chunks.len() > 0);
    for chunk in &chunks {
        assert!(chunk.graphemes(true).count() <= 35); // Small buffer for word boundaries
    }
}

#[test]
fn test_chunk_semantic_paragraphs() {
    let text = "Paragraph one.\n\nParagraph two. Second sentence.\n\nParagraph three.";
    let chunks = chunk_semantic(text, 100);

    assert!(chunks.len() > 0);
}

#[test]
fn test_chunk_text_wrapper() {
    let text = "Hello world! This is a test.";

    let fixed = chunk_text(
        text,
        ChunkStrategy::FixedSize {
            size: 10,
            overlap: 2,
        },
    );
    assert!(fixed.len() > 0);

    let semantic = chunk_text(text, ChunkStrategy::Semantic { max_size: 50 });
    assert!(semantic.len() > 0);
}

#[test]
fn test_split_sentences() {
    let text = "First sentence. Second sentence! Third sentence? Fourth.";
    let sentences = split_into_sentences(text);

    assert!(sentences.len() >= 4);
}

#[test]
fn test_chunking_strategy() {
    let config = ChunkingConfig::default();
    match config.to_strategy() {
        ChunkStrategy::FixedSize { size, overlap } => {
            assert_eq!(size, 512);
            assert_eq!(overlap, 50);
        }
        _ => panic!("Expected FixedSize strategy"),
    }
}

#[test]
fn test_semantic_strategy_name() {
    let config = ChunkingConfig {
        max_chunk_size: 64,
        overlap_size: 8,
        strategy: "semantic".to_string(),
    };
    match config.to_strategy() {
        ChunkStrategy::Semantic { max_size } => assert_eq!(max_size, 64),
        _ => panic!("Expected Semantic strategy"),
    }
}

#[test]
fn test_empty_text_zero_chunks_both_strategies() {
    let fixed = chunk_text("", ChunkStrategy::FixedSize { size: 8, overlap: 2 });
    assert_eq!(fixed.len(), 0);

    let semantic = chunk_text("", ChunkStrategy::Semantic { max_size: 8 });
    assert_eq!(semantic.len(), 0);
}

#[test]
fn test_chunk_windows_are_graphemes_not_chars() {
    // An 'e' followed by a combining acute accent is one user-perceived
    // character of two chars: windows must never split it.
    let text = "e\u{301}x";
    let chunks = chunk_fixed_size(text, 1, 0);
    assert_eq!(chunks.len(), 2);
    assert_eq!(chunks[0], "e\u{301}");
    assert_eq!(chunks[1], "x");
}

#[test]
fn test_chunk_fixed_size_degenerate_returns_whole_text() {
    let chunks = chunk_fixed_size("some text", 3, 5);
    assert_eq!(chunks, vec!["some text".to_string()]);
}

#[test]
fn test_chunk_fixed_size_drops_blank_windows() {
    // The middle window is all whitespace and must be dropped.
    let text = "ab   cd";
    let chunks = chunk_fixed_size(text, 3, 1);
    assert!(chunks.iter().all(|c| !c.trim().is_empty()));
}

#[test]
fn test_split_sentences_exact() {
    let sentences = split_into_sentences("One. Two! Three");
    assert_eq!(sentences, vec!["One.".to_string(), " Two!".to_string(), " Three".to_string()]);
}

#[test]
fn test_semantic_packs_sentences_exactly() {
    // The first two sentences fit one chunk of 25 graphemes (each later
    // sentence keeps its leading space and one joining space is added);
    // the third starts a new chunk and is flushed trimmed at the end.
    let text = "Alpha beta. Gamma delta. Epsilon zeta.";
    let chunks = chunk_semantic(text, 25);
    assert_eq!(chunks.len(), 2);
    assert_eq!(chunks[0], "Alpha beta.  Gamma delta.");
    assert_eq!(chunks[1], "Epsilon zeta.");
}
