//! Text chunking.
//!
//! Splits a text into an ordered sequence of chunk strings, under one of
//! two strategies: fixed-size windows with overlap over the text's
//! user-perceived character (grapheme) sequence, or semantic packing of
//! sentences within paragraph boundaries. Both strategies accept every
//! input and are deterministic; empty input yields zero chunks.

use vstd::prelude::*;
use crate::text::{spec_is_blank, spec_trim, str_is_blank, trim_str};
use unicode_segmentation::UnicodeSegmentation;

verus! {

/// How a text is cut into chunks.
#[derive(Debug, Clone, Copy, PartialEq, Eq, Structural)]
pub enum ChunkStrategy {
    /// Successive windows of `size` graphemes, each window starting
    /// `size - overlap` graphemes after the last.
    FixedSize { size: usize, overlap: usize },
    /// Sentences packed greedily into chunks of at most `max_size`
    /// graphemes, preferring paragraph and sentence boundaries.
    Semantic { max_size: usize },
}

impl Default for ChunkStrategy {
    /// The default strategy: windows of 512 graphemes overlapping by 50.
    fn default() -> (r: Self)
        ensures
            r == (ChunkStrategy::FixedSize { size: 512usize, overlap: 50usize }),
    {
        ChunkStrategy::FixedSize { size: 512, overlap: 50 }
    }
}

/// The text's user-perceived characters: its extended grapheme clusters,
/// in order, each as its character sequence. Graphemes partition the
/// text, and each grapheme is non-empty.
pub uninterp spec fn graphemes_of(s: Seq<char>) -> Seq<Seq<char>>;

/// Relies on `unicode_segmentation::UnicodeSegmentation::graphemes`
/// (extended grapheme clusters, UAX #29): the clusters depend on the text
/// alone, they concatenate back to the text, and none is empty.
#[verifier::external_body]
fn split_graphemes(text: &str) -> (r: Vec<String>)
    ensures
        r@.map_values(|g: String| g@) == graphemes_of(text@),
        r@.map_values(|g: String| g@).flatten() == text@,
        forall|i: int| 0 <= i < r@.len() ==> #[trigger] r@[i]@.len() > 0,
        r@.len() <= text@.len(),
        text@.len() == 0 ==> r@.len() == 0,
        text@.len() > 0 ==> r@.len() > 0,
{
    text.graphemes(true).map(|g| g.to_string()).collect()
}

/// The window of at most `size` graphemes starting at `start`, as one
/// character sequence.
pub open spec fn window_of(gs: Seq<Seq<char>>, start: int, size: int) -> Seq<char> {
    let end = if start + size < gs.len() {
        start + size
    } else {
        gs.len() as int
    };
    gs.subrange(start, end).flatten()
}

/// The chunks cut from `gs` by successive windows of `size` graphemes,
/// each `step` graphemes after the last; all-whitespace windows are
/// dropped, and the scan ends with the window that reaches the end.
pub open spec fn spec_fixed_from(gs: Seq<Seq<char>>, size: int, step: int, start: int) -> Seq<
    Seq<char>,
>
    decreases gs.len() - start,
{
    if !(1 <= step <= size && 0 <= start < gs.len()) {
        Seq::empty()
    } else {
        let w = window_of(gs, start, size);
        let head = if spec_is_blank(w) {
            Seq::<Seq<char>>::empty()
        } else {
            seq![w]
        };
        if start + size >= gs.len() {
            head
        } else {
            head + spec_fixed_from(gs, size, step, start + step)
        }
    }
}

/// Fixed-size chunking of a whole text: empty input yields no chunks; a
/// degenerate configuration (`size <= overlap`) yields the whole text as
/// one chunk; otherwise the windows over the grapheme sequence.
pub open spec fn spec_fixed_chunks(text: Seq<char>, size: int, overlap: int) -> Seq<Seq<char>> {
    if text.len() == 0 {
        Seq::empty()
    } else if size <= overlap {
        seq![text]
    } else {
        spec_fixed_from(graphemes_of(text), size, size - overlap, 0)
    }
}

/// Join the graphemes `gs[start..end]` into one string.
fn join_graphemes(gs: &Vec<String>, start: usize, end: usize) -> (r: String)
    requires
        start <= end <= gs@.len(),
    ensures
        r@ == gs@.map_values(|g: String| g@).subrange(start as int, end as int).flatten(),
{
    let ghost gsv = gs@.map_values(|g: String| g@);
    let mut out = String::new();
    let mut k = start;
    proof {
        assert(gsv.subrange(start as int, start as int) =~= Seq::<Seq<char>>::empty());
    }
    while k < end
        invariant
            start <= k <= end <= gs@.len(),
            gsv == gs@.map_values(|g: String| g@),
            out@ == gsv.subrange(start as int, k as int).flatten(),
        decreases end - k,
    {
        out.append(gs[k].as_str());
        proof {
            assert(gsv.subrange(start as int, k + 1 as int) =~= gsv.subrange(
                start as int,
                k as int,
            ).push(gsv[k as int]));
            gsv.subrange(start as int, k as int).lemma_flatten_push(gsv[k as int]);
        }
        k = k + 1;
    }
    out
}

/// Chunk a text into fixed-size windows of `size` graphemes with the
/// given overlap; all-whitespace windows are dropped. A degenerate
/// configuration (`size <= overlap`) yields the whole text as one chunk;
/// empty input yields zero chunks.
pub fn chunk_fixed_size(text: &str, size: usize, overlap: usize) -> (r: Vec<String>)
    ensures
        r@.map_values(|s: String| s@) == spec_fixed_chunks(text@, size as int, overlap as int),
        text@.len() == 0 ==> r@.len() == 0,
{
    let mut chunks: Vec<String> = Vec::new();
    if text.is_empty() {
        proof {
            assert(chunks@.map_values(|s: String| s@) =~= spec_fixed_chunks(
                text@,
                size as int,
                overlap as int,
            ));
        }
        return chunks;
    }
    if size <= overlap {
        chunks.push(text.to_owned());
        proof {
            assert(chunks@.map_values(|s: String| s@) =~= spec_fixed_chunks(
                text@,
                size as int,
                overlap as int,
            ));
        }
        return chunks;
    }
    let gs = split_graphemes(text);
    let ghost gsv = gs@.map_values(|g: String| g@);
    let step = size - overlap;
    let n = gs.len();
    let mut start: usize = 0;
    while start < n
        invariant
            0 < n == gs@.len(),
            text@.len() > 0,
            size as int > overlap as int,
            gsv == gs@.map_values(|g: String| g@),
            gsv == graphemes_of(text@),
            1 <= step <= size,
            step == size - overlap,
            start <= n,
            spec_fixed_chunks(text@, size as int, overlap as int) == spec_fixed_from(
                gsv,
                size as int,
                step as int,
                0,
            ),
            spec_fixed_from(gsv, size as int, step as int, 0) == chunks@.map_values(
                |s: String| s@,
            ) + spec_fixed_from(gsv, size as int, step as int, start as int),
        decreases n - start,
    {
        let ghost old_chunks = chunks@;
        let end = if size <= n && start <= n - size {
            start + size
        } else {
            n
        };
        proof {
            assert(end == if (start as int) + (size as int) < gsv.len() {
                (start as int) + (size as int)
            } else {
                gsv.len() as int
            });
        }
        let w = join_graphemes(&gs, start, end);
        proof {
            assert(w@ == window_of(gsv, start as int, size as int));
        }
        let blank = str_is_blank(w.as_str());
        if !blank {
            chunks.push(w);
        }
        proof {
            let head = if spec_is_blank(w@) {
                Seq::<Seq<char>>::empty()
            } else {
                seq![w@]
            };
            assert(chunks@.map_values(|s: String| s@) =~= old_chunks.map_values(|s: String| s@)
                + head);
            if end == n {
                assert((start as int) + (size as int) >= gsv.len());
                assert(spec_fixed_from(gsv, size as int, step as int, start as int) == head);
            } else {
                assert(spec_fixed_from(gsv, size as int, step as int, start as int) == head
                    + spec_fixed_from(gsv, size as int, step as int, start as int + step as int));
            }
        }
        if end == n {
            proof {
                assert(spec_fixed_from(gsv, size as int, step as int, 0) =~= chunks@.map_values(
                    |s: String| s@,
                ));
            }
            return chunks;
        }
        start = start + step;
        proof {
            assert(spec_fixed_from(gsv, size as int, step as int, 0) =~= chunks@.map_values(
                |s: String| s@,
            ) + spec_fixed_from(gsv, size as int, step as int, start as int));
        }
    }
    proof {
        assert(spec_fixed_from(gsv, size as int, step as int, 0) =~= chunks@.map_values(
            |s: String| s@,
        ));
    }
    chunks
}

/// Whether position `i` ends a sentence: a `.`, `!` or `?` followed by a
/// space, newline, tab, or the end of the text.
pub open spec fn is_sentence_end(s: Seq<char>, i: int) -> bool {
    &&& 0 <= i < s.len()
    &&& (s[i] == '.' || s[i] == '!' || s[i] == '?')
    &&& (i + 1 == s.len() || s[i + 1] == ' ' || s[i + 1] == '\n' || s[i + 1] == '\t')
}

/// The sentences found from scan position `i` on, the current sentence
/// having started at `start`; all-whitespace pieces are dropped.
pub open spec fn spec_sentences_from(s: Seq<char>, start: int, i: int) -> Seq<Seq<char>>
    decreases s.len() - i,
{
    if !(0 <= start <= i <= s.len()) {
        Seq::empty()
    } else if i == s.len() {
        if start < s.len() && !spec_is_blank(s.subrange(start, s.len() as int)) {
            seq![s.subrange(start, s.len() as int)]
        } else {
            Seq::empty()
        }
    } else if is_sentence_end(s, i) {
        let sent = s.subrange(start, i + 1);
        (if spec_is_blank(sent) {
            Seq::<Seq<char>>::empty()
        } else {
            seq![sent]
        }) + spec_sentences_from(s, i + 1, i + 1)
    } else {
        spec_sentences_from(s, start, i + 1)
    }
}

/// The sentences of a text, in order.
pub open spec fn spec_sentences(s: Seq<char>) -> Seq<Seq<char>> {
    spec_sentences_from(s, 0, 0)
}

/// Split a text into sentences: each ends at a `.`, `!` or `?` followed
/// by a space, newline, tab, or the end of the text; the remainder after
/// the last boundary is the final sentence; all-whitespace pieces are
/// dropped.
pub fn split_into_sentences(text: &str) -> (r: Vec<String>)
    ensures
        r@.map_values(|s: String| s@) == spec_sentences(text@),
{
    let n = text.unicode_len();
    let mut sentences: Vec<String> = Vec::new();
    let mut start: usize = 0;
    let mut i: usize = 0;
    while i < n
        invariant
            0 <= start <= i <= n,
            n == text@.len(),
            spec_sentences(text@) == sentences@.map_values(|s: String| s@)
                + spec_sentences_from(text@, start as int, i as int),
        decreases n - i,
    {
        let ghost old_sentences = sentences@;
        let c = text.get_char(i);
        if c == '.' || c == '!' || c == '?' {
            let is_end = if i + 1 < n {
                let nc = text.get_char(i + 1);
                nc == ' ' || nc == '\n' || nc == '\t'
            } else {
                true
            };
            if is_end {
                let sent = text.substring_char(start, i + 1).to_owned();
                let blank = str_is_blank(sent.as_str());
                if !blank {
                    sentences.push(sent);
                }
                proof {
                    let head = if spec_is_blank(text@.subrange(start as int, i + 1 as int)) {
                        Seq::<Seq<char>>::empty()
                    } else {
                        seq![text@.subrange(start as int, i + 1 as int)]
                    };
                    assert(sentences@.map_values(|s: String| s@) =~= old_sentences.map_values(
                        |s: String| s@,
                    ) + head);
                }
                start = i + 1;
            }
        }
        i = i + 1;
    }
    if start < n {
        let ghost old_sentences = sentences@;
        let rem = text.substring_char(start, n).to_owned();
        let blank = str_is_blank(rem.as_str());
        if !blank {
            sentences.push(rem);
            proof {
                assert(sentences@.map_values(|s: String| s@) =~= old_sentences.map_values(
                    |s: String| s@,
                ).push(text@.subrange(start as int, n as int)));
            }
        }
    }
    proof {
        assert(spec_sentences(text@) =~= sentences@.map_values(|s: String| s@));
    }
    sentences
}

/// The paragraph pieces found from scan position `i` on, the current
/// piece having started at `start`: the text split on each occurrence of
/// two consecutive newlines, every piece kept (even empty ones).
pub open spec fn spec_paras_from(s: Seq<char>, start: int, i: int) -> Seq<Seq<char>>
    decreases s.len() - i,
{
    if !(0 <= start <= i <= s.len()) {
        Seq::empty()
    } else if i + 2 <= s.len() && s[i] == '\n' && s[i + 1] == '\n' {
        seq![s.subrange(start, i)] + spec_paras_from(s, i + 2, i + 2)
    } else if i < s.len() {
        spec_paras_from(s, start, i + 1)
    } else {
        seq![s.subrange(start, i)]
    }
}

/// The paragraphs of a text: the pieces between blank-line boundaries.
pub open spec fn spec_paragraphs(s: Seq<char>) -> Seq<Seq<char>> {
    spec_paras_from(s, 0, 0)
}

/// Split a text on each occurrence of two consecutive newlines; every
/// piece is kept, even empty ones.
fn split_paragraphs(text: &str) -> (r: Vec<String>)
    ensures
        r@.map_values(|s: String| s@) == spec_paragraphs(text@),
{
    let n = text.unicode_len();
    let mut paras: Vec<String> = Vec::new();
    let mut start: usize = 0;
    let mut i: usize = 0;
    while i < n
        invariant
            0 <= start <= i <= n,
            n == text@.len(),
            spec_paragraphs(text@) == paras@.map_values(|s: String| s@) + spec_paras_from(
                text@,
                start as int,
                i as int,
            ),
        decreases n - i,
    {
        let ghost old_paras = paras@;
        if i + 1 < n {
            let c0 = text.get_char(i);
            let c1 = text.get_char(i + 1);
            if c0 == '\n' && c1 == '\n' {
                let piece = text.substring_char(start, i).to_owned();
                paras.push(piece);
                proof {
                    assert(paras@.map_values(|s: String| s@) =~= old_paras.map_values(
                        |s: String| s@,
                    ).push(text@.subrange(start as int, i as int)));
                }
                start = i + 2;
                i = i + 2;
            } else {
                i = i + 1;
            }
        } else {
            i = i + 1;
        }
    }
    let ghost old_paras = paras@;
    let last = text.substring_char(start, n).to_owned();
    paras.push(last);
    proof {
        assert(paras@.map_values(|s: String| s@) =~= old_paras.map_values(|s: String| s@).push(
            text@.subrange(start as int, n as int),
        ));
        assert(spec_paragraphs(text@) =~= paras@.map_values(|s: String| s@));
    }
    paras
}

/// One greedy packing step: add the next sentence to the running buffer,
/// flushing the buffer first when the sentence would not fit, and
/// re-splitting the buffer by fixed-size windows when it alone exceeds
/// `max_size` graphemes.
pub open spec fn sem_step(
    chunks: Seq<Seq<char>>,
    cur: Seq<char>,
    sent: Seq<char>,
    max_size: int,
) -> (Seq<Seq<char>>, Seq<char>) {
    let cur_len = graphemes_of(cur).len() as int;
    let sent_len = graphemes_of(sent).len() as int;
    let merged = if cur_len > 0 && cur_len + sent_len > max_size {
        (
            chunks + (if spec_is_blank(cur) {
                Seq::<Seq<char>>::empty()
            } else {
                seq![spec_trim(cur)]
            }),
            sent,
        )
    } else {
        (
            chunks,
            if cur.len() == 0 {
                sent
            } else {
                cur + seq![' '] + sent
            },
        )
    };
    if graphemes_of(merged.1).len() > max_size {
        (merged.0 + spec_fixed_chunks(merged.1, max_size, max_size / 10), Seq::<char>::empty())
    } else {
        merged
    }
}

/// Left fold of `sem_step` over a paragraph's sentences.
pub open spec fn sem_fold_sentences(
    chunks: Seq<Seq<char>>,
    cur: Seq<char>,
    sents: Seq<Seq<char>>,
    max_size: int,
) -> (Seq<Seq<char>>, Seq<char>)
    decreases sents.len(),
{
    if sents.len() == 0 {
        (chunks, cur)
    } else {
        let st = sem_step(chunks, cur, sents[0], max_size);
        sem_fold_sentences(st.0, st.1, sents.drop_first(), max_size)
    }
}

/// One paragraph of the semantic scan: blank paragraphs are skipped;
/// otherwise the trimmed paragraph's sentences are packed, and a newline
/// marks the paragraph break in the running buffer.
pub open spec fn sem_para_step(
    chunks: Seq<Seq<char>>,
    cur: Seq<char>,
    para: Seq<char>,
    max_size: int,
) -> (Seq<Seq<char>>, Seq<char>) {
    let p = spec_trim(para);
    if p.len() == 0 {
        (chunks, cur)
    } else {
        let st = sem_fold_sentences(chunks, cur, spec_sentences(p), max_size);
        if st.1.len() > 0 && st.1.last() != '\n' {
            (st.0, st.1 + seq!['\n'])
        } else {
            st
        }
    }
}

/// Left fold of `sem_para_step` over the text's paragraphs.
pub open spec fn sem_fold_paras(
    chunks: Seq<Seq<char>>,
    cur: Seq<char>,
    paras: Seq<Seq<char>>,
    max_size: int,
) -> (Seq<Seq<char>>, Seq<char>)
    decreases paras.len(),
{
    if paras.len() == 0 {
        (chunks, cur)
    } else {
        let st = sem_para_step(chunks, cur, paras[0], max_size);
        sem_fold_paras(st.0, st.1, paras.drop_first(), max_size)
    }
}

/// Semantic chunking of a whole text: paragraphs, then sentences, packed
/// greedily up to `max_size` graphemes; the trailing buffer is flushed at
/// the end; empty input yields zero chunks.
pub open spec fn spec_semantic_chunks(text: Seq<char>, max_size: int) -> Seq<Seq<char>> {
    if text.len() == 0 {
        Seq::empty()
    } else {
        let st = sem_fold_paras(
            Seq::empty(),
            Seq::empty(),
            spec_paragraphs(text),
            max_size,
        );
        st.0 + (if spec_is_blank(st.1) {
            Seq::<Seq<char>>::empty()
        } else {
            seq![spec_trim(st.1)]
        })
    }
}

/// Append every chunk of `more` to `chunks`.
fn push_all(chunks: &mut Vec<String>, more: Vec<String>)
    ensures
        final(chunks)@.map_values(|s: String| s@) == old(chunks)@.map_values(|s: String| s@)
            + more@.map_values(|s: String| s@),
{
    let ghost base = chunks@;
    let n = more.len();
    let mut t: usize = 0;
    while t < n
        invariant
            t <= n == more@.len(),
            chunks@.map_values(|s: String| s@) == base.map_values(|s: String| s@)
                + more@.map_values(|s: String| s@).take(t as int),
        decreases n - t,
    {
        let ghost before = chunks@;
        let piece = more[t].clone();
        chunks.push(piece);
        proof {
            assert(chunks@.map_values(|s: String| s@) =~= before.map_values(|s: String| s@).push(
                more@[t as int]@,
            ));
            assert(chunks@.map_values(|s: String| s@) =~= base.map_values(|s: String| s@)
                + more@.map_values(|s: String| s@).take(t + 1 as int));
        }
        t = t + 1;
    }
    proof {
        assert(more@.map_values(|s: String| s@).take(n as int) =~= more@.map_values(
            |s: String| s@,
        ));
    }
}

/// One executable packing step, mirroring `sem_step`.
fn sem_step_exec(chunks: &mut Vec<String>, cur: String, sent: &String, max_size: usize) -> (r:
    String)
    ensures
        ({
            let st = sem_step(
                old(chunks)@.map_values(|s: String| s@),
                cur@,
                sent@,
                max_size as int,
            );
            final(chunks)@.map_values(|s: String| s@) == st.0 && r@ == st.1
        }),
{
    let ghost chunks0 = chunks@.map_values(|s: String| s@);
    let mut cur = cur;
    let cur_gs = split_graphemes(cur.as_str());
    let sent_gs = split_graphemes(sent.as_str());
    let cur_len = cur_gs.len();
    let sent_len = sent_gs.len();
    if cur_len > 0 && (sent_len > max_size || cur_len > max_size - sent_len) {
        let blank = str_is_blank(cur.as_str());
        if !blank {
            let ghost before = chunks@;
            let piece = trim_str(cur.as_str());
            chunks.push(piece);
            proof {
                assert(chunks@.map_values(|s: String| s@) =~= before.map_values(
                    |s: String| s@,
                ).push(spec_trim(cur@)));
            }
        } else {
            proof {
                assert(chunks@.map_values(|s: String| s@) =~= chunks0
                    + Seq::<Seq<char>>::empty());
            }
        }
        cur = sent.clone();
    } else {
        if cur.as_str().is_empty() {
            cur = sent.clone();
        } else {
            proof {
                reveal_strlit(" ");
            }
            cur.append(" ");
            cur.append(sent.as_str());
            proof {
                assert(" "@ =~= seq![' ']);
            }
        }
    }
    let cur_gs2 = split_graphemes(cur.as_str());
    if cur_gs2.len() > max_size {
        let split = chunk_fixed_size(cur.as_str(), max_size, max_size / 10);
        push_all(chunks, split);
        cur = String::new();
    }
    cur
}

/// Chunk a text semantically: split on blank-line paragraph boundaries,
/// then on sentence boundaries, and pack sentences greedily into chunks
/// of at most `max_size` graphemes; a lone sentence over the limit is
/// re-split by fixed-size windows. Empty input yields zero chunks.
pub fn chunk_semantic(text: &str, max_size: usize) -> (r: Vec<String>)
    ensures
        r@.map_values(|s: String| s@) == spec_semantic_chunks(text@, max_size as int),
        text@.len() == 0 ==> r@.len() == 0,
{
    let mut chunks: Vec<String> = Vec::new();
    if text.is_empty() {
        proof {
            assert(chunks@.map_values(|s: String| s@) =~= spec_semantic_chunks(
                text@,
                max_size as int,
            ));
        }
        return chunks;
    }
    let paras = split_paragraphs(text);
    let ghost parasv = paras@.map_values(|s: String| s@);
    let mut cur = String::new();
    let np = paras.len();
    let mut k: usize = 0;
    proof {
        assert(parasv.skip(0) =~= parasv);
        assert(chunks@.map_values(|s: String| s@) =~= Seq::<Seq<char>>::empty());
    }
    while k < np
        invariant
            k <= np == paras@.len(),
            parasv == paras@.map_values(|s: String| s@),
            parasv == spec_paragraphs(text@),
            sem_fold_paras(Seq::empty(), Seq::empty(), parasv, max_size as int) == sem_fold_paras(
                chunks@.map_values(|s: String| s@),
                cur@,
                parasv.skip(k as int),
                max_size as int,
            ),
        decreases np - k,
    {
        let ghost chunks_in = chunks@.map_values(|s: String| s@);
        let ghost cur_in = cur@;
        proof {
            assert(parasv.skip(k as int)[0] == parasv[k as int]);
            assert(parasv.skip(k as int).drop_first() =~= parasv.skip(k + 1 as int));
        }
        let p = trim_str(paras[k].as_str());
        if !p.as_str().is_empty() {
            let sents = split_into_sentences(p.as_str());
            let ghost sentsv = sents@.map_values(|s: String| s@);
            let ns = sents.len();
            let mut j: usize = 0;
            proof {
                assert(sentsv.skip(0) =~= sentsv);
            }
            while j < ns
                invariant
                    j <= ns == sents@.len(),
                    sentsv == sents@.map_values(|s: String| s@),
                    sem_fold_sentences(chunks_in, cur_in, sentsv, max_size as int)
                        == sem_fold_sentences(
                        chunks@.map_values(|s: String| s@),
                        cur@,
                        sentsv.skip(j as int),
                        max_size as int,
                    ),
                decreases ns - j,
            {
                proof {
                    assert(sentsv.skip(j as int)[0] == sentsv[j as int]);
                    assert(sentsv.skip(j as int).drop_first() =~= sentsv.skip(j + 1 as int));
                }
                let sent = &sents[j];
                cur = sem_step_exec(&mut chunks, cur, sent, max_size);
                j = j + 1;
            }
            proof {
                assert(sentsv.skip(ns as int) =~= Seq::<Seq<char>>::empty());
            }
            let ln = cur.as_str().unicode_len();
            if ln > 0 {
                let lc = cur.as_str().get_char(ln - 1);
                if lc != '\n' {
                    proof {
                        reveal_strlit("\n");
                    }
                    cur.append("\n");
                    proof {
                        assert("\n"@ =~= seq!['\n']);
                    }
                }
            }
        }
        proof {
            let st = sem_para_step(chunks_in, cur_in, parasv[k as int], max_size as int);
            assert(st.0 == chunks@.map_values(|s: String| s@) && st.1 == cur@);
        }
        k = k + 1;
    }
    proof {
        assert(parasv.skip(np as int) =~= Seq::<Seq<char>>::empty());
    }
    let blank = str_is_blank(cur.as_str());
    if !blank {
        let ghost before = chunks@;
        let piece = trim_str(cur.as_str());
        chunks.push(piece);
        proof {
            assert(chunks@.map_values(|s: String| s@) =~= before.map_values(|s: String| s@).push(
                spec_trim(cur@),
            ));
        }
    }
    proof {
        assert(chunks@.map_values(|s: String| s@) =~= spec_semantic_chunks(
            text@,
            max_size as int,
        ));
    }
    chunks
}

/// The chunks of a text under a strategy.
pub open spec fn spec_chunks(text: Seq<char>, strategy: ChunkStrategy) -> Seq<Seq<char>> {
    match strategy {
        ChunkStrategy::FixedSize { size, overlap } => spec_fixed_chunks(
            text,
            size as int,
            overlap as int,
        ),
        ChunkStrategy::Semantic { max_size } => spec_semantic_chunks(text, max_size as int),
    }
}

/// Chunk a text according to the given strategy. Empty input yields zero
/// chunks under either strategy.
pub fn chunk_text(text: &str, strategy: ChunkStrategy) -> (r: Vec<String>)
    ensures
        r@.map_values(|s: String| s@) == spec_chunks(text@, strategy),
        text@.len() == 0 ==> r@.len() == 0,
{
    match strategy {
        ChunkStrategy::FixedSize { size, overlap } => chunk_fixed_size(text, size, overlap),
        ChunkStrategy::Semantic { max_size } => chunk_semantic(text, max_size),
    }
}

} // verus!

