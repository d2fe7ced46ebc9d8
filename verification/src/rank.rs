//! Similarity ranking.
//!
//! The similarity scan hands every stored embedding a score; scores are
//! compared through order-preserving keys (a greater key means a more
//! similar chunk). Ranking selects the `top_k` highest-keyed entries in
//! descending order, and an optional threshold then drops every entry
//! whose key falls below it.

use vstd::prelude::*;

verus! {

/// The entries of `idx`, in order, whose keys reach the threshold.
pub open spec fn spec_keep(keys: Seq<u64>, idx: Seq<usize>, threshold_key: u64) -> Seq<usize>
    decreases idx.len(),
{
    if idx.len() == 0 {
        Seq::empty()
    } else {
        spec_keep(keys, idx.drop_last(), threshold_key) + (if idx.last() < keys.len()
            && keys[idx.last() as int] >= threshold_key {
            seq![idx.last()]
        } else {
            Seq::<usize>::empty()
        })
    }
}

/// Select the positions of the `top_k` greatest keys, in descending key
/// order. Every selected position is in range and selected once; when
/// fewer than `top_k` keys exist, all are selected; and no unselected
/// key exceeds a selected one. Which of two equal keys is selected
/// first is left open.
pub fn select_top_k(keys: &Vec<u64>, top_k: usize) -> (idx: Vec<usize>)
    ensures
        idx@.len() == if top_k <= keys@.len() {
            top_k as int
        } else {
            keys@.len() as int
        },
        forall|i: int| 0 <= i < idx@.len() ==> (#[trigger] idx@[i]) < keys@.len(),
        forall|i: int, j: int| 0 <= i < j < idx@.len() ==> idx@[i] != idx@[j],
        forall|i: int, j: int|
            0 <= i < j < idx@.len() ==> keys@[(#[trigger] idx@[i]) as int] >= keys@[(
            #[trigger] idx@[j]) as int],
        forall|e: usize|
            e < keys@.len() && !idx@.contains(e) ==> forall|i: int|
                0 <= i < idx@.len() ==> keys@[(#[trigger] idx@[i]) as int] >= keys@[e as int],
{
    let n = keys.len();
    let mut remaining: Vec<usize> = Vec::new();
    let mut e: usize = 0;
    while e < n
        invariant
            e <= n,
            remaining@.len() == e,
            forall|q: int| 0 <= q < e ==> (#[trigger] remaining@[q]) == q,
        decreases n - e,
    {
        remaining.push(e);
        e = e + 1;
    }
    let mut out: Vec<usize> = Vec::new();
    proof {
        assert forall|v: usize| v < n implies out@.contains(v) || remaining@.contains(v) by {
            assert(remaining@[v as int] == v);
        }
    }
    while out.len() < top_k && remaining.len() > 0
        invariant
            n == keys@.len(),
            out@.len() + remaining@.len() <= n,
            out@.len() <= top_k,
            out@.len() < top_k || remaining@.len() == 0 ==> out@.len() + remaining@.len() == n,
            out@.len() + remaining@.len() == n,
            forall|q: int| 0 <= q < remaining@.len() ==> (#[trigger] remaining@[q]) < n,
            forall|i: int| 0 <= i < out@.len() ==> (#[trigger] out@[i]) < n,
            forall|i: int, j: int| 0 <= i < j < out@.len() ==> out@[i] != out@[j],
            forall|i: int, j: int|
                0 <= i < out@.len() && 0 <= j < remaining@.len() ==> (#[trigger] out@[i]) != (
                #[trigger] remaining@[j]),
            forall|i: int, j: int| 0 <= i < j < remaining@.len() ==> remaining@[i] != remaining@[j],
            forall|v: usize| v < n ==> out@.contains(v) || remaining@.contains(v),
            forall|i: int, j: int|
                0 <= i < j < out@.len() ==> keys@[(#[trigger] out@[i]) as int] >= keys@[(
                #[trigger] out@[j]) as int],
            forall|i: int, j: int|
                0 <= i < out@.len() && 0 <= j < remaining@.len() ==> keys@[(#[trigger] out@[i]) as int]
                    >= keys@[(#[trigger] remaining@[j]) as int],
        decreases top_k - out.len(),
    {
        let mut best: usize = 0;
        let mut q: usize = 1;
        while q < remaining.len()
            invariant
                remaining@.len() > 0,
                n == keys@.len(),
                forall|t: int| 0 <= t < remaining@.len() ==> (#[trigger] remaining@[t]) < n,
                1 <= q <= remaining@.len() || remaining@.len() == 1,
                best < remaining@.len(),
                forall|t: int|
                    0 <= t < q && t < remaining@.len() ==> keys@[remaining@[best as int] as int]
                        >= keys@[(#[trigger] remaining@[t]) as int],
            decreases remaining@.len() - q,
        {
            if keys[remaining[q]] > keys[remaining[best]] {
                best = q;
            }
            q = q + 1;
        }
        let ghost old_out = out@;
        let ghost old_remaining = remaining@;
        let chosen = remaining[best];
        out.push(chosen);
        remaining.remove(best);
        proof {
            assert(remaining@ =~= old_remaining.remove(best as int));
            assert forall|v: usize| v < n implies out@.contains(v) || remaining@.contains(v) by {
                if old_out.contains(v) {
                    let w = choose|w: int| 0 <= w < old_out.len() && old_out[w] == v;
                    assert(out@[w] == v);
                } else {
                    let w = choose|w: int| 0 <= w < old_remaining.len() && old_remaining[w] == v;
                    if w == best {
                        assert(out@.last() == v);
                    } else if w < best {
                        assert(remaining@[w] == v);
                    } else {
                        assert(remaining@[w - 1] == v);
                    }
                }
            }
        }
    }
    proof {
        if remaining@.len() > 0 {
            assert(out@.len() == top_k);
        }
    }
    out
}

/// Keep, in order, the selected positions whose keys reach the
/// threshold; when the filter is off, keep them all. A search applies
/// the filter only for a positive threshold, so a threshold of zero
/// keeps everything the scan ranked.
pub fn filter_by_threshold(idx: Vec<usize>, keys: &Vec<u64>, threshold_key: u64, apply: bool) -> (r:
    Vec<usize>)
    requires
        forall|i: int| 0 <= i < idx@.len() ==> (#[trigger] idx@[i]) < keys@.len(),
    ensures
        !apply ==> r@ == idx@,
        apply ==> r@ == spec_keep(keys@, idx@, threshold_key),
        forall|i: int| 0 <= i < r@.len() ==> (#[trigger] r@[i]) < keys@.len(),
        apply ==> forall|i: int|
            0 <= i < r@.len() ==> keys@[(#[trigger] r@[i]) as int] >= threshold_key,
    {
    if !apply {
        return idx;
    }
    let mut r: Vec<usize> = Vec::new();
    let mut i: usize = 0;
    while i < idx.len()
        invariant
            i <= idx@.len(),
            forall|t: int| 0 <= t < idx@.len() ==> (#[trigger] idx@[t]) < keys@.len(),
            r@ == spec_keep(keys@, idx@.take(i as int), threshold_key),
            forall|t: int| 0 <= t < r@.len() ==> (#[trigger] r@[t]) < keys@.len(),
            forall|t: int| 0 <= t < r@.len() ==> keys@[(#[trigger] r@[t]) as int] >= threshold_key,
        decreases idx@.len() - i,
    {
        let e = idx[i];
        if keys[e] >= threshold_key {
            r.push(e);
        }
        proof {
            assert(idx@.take(i + 1 as int).drop_last() =~= idx@.take(i as int));
            assert(idx@.take(i + 1 as int).last() == idx@[i as int]);
            assert(r@ =~= spec_keep(keys@, idx@.take(i + 1 as int), threshold_key));
        }
        i = i + 1;
    }
    proof {
        assert(idx@.take(idx@.len() as int) =~= idx@);
    }
    r
}

} // verus!
