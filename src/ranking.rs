use crate::error::PipelineError;
use vstd::multiset::Multiset;
use vstd::prelude::*;

verus! {

broadcast use vstd::seq_lib::group_to_multiset_ensures;

/// One candidate frame: the sequence it comes from, its index there, and
/// its sharpness as an order key (a larger key is a sharper frame).
///
/// The key is an order-preserving image of the estimator's score; records
/// compare by `quality` alone.
pub struct FrameRecord {
    pub source_file: String,
    pub frame_id: usize,
    pub quality: u32,
}

/// Qualities never increase along `s`.
pub open spec fn sorted_desc(s: Seq<FrameRecord>) -> bool {
    forall|i: int, j: int| 0 <= i < j < s.len() ==> s[i].quality >= s[j].quality
}

/// `ranked` holds exactly the records of `records`, best first.
pub open spec fn is_ranking_of(ranked: Seq<FrameRecord>, records: Seq<FrameRecord>) -> bool {
    &&& ranked.to_multiset() == records.to_multiset()
    &&& sorted_desc(ranked)
}

/// How many of `n` ranked frames the top `pct` percent keeps:
/// `pct / 100 * n` rounded to the nearest integer, halves upward.
pub open spec fn selected_count(pct: int, n: int) -> int {
    (pct * n + 50) / 100
}

/// Orders the records by quality, best first. The contract leaves the
/// relative order of records of equal quality open.
pub fn rank_frame_records(records: Vec<FrameRecord>) -> (r: Vec<FrameRecord>)
    ensures
        is_ranking_of(r@, records@),
{
    let mut remaining = records;
    let mut ranked: Vec<FrameRecord> = Vec::new();
    while remaining.len() > 0
        invariant
            ranked@.to_multiset().add(remaining@.to_multiset()) == records@.to_multiset(),
            sorted_desc(ranked@),
            forall|i: int, j: int|
                0 <= i < ranked@.len() && 0 <= j < remaining@.len() ==> ranked@[i].quality
                    >= remaining@[j].quality,
        decreases remaining.len(),
    {
        let mut best: usize = 0;
        let mut k: usize = 1;
        while k < remaining.len()
            invariant
                0 <= best < k <= remaining.len(),
                forall|j: int| 0 <= j < k ==> remaining@[best as int].quality >= remaining@[j].quality,
            decreases remaining.len() - k,
        {
            if remaining[k].quality >= remaining[best].quality {
                best = k;
            }
            k = k + 1;
        }
        let ghost before = remaining@;
        let ghost ranked_before = ranked@;
        let x = remaining.remove(best);
        assert(forall|j: int|
            0 <= j < remaining@.len() ==> #[trigger] remaining@[j] == before[if j < best {
                j
            } else {
                j + 1
            }]);
        ranked.push(x);
        proof {
            before.to_multiset_ensures();
            ranked_before.to_multiset_ensures();
            assert(before[best as int] == x);
            assert(before.contains(x));
            assert(before.to_multiset().contains(x));
            assert(remaining@.to_multiset() == before.to_multiset().remove(x));
            assert(ranked@.to_multiset() == ranked_before.to_multiset().insert(x));
            assert(ranked@.to_multiset().add(remaining@.to_multiset()) =~= ranked_before.to_multiset().add(
                before.to_multiset(),
            ));
        }
    }
    assert(remaining@.to_multiset() =~= Multiset::empty());
    assert(ranked@.to_multiset() =~= records@.to_multiset());
    ranked
}

/// Keeps the first `selected_count(pct, len)` records of a ranked list;
/// a percentage above 100 is a configuration error.
pub fn select_top(records: Vec<FrameRecord>, pct: u8) -> (r: Result<Vec<FrameRecord>, PipelineError>)
    ensures
        pct > 100 ==> r == Err::<Vec<FrameRecord>, PipelineError>(PipelineError::Configuration),
        pct <= 100 ==> r is Ok && r->Ok_0@ == records@.take(selected_count(pct as int, records@.len() as int)),
{
    if pct > 100 {
        return Err(PipelineError::Configuration);
    }
    let n = records.len();
    proof {
        assert((pct as int) * (n as int) <= 100 * 0xffff_ffff_ffff_ffff) by (nonlinear_arith)
            requires pct <= 100, n <= 0xffff_ffff_ffff_ffff;
        assert((pct as int) * (n as int) <= 100 * (n as int)) by (nonlinear_arith)
            requires pct <= 100, n >= 0;
        assert((pct as int) * (n as int) + 50 < 100 * (n as int) + 100) by (nonlinear_arith)
            requires pct <= 100, n >= 0;
        assert(((pct as int) * (n as int) + 50) / 100 <= n) by (nonlinear_arith)
            requires (pct as int) * (n as int) + 50 < 100 * (n as int) + 100, n >= 0;
    }
    let count_wide: u128 = ((pct as u128) * (n as u128) + 50) / 100;
    let count = count_wide as usize;
    let mut kept = records;
    kept.truncate(count);
    Ok(kept)
}

/// Selecting from a ranked list keeps a best-first prefix of exactly the
/// rounded share of frames.
pub proof fn lemma_selection_is_ranked_prefix(ranked: Seq<FrameRecord>, pct: int)
    requires
        sorted_desc(ranked),
        0 <= pct <= 100,
    ensures
        0 <= selected_count(pct, ranked.len() as int) <= ranked.len(),
        ranked.take(selected_count(pct, ranked.len() as int)).len() == selected_count(
            pct,
            ranked.len() as int,
        ),
        sorted_desc(ranked.take(selected_count(pct, ranked.len() as int))),
{
    let n = ranked.len() as int;
    assert(pct * n <= 100 * n) by (nonlinear_arith)
        requires pct <= 100, n >= 0;
    assert(0 <= pct * n) by (nonlinear_arith)
        requires pct >= 0, n >= 0;
}

} // verus!
