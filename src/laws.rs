//! Laws that relate several operations of the region model, the cache and
//! the orchestration.

use vstd::prelude::*;

use crate::cache::{lookup, memo_step, stored, FramesEntry};
use crate::geom::{Frame, Size, Spec};
use crate::layout::concat_frames;
use crate::regions::{
    advanced, advanced_by, in_full_last_model, one_model, repeat_model, RegionsModel,
};

verus! {

/// Once the backlog is empty and no last region repeats, advancing leaves
/// the sequence as it is, however often it is done.
pub proof fn lemma_advance_idempotent_when_exhausted(m: RegionsModel, n: nat)
    requires
        m.backlog.len() == 0,
        m.last is None,
    ensures
        advanced(m) == m,
        advanced_by(m, n) == m,
    decreases n,
{
    if n > 0 {
        lemma_advance_idempotent_when_exhausted(m, (n - 1) as nat);
    }
}

/// A repeating sequence is at an untouched copy of its last region before
/// and after any number of advances; it stops being so when `current` is
/// changed to another size (`touched`) without advancing.
pub proof fn lemma_repeat_stays_in_full_last(size: Size, fixed: Spec<bool>, n: nat, touched: Size)
    ensures
        advanced_by(repeat_model(size, fixed), n) == repeat_model(size, fixed),
        in_full_last_model(advanced_by(repeat_model(size, fixed), n)),
        touched != size ==> !in_full_last_model(
            (RegionsModel { current: touched, ..advanced_by(repeat_model(size, fixed), n) }),
        ),
    decreases n,
{
    if n > 0 {
        lemma_repeat_stays_in_full_last(size, fixed, (n - 1) as nat, touched);
    }
}

/// A single region has no backlog and no repeated last region, and
/// advancing it changes nothing.
pub proof fn lemma_one_cannot_advance(size: Size, fixed: Spec<bool>)
    ensures
        one_model(size, fixed).backlog.len() == 0,
        one_model(size, fixed).last is None,
        advanced(one_model(size, fixed)) == one_model(size, fixed),
        in_full_last_model(one_model(size, fixed)),
{
}

/// Laying out a node a second time in equal regions is answered from the
/// cache: it returns the frames of the first layout and leaves the cache
/// untouched, so the node's own algorithm does not run again.
pub proof fn lemma_relayout_hits_cache(
    c0: Map<u64, FramesEntry>,
    hash: u64,
    regions: RegionsModel,
    first: Seq<Frame>,
    c1: Map<u64, FramesEntry>,
    second: Seq<Frame>,
    c2: Map<u64, FramesEntry>,
)
    requires
        memo_step(c0, hash, regions, first, c1),
        memo_step(c1, hash, regions, second, c2),
    ensures
        lookup(c1, hash, regions) == Some(first),
        second == first,
        c2 == c1,
{
}

/// Storing the frames of one node never answers a lookup for a node with
/// another content hash, even in equal regions.
pub proof fn lemma_distinct_hashes_do_not_share(
    before: Map<u64, FramesEntry>,
    after: Map<u64, FramesEntry>,
    hash: u64,
    other: u64,
    regions: RegionsModel,
    frames: Seq<Frame>,
)
    requires
        hash != other,
        stored(before, after, hash, regions, frames),
    ensures
        lookup(after, other, regions) == lookup(before, other, regions),
        lookup(after, hash, regions) == Some(frames),
{
    assert(after.contains_key(other) <==> before.contains_key(other));
}

/// Where run `i` starts in the concatenated output.
pub open spec fn run_start(parts: Seq<Seq<Frame>>, i: int) -> int {
    concat_frames(parts.take(i)).len() as int
}

proof fn lemma_concat_prefix(parts: Seq<Seq<Frame>>, k: int)
    requires
        0 <= k <= parts.len(),
    ensures
        concat_frames(parts.take(k)).len() <= concat_frames(parts).len(),
        concat_frames(parts).take(concat_frames(parts.take(k)).len() as int) == concat_frames(
            parts.take(k),
        ),
    decreases parts.len(),
{
    if k == parts.len() {
        assert(parts.take(k) == parts);
    } else {
        lemma_concat_prefix(parts.drop_last(), k);
        assert(parts.drop_last().take(k) == parts.take(k));
        let a = concat_frames(parts.drop_last());
        let p = concat_frames(parts.take(k));
        assert((a + parts.last()).take(p.len() as int) == a.take(p.len() as int));
    }
}

/// In the concatenated output the frames of run `i` stand together, in
/// their own order, right before those of run `i + 1`.
pub proof fn lemma_runs_in_order(parts: Seq<Seq<Frame>>, i: int)
    requires
        0 <= i < parts.len(),
    ensures
        run_start(parts, i) + parts[i].len() == run_start(parts, i + 1),
        run_start(parts, i + 1) <= concat_frames(parts).len(),
        concat_frames(parts).subrange(run_start(parts, i), run_start(parts, i + 1)) == parts[i],
{
    let t = parts.take(i + 1);
    assert(t.drop_last() == parts.take(i));
    assert(t.last() == parts[i]);
    lemma_concat_prefix(parts, i + 1);
    let all = concat_frames(parts);
    let pre = concat_frames(parts.take(i));
    assert(concat_frames(t) == pre + parts[i]);
    assert(all.subrange(run_start(parts, i), run_start(parts, i + 1)) == all.take(
        run_start(parts, i + 1),
    ).subrange(run_start(parts, i), run_start(parts, i + 1)));
    assert((pre + parts[i]).subrange(pre.len() as int, (pre.len() + parts[i].len()) as int) == parts[i]);
}

} // verus!
