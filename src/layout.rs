//! Layout of nodes into frames: the node contract, the memoizing node
//! wrapper and the document-level orchestration.

use vstd::prelude::*;

use crate::cache::{memo_step, FramesEntry, LayoutCache};
use crate::geom::{Frame, Length, Size, Spec};
use crate::regions::{repeat_model, Regions, RegionsModel};

verus! {

/// Layout a node.
pub trait Layout<L> {
    /// Layout the node into the given regions.
    fn layout(&self, ctx: &mut LayoutContext<'_, L>, regions: &Regions) -> Vec<Frame>;
}

/// The context for layouting.
pub struct LayoutContext<'a, L> {
    /// The loader from which fonts are loaded.
    pub loader: &'a mut L,
    /// A cache for artifacts from past layouting.
    pub cache: LayoutCache,
}

/// Relies on fxhash::hash64: a 64-bit digest of what the value's `Hash`
/// impl feeds to the hasher.
#[verifier::external_body]
fn content_hash<T: core::hash::Hash>(node: &T) -> (r: u64) {
    fxhash::hash64(node)
}

/// A wrapper around a layout node that carries the node's content hash.
#[derive(Debug, Clone, PartialEq, Hash)]
pub struct AnyNode<N> {
    node: N,
    hash: u64,
}

impl<N> AnyNode<N> {
    /// The wrapped node.
    pub closed spec fn inner(&self) -> N {
        self.node
    }

    /// The content hash computed when the node was wrapped.
    pub closed spec fn key(&self) -> u64 {
        self.hash
    }
}

impl<N: core::hash::Hash> AnyNode<N> {
    /// Wrap a node, computing its content hash once.
    pub fn new(node: N) -> (r: Self)
        ensures
            r.inner() == node,
    {
        let hash = content_hash(&node);
        AnyNode { node, hash }
    }
}

impl<L, N: Layout<L>> Layout<L> for AnyNode<N> {
    /// Layout the node, answering from the cache where it holds frames of
    /// this node for exactly these regions, and storing fresh results.
    fn layout(&self, ctx: &mut LayoutContext<'_, L>, regions: &Regions) -> (r: Vec<Frame>)
        ensures
            memo_step(old(ctx).cache.frames@, self.key(), regions@, r@, final(ctx).cache.frames@),
    {
        if let Some(hit) = ctx.cache.get(self.hash, regions) {
            return hit;
        }
        let frames = self.node.layout(ctx, regions);
        ctx.cache.insert(self.hash, regions, &frames);
        frames
    }
}

/// The regions of a page run: its page size repeated endlessly, with an axis
/// fixed exactly where its length is bounded.
pub open spec fn page_regions(size: Size) -> RegionsModel {
    repeat_model(size, Spec { x: size.width is Finite, y: size.height is Finite })
}

/// The frames of several results, in order.
pub open spec fn concat_frames(parts: Seq<Seq<Frame>>) -> Seq<Frame>
    decreases parts.len(),
{
    if parts.len() == 0 {
        Seq::empty()
    } else {
        concat_frames(parts.drop_last()) + parts.last()
    }
}

/// The runs were laid out one after another, in order: run `i` took the
/// cache from `caches[i]` to `caches[i + 1]` and produced `parts[i]`.
pub open spec fn runs_trace<N>(
    runs: Seq<PageRun<N>>,
    caches: Seq<Map<u64, FramesEntry>>,
    parts: Seq<Seq<Frame>>,
) -> bool {
    &&& caches.len() == runs.len() + 1
    &&& parts.len() == runs.len()
    &&& forall|i: int|
        0 <= i < runs.len() ==> memo_step(
            #[trigger] caches[i],
            runs[i].child.key(),
            page_regions(runs[i].size),
            parts[i],
            caches[i + 1],
        )
}

/// Laying out `runs` in order took the cache from `before` to `after` and
/// produced `result`, the concatenation of the runs' frames in run order.
pub open spec fn runs_laid_out<N>(
    runs: Seq<PageRun<N>>,
    before: Map<u64, FramesEntry>,
    after: Map<u64, FramesEntry>,
    result: Seq<Frame>,
) -> bool {
    exists|caches: Seq<Map<u64, FramesEntry>>, parts: Seq<Seq<Frame>>|
        #![trigger runs_trace(runs, caches, parts)]
        runs_trace(runs, caches, parts) && caches[0] == before && caches.last() == after
            && result == concat_frames(parts)
}

/// Layout a tree into a collection of frames.
pub fn layout<L, N: Layout<L>>(loader: &mut L, cache: &mut LayoutCache, tree: &Tree<N>) -> (r: Vec<
    Frame,
>)
    ensures
        runs_laid_out(tree.runs@, old(cache).frames@, final(cache).frames@, r@),
{
    let mut owned = LayoutCache::new();
    core::mem::swap(cache, &mut owned);
    let mut ctx = LayoutContext { loader, cache: owned };
    let frames = tree.layout(&mut ctx);
    core::mem::swap(cache, &mut ctx.cache);
    frames
}

/// A tree of layout nodes.
#[derive(Debug, Clone, PartialEq)]
pub struct Tree<N> {
    /// Runs of pages with the same properties.
    pub runs: Vec<PageRun<N>>,
}

impl<N> Tree<N> {
    /// Layout the tree into a collection of frames.
    pub fn layout<L>(&self, ctx: &mut LayoutContext<'_, L>) -> (r: Vec<Frame>) where N: Layout<L>
        ensures
            runs_laid_out(self.runs@, old(ctx).cache.frames@, final(ctx).cache.frames@, r@),
    {
        let mut frames: Vec<Frame> = Vec::new();
        let ghost mut caches: Seq<Map<u64, FramesEntry>> = seq![ctx.cache.frames@];
        let ghost mut parts: Seq<Seq<Frame>> = Seq::empty();
        let mut i: usize = 0;
        while i < self.runs.len()
            invariant
                i <= self.runs@.len(),
                runs_trace(self.runs@.take(i as int), caches, parts),
                caches[0] == old(ctx).cache.frames@,
                caches.last() == ctx.cache.frames@,
                frames@ == concat_frames(parts),
            decreases self.runs@.len() - i,
        {
            let mut run_frames = self.runs[i].layout(ctx);
            proof {
                assert(parts.push(run_frames@).drop_last() == parts);
                parts = parts.push(run_frames@);
                caches = caches.push(ctx.cache.frames@);
            }
            frames.append(&mut run_frames);
            i = i + 1;
            proof {
                let runs = self.runs@.take(i as int);
                assert forall|j: int| 0 <= j < runs.len() implies memo_step(
                    #[trigger] caches[j],
                    runs[j].child.key(),
                    page_regions(runs[j].size),
                    parts[j],
                    caches[j + 1],
                ) by {
                    assert(runs[j] == self.runs@.take(j + 1)[j]);
                }
            }
        }
        proof {
            assert(self.runs@.take(i as int) == self.runs@);
            assert(runs_trace(self.runs@, caches, parts));
        }
        frames
    }
}

/// A run of pages that all have the same properties.
#[derive(Debug, Clone, PartialEq)]
pub struct PageRun<N> {
    /// The size of each page.
    pub size: Size,
    /// The layout node that produces the actual pages (typically a stacking
    /// node).
    pub child: AnyNode<N>,
}

impl<N> PageRun<N> {
    /// Layout the page run.
    pub fn layout<L>(&self, ctx: &mut LayoutContext<'_, L>) -> (r: Vec<Frame>) where N: Layout<L>
        ensures
            memo_step(
                old(ctx).cache.frames@,
                self.child.key(),
                page_regions(self.size),
                r@,
                final(ctx).cache.frames@,
            ),
    {
        // When one of the lengths is unbounded the page fits its content
        // along that axis.
        let fixed = Spec::new(self.size.width.is_finite(), self.size.height.is_finite());
        let regions = Regions::repeat(self.size, fixed);
        self.child.layout(ctx, &regions)
    }
}

} // verus!
