//! Memoized layout results, keyed by a node's content hash.

use std::collections::HashMap;

use vstd::prelude::*;

use crate::geom::Frame;
use crate::regions::{Regions, RegionsModel};

verus! {

broadcast use vstd::std_specs::hash::group_hash_axioms;

/// Cached frames from past layouting.
pub struct FramesEntry {
    /// The regions in which these frames are valid.
    pub regions: Regions,
    /// The cached frames for a node.
    pub frames: Vec<Frame>,
}

/// Caches layouting artifacts.
pub struct LayoutCache {
    /// Maps from node hashes to the resulting frames and regions in which the
    /// frames are valid.
    pub frames: HashMap<u64, FramesEntry>,
}

/// The frames stored under `hash`, where they were made for exactly the
/// regions `regions`.
pub open spec fn lookup(cache: Map<u64, FramesEntry>, hash: u64, regions: RegionsModel) -> Option<
    Seq<Frame>,
> {
    if cache.contains_key(hash) && cache[hash].regions@ == regions {
        Some(cache[hash].frames@)
    } else {
        None
    }
}

/// One memoized layout of the node with content hash `hash` into `regions`,
/// which returned `result` and took the cache from `before` to `after`: a
/// hit hands back the stored frames and leaves the cache alone; a miss
/// stores the fresh result under `hash`, together with the regions.
pub open spec fn memo_step(
    before: Map<u64, FramesEntry>,
    hash: u64,
    regions: RegionsModel,
    result: Seq<Frame>,
    after: Map<u64, FramesEntry>,
) -> bool {
    match lookup(before, hash, regions) {
        Some(frames) => result == frames && after == before,
        None => after.contains_key(hash) && after[hash].regions@ == regions
            && after[hash].frames@ == result,
    }
}

/// `after` is `before` with `frames`, made for `regions`, stored under
/// `hash` and every other entry kept.
pub open spec fn stored(
    before: Map<u64, FramesEntry>,
    after: Map<u64, FramesEntry>,
    hash: u64,
    regions: RegionsModel,
    frames: Seq<Frame>,
) -> bool {
    &&& after.dom() == before.dom().insert(hash)
    &&& forall|h: u64| h != hash && before.contains_key(h) ==> #[trigger] after[h] == before[h]
    &&& after[hash].regions@ == regions
    &&& after[hash].frames@ == frames
}

impl LayoutCache {
    /// Create a new, empty layout cache.
    pub fn new() -> (r: Self)
        ensures
            r.frames@ == Map::<u64, FramesEntry>::empty(),
    {
        LayoutCache { frames: HashMap::new() }
    }

    /// Clear the cache.
    pub fn clear(&mut self)
        ensures
            final(self).frames@ == Map::<u64, FramesEntry>::empty(),
    {
        self.frames.clear();
    }

    /// The frames stored under `hash` for exactly the regions `regions`.
    pub fn get(&self, hash: u64, regions: &Regions) -> (r: Option<Vec<Frame>>)
        ensures
            match r {
                Some(frames) => lookup(self.frames@, hash, regions@) == Some(frames@),
                None => lookup(self.frames@, hash, regions@) is None,
            },
    {
        match self.frames.get(&hash) {
            Some(hit) => {
                if hit.regions == *regions {
                    Some(hit.frames.clone())
                } else {
                    None
                }
            },
            None => None,
        }
    }

    /// Store `frames` as the layout for `regions` under `hash`, replacing any
    /// earlier entry.
    pub fn insert(&mut self, hash: u64, regions: &Regions, frames: &Vec<Frame>)
        ensures
            stored(old(self).frames@, final(self).frames@, hash, regions@, frames@),
    {
        let entry = FramesEntry { regions: regions.copied(), frames: frames.clone() };
        self.frames.insert(hash, entry);
    }
}

} // verus!
