//! Sequences of regions that content is laid out into.

use vstd::prelude::*;

use crate::geom::{min_length, scaled, Length, Ratio, Size, Spec};

verus! {

/// A sequence of regions to lay out into.
#[derive(Debug, Clone)]
pub struct Regions {
    /// The remaining size of the current region.
    pub current: Size,
    /// The base size for relative sizing.
    pub base: Size,
    /// A stack of followup regions.
    ///
    /// This is a stack and not a queue: the size of the next region is the
    /// last element.
    pub backlog: Vec<Size>,
    /// The final region that is repeated once the backlog is drained.
    pub last: Option<Size>,
    /// Whether layouting into these regions should produce frames of the exact
    /// size of `current` instead of shrinking to fit the content.
    ///
    /// Only nodes that can control their own size take this into account.
    pub fixed: Spec<bool>,
}

/// The mathematical value of a region sequence.
pub struct RegionsModel {
    pub current: Size,
    pub base: Size,
    pub backlog: Seq<Size>,
    pub last: Option<Size>,
    pub fixed: Spec<bool>,
}

impl View for Regions {
    type V = RegionsModel;

    open spec fn view(&self) -> RegionsModel {
        RegionsModel {
            current: self.current,
            base: self.base,
            backlog: self.backlog@,
            last: self.last,
            fixed: self.fixed,
        }
    }
}

/// A sequence with exactly one region of the given size.
pub open spec fn one_model(size: Size, fixed: Spec<bool>) -> RegionsModel {
    RegionsModel { current: size, base: size, backlog: Seq::empty(), last: None, fixed }
}

/// An endless sequence of regions of the given size.
pub open spec fn repeat_model(size: Size, fixed: Spec<bool>) -> RegionsModel {
    RegionsModel { current: size, base: size, backlog: Seq::empty(), last: Some(size), fixed }
}

/// The sequence after advancing to the next region: the top of the backlog,
/// else the repeated last region, else no change.
pub open spec fn advanced(m: RegionsModel) -> RegionsModel {
    if m.backlog.len() > 0 {
        let size = m.backlog.last();
        RegionsModel { current: size, base: size, backlog: m.backlog.drop_last(), ..m }
    } else {
        match m.last {
            Some(size) => RegionsModel { current: size, base: size, ..m },
            None => m,
        }
    }
}

/// The sequence after advancing `n` times.
pub open spec fn advanced_by(m: RegionsModel, n: nat) -> RegionsModel
    decreases n,
{
    if n == 0 {
        m
    } else {
        advanced(advanced_by(m, (n - 1) as nat))
    }
}

/// Whether `current` is an untouched copy of the last region, so that
/// advancing changes nothing.
pub open spec fn in_full_last_model(m: RegionsModel) -> bool {
    m.backlog.len() == 0 && match m.last {
        Some(size) => m.current == size,
        None => true,
    }
}

/// `current` shrunk to the largest size of the given aspect ratio that fits.
pub open spec fn aspect_fitted(current: Size, aspect: Ratio) -> Size {
    let width = min_length(current.width, scaled(current.height, aspect.num, aspect.den));
    Size { width, height: scaled(width, aspect.den, aspect.num) }
}

impl PartialEq for Regions {
    fn eq(&self, other: &Regions) -> (r: bool) {
        if self.current != other.current || self.base != other.base || self.last != other.last
            || self.fixed != other.fixed || self.backlog.len() != other.backlog.len() {
            return false;
        }
        let mut i: usize = 0;
        while i < self.backlog.len()
            invariant
                self.backlog@.len() == other.backlog@.len(),
                i <= self.backlog@.len(),
                forall|j: int| 0 <= j < i ==> self.backlog@[j] == other.backlog@[j],
            decreases self.backlog@.len() - i,
        {
            if self.backlog[i] != other.backlog[i] {
                return false;
            }
            i = i + 1;
        }
        proof {
            assert(self.backlog@ =~= other.backlog@);
        }
        true
    }
}

impl vstd::std_specs::cmp::PartialEqSpecImpl for Regions {
    open spec fn obeys_eq_spec() -> bool {
        true
    }

    open spec fn eq_spec(&self, other: &Regions) -> bool {
        self@ == other@
    }
}

impl Regions {
    /// Create a new region sequence with exactly one region.
    pub fn one(size: Size, fixed: Spec<bool>) -> (r: Self)
        ensures
            r@ == one_model(size, fixed),
    {
        Regions { current: size, base: size, backlog: Vec::new(), last: None, fixed }
    }

    /// Create a new sequence of same-size regions that repeats indefinitely.
    pub fn repeat(size: Size, fixed: Spec<bool>) -> (r: Self)
        ensures
            r@ == repeat_model(size, fixed),
    {
        Regions { current: size, base: size, backlog: Vec::new(), last: Some(size), fixed }
    }

    /// An exact copy of the sequence.
    pub fn copied(&self) -> (r: Self)
        ensures
            r@ == self@,
    {
        Regions {
            current: self.current,
            base: self.base,
            backlog: self.backlog.clone(),
            last: self.last,
            fixed: self.fixed,
        }
    }

    /// Map the size of all regions.
    pub fn map<F: Fn(Size) -> Size>(&self, f: F) -> (r: Self)
        requires
            forall|s: Size| f.requires((s,)),
        ensures
            f.ensures((self.current,), r.current),
            f.ensures((self.base,), r.base),
            r.backlog@.len() == self.backlog@.len(),
            forall|i: int|
                0 <= i < self.backlog@.len() ==> f.ensures(
                    (self.backlog@[i],),
                    #[trigger] r.backlog@[i],
                ),
            self.last is None <==> r.last is None,
            self.last is Some ==> f.ensures((self.last->Some_0,), r.last->Some_0),
            r.fixed == self.fixed,
    {
        let current = f(self.current);
        let base = f(self.base);
        let mut backlog: Vec<Size> = Vec::new();
        let mut i: usize = 0;
        while i < self.backlog.len()
            invariant
                forall|s: Size| f.requires((s,)),
                i <= self.backlog@.len(),
                backlog@.len() == i,
                forall|j: int|
                    0 <= j < i ==> f.ensures((self.backlog@[j],), #[trigger] backlog@[j]),
            decreases self.backlog@.len() - i,
        {
            let s = f(self.backlog[i]);
            backlog.push(s);
            i = i + 1;
        }
        let last = match self.last {
            Some(size) => Some(f(size)),
            None => None,
        };
        Regions { current, base, backlog, last, fixed: self.fixed }
    }

    /// Whether `current` is a fully sized (untouched) copy of the last region.
    ///
    /// If this is true, calling `next()` will have no effect.
    pub fn in_full_last(&self) -> (r: bool)
        ensures
            r == in_full_last_model(self@),
    {
        self.backlog.len() == 0 && match self.last {
            Some(size) => self.current == size,
            None => true,
        }
    }

    /// Advance to the next region if there is any.
    pub fn next(&mut self)
        ensures
            final(self)@ == advanced(old(self)@),
    {
        let size = match self.backlog.pop() {
            Some(size) => Some(size),
            None => self.last,
        };
        if let Some(size) = size {
            self.current = size;
            self.base = size;
        }
    }

    /// Shrink `current` to ensure that the aspect ratio can be satisfied.
    pub fn apply_aspect_ratio(&mut self, aspect: Ratio)
        requires
            aspect.wf(),
        ensures
            final(self)@ == (RegionsModel { current: aspect_fitted(old(self).current, aspect), ..old(self)@ }),
    {
        let width = self.current.width.min(self.current.height.scale(aspect.num, aspect.den));
        let height = width.scale(aspect.den, aspect.num);
        self.current = Size::new(width, height);
    }
}

} // verus!
