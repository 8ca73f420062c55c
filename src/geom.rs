//! Geometry values: lengths that may be unbounded, sizes, per-axis pairs and
//! frames.

use vstd::prelude::*;

verus! {

/// A length along one axis, in abstract integer units, or unbounded.
#[derive(Debug, Clone, Copy, PartialEq, Eq, Structural)]
pub enum Length {
    Finite(u64),
    Infinite,
}

impl Length {
    /// Whether the length is bounded.
    pub fn is_finite(&self) -> (r: bool)
        ensures
            r == self is Finite,
    {
        match self {
            Length::Finite(_) => true,
            Length::Infinite => false,
        }
    }
}

/// A pair of values, one per axis.
#[derive(Debug, Clone, Copy, PartialEq, Eq, Structural)]
pub struct Spec<T> {
    pub x: T,
    pub y: T,
}

impl<T> Spec<T> {
    /// Create a pair from its horizontal and vertical value.
    pub fn new(x: T, y: T) -> (r: Self)
        ensures
            r.x == x,
            r.y == y,
    {
        Spec { x, y }
    }
}

/// A two-dimensional extent.
#[derive(Debug, Clone, Copy, PartialEq, Eq, Structural)]
pub struct Size {
    pub width: Length,
    pub height: Length,
}

impl Size {
    /// Create a size from its width and height.
    pub fn new(width: Length, height: Length) -> (r: Self)
        ensures
            r.width == width,
            r.height == height,
    {
        Size { width, height }
    }
}

} // verus!

verus! {

/// A positive width-to-height ratio `num / den`.
#[derive(Debug, Clone, Copy, PartialEq, Eq, Structural)]
pub struct Ratio {
    pub num: u64,
    pub den: u64,
}

impl Ratio {
    /// Both terms are positive.
    pub open spec fn wf(&self) -> bool {
        self.num > 0 && self.den > 0
    }
}

/// `v * num / den`, rounded down; beyond the range of `u64` the length is
/// unbounded.
pub open spec fn scaled(l: Length, num: u64, den: u64) -> Length {
    match l {
        Length::Finite(v) => {
            let q = (v as int * num as int) / den as int;
            if q <= u64::MAX { Length::Finite(q as u64) } else { Length::Infinite }
        },
        Length::Infinite => Length::Infinite,
    }
}

/// The smaller of two lengths; an unbounded length is larger than any other.
pub open spec fn min_length(a: Length, b: Length) -> Length {
    match (a, b) {
        (Length::Finite(x), Length::Finite(y)) => if x <= y { a } else { b },
        (Length::Finite(_), Length::Infinite) => a,
        (Length::Infinite, _) => b,
    }
}

impl Length {
    /// Multiply by `num / den`, rounding down.
    pub fn scale(self, num: u64, den: u64) -> (r: Length)
        requires
            den > 0,
        ensures
            r == scaled(self, num, den),
    {
        match self {
            Length::Finite(v) => {
                proof {
                    vstd::arithmetic::mul::lemma_mul_upper_bound(v as int, u64::MAX as int, num as int, u64::MAX as int);
                }
                let p: u128 = v as u128 * num as u128;
                let q: u128 = p / den as u128;
                if q <= u64::MAX as u128 {
                    Length::Finite(q as u64)
                } else {
                    Length::Infinite
                }
            },
            Length::Infinite => Length::Infinite,
        }
    }

    /// The smaller of two lengths.
    pub fn min(self, other: Length) -> (r: Length)
        ensures
            r == min_length(self, other),
    {
        match (self, other) {
            (Length::Finite(x), Length::Finite(y)) => if x <= y { self } else { other },
            (Length::Finite(_), Length::Infinite) => self,
            (Length::Infinite, _) => other,
        }
    }
}

/// The visual output of laying out content into one region.
#[derive(Debug, Clone, Copy, PartialEq, Eq, Structural)]
pub struct Frame {
    pub size: Size,
}

impl Frame {
    /// Create an empty frame of the given size.
    pub fn new(size: Size) -> (r: Self)
        ensures
            r.size == size,
    {
        Frame { size }
    }
}

} // verus!
