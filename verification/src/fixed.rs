//! Fixed-point quantities. A length, a position or a factor is a signed
//! 64-bit count of millionths, and sums that leave that range stop at its
//! ends.

use vstd::prelude::*;

verus! {

/// The number one, in millionths.
pub const UNIT: i64 = 1_000_000;

/// The value a signed 64-bit number takes for `x` when sums saturate: `x`
/// itself, or the end of the range that `x` lies beyond.
pub open spec fn clip(x: int) -> int {
    if x < i64::MIN {
        i64::MIN as int
    } else if x > i64::MAX {
        i64::MAX as int
    } else {
        x
    }
}

/// Brings a wide intermediate result back into 64 bits.
pub fn saturate(x: i128) -> (r: i64)
    ensures
        r == clip(x as int),
{
    if x < i64::MIN as i128 {
        i64::MIN
    } else if x > i64::MAX as i128 {
        i64::MAX
    } else {
        x as i64
    }
}

/// A point or a displacement on the screen, or the extent of a rectangle.
#[derive(Clone, Copy, Debug, PartialEq, Eq, Structural)]
pub struct Vec2 {
    pub x: i64,
    pub y: i64,
}

impl Vec2 {
    /// Whether both components are zero.
    pub open spec fn is_zero(self) -> bool {
        self.x == 0 && self.y == 0
    }

    /// The component-wise saturating sum.
    pub open spec fn plus(self, other: Vec2) -> Vec2 {
        Vec2 { x: clip(self.x + other.x) as i64, y: clip(self.y + other.y) as i64 }
    }

    pub fn new(x: i64, y: i64) -> (r: Vec2)
        ensures
            r.x == x,
            r.y == y,
    {
        Vec2 { x, y }
    }

    pub fn zero() -> (r: Vec2)
        ensures
            r.is_zero(),
    {
        Vec2 { x: 0, y: 0 }
    }

    /// This vector moved by `other`, each component saturating.
    pub fn translated(self, other: Vec2) -> (r: Vec2)
        ensures
            r == self.plus(other),
    {
        Vec2 {
            x: saturate(self.x as i128 + other.x as i128),
            y: saturate(self.y as i128 + other.y as i128),
        }
    }
}

/// An axis-aligned rectangle, given by its top-left corner and its extent.
#[derive(Clone, Copy, Debug, PartialEq, Eq, Structural)]
pub struct Rect {
    pub min: Vec2,
    pub size: Vec2,
}

} // verus!
