//! Points, sizes and axis-aligned boxes on an integer grid.
//!
//! One unit is whatever the host chooses (a logical pixel, or a fraction of
//! one); the toolkit only compares, offsets and clamps coordinates.

use vstd::prelude::*;

verus! {

/// A position on the grid.
#[derive(Debug, Clone, Copy, PartialEq, Eq, Hash, Structural)]
pub struct Point2D {
    pub x: i32,
    pub y: i32,
}

/// A width and a height.
#[derive(Debug, Clone, Copy, PartialEq, Eq, Hash, Structural)]
pub struct Size2D {
    pub width: i32,
    pub height: i32,
}

/// The ratio of physical to logical pixels, in thousandths: 1000 is a plain
/// display, 2000 one with twice the density.
#[derive(Debug, Clone, Copy, PartialEq, Eq, Hash, Structural)]
pub struct ScaleFactor {
    pub per_mille: u32,
}

/// An axis-aligned box from its near corner `min` to its far corner `max`.
#[derive(Debug, Clone, Copy, PartialEq, Eq, Hash, Structural)]
pub struct Box2D {
    pub min: Point2D,
    pub max: Point2D,
}

/// The larger of two integers.
pub open spec fn spec_max(a: int, b: int) -> int {
    if a >= b { a } else { b }
}

/// The smaller of two integers.
pub open spec fn spec_min(a: int, b: int) -> int {
    if a <= b { a } else { b }
}

/// `v` moved by `origin` and then capped at `far`; a sum below the smallest
/// coordinate is held at the smallest coordinate.
pub open spec fn offset_capped(v: int, origin: int, far: int) -> int {
    spec_max(spec_min(v + origin, far), i32::MIN as int)
}

/// One coordinate of a tessellated vertex placed into a region: negative
/// values are first raised to zero, then the value is moved by the region's
/// near edge and capped at its far edge.
pub open spec fn placed(v: int, origin: int, far: int) -> int {
    spec_min(spec_max(v, 0) + origin, far)
}

/// Moves `v` by `origin` and caps the sum at `far`.
pub fn offset_coordinate(v: i32, origin: i32, far: i32) -> (r: i32)
    ensures
        r == offset_capped(v as int, origin as int, far as int),
{
    let sum: i64 = v as i64 + origin as i64;
    if sum >= far as i64 {
        far
    } else if sum < i32::MIN as i64 {
        i32::MIN
    } else {
        sum as i32
    }
}

/// Places one tessellated coordinate into the span from `origin` to `far`.
pub fn place_coordinate(v: i32, origin: i32, far: i32) -> (r: i32)
    ensures
        r == placed(v as int, origin as int, far as int),
        origin <= far ==> origin <= r <= far,
{
    let raised: i64 = if v < 0 { 0 } else { v as i64 };
    let sum: i64 = raised + origin as i64;
    if sum >= far as i64 {
        far
    } else {
        sum as i32
    }
}

impl Point2D {
    /// The point with the given coordinates.
    pub fn new(x: i32, y: i32) -> (p: Point2D)
        ensures
            p == (Point2D { x, y }),
    {
        Point2D { x, y }
    }

    /// This point moved by `bounds.min` and capped at `bounds.max`, per coordinate.
    pub open spec fn spec_into_region(self, bounds: Box2D) -> Point2D {
        Point2D {
            x: offset_capped(self.x as int, bounds.min.x as int, bounds.max.x as int) as i32,
            y: offset_capped(self.y as int, bounds.min.y as int, bounds.max.y as int) as i32,
        }
    }

    /// Maps a position into the coordinate space of `bounds`: moved by the
    /// near corner, capped at the far corner.
    pub fn into_region(self, bounds: Box2D) -> (p: Point2D)
        ensures
            p == self.spec_into_region(bounds),
    {
        Point2D {
            x: offset_coordinate(self.x, bounds.min.x, bounds.max.x),
            y: offset_coordinate(self.y, bounds.min.y, bounds.max.y),
        }
    }
}

impl ScaleFactor {
    /// A logical extent in physical pixels: multiplied by the factor and
    /// rounded to the nearest pixel, halves upwards; nothing for an extent
    /// that is not positive, and at most the largest 32-bit number.
    pub open spec fn spec_to_physical(self, logical: i32) -> u32 {
        if logical <= 0 {
            0
        } else if (logical * self.per_mille + 500) / 1000 > u32::MAX {
            u32::MAX
        } else {
            ((logical * self.per_mille + 500) / 1000) as u32
        }
    }

    /// Converts a logical extent to physical pixels.
    pub fn to_physical(self, logical: i32) -> (physical: u32)
        ensures
            physical == self.spec_to_physical(logical),
    {
        if logical <= 0 {
            return 0;
        }
        assert(logical * self.per_mille + 500 <= 0x7fff_ffff * 0xffff_ffff + 500) by (nonlinear_arith)
            requires
                0 < logical <= 0x7fff_ffff,
                0 <= self.per_mille <= 0xffff_ffff,
        ;
        let scaled: u64 = (logical as u64 * self.per_mille as u64 + 500) / 1000;
        if scaled > u32::MAX as u64 {
            u32::MAX
        } else {
            scaled as u32
        }
    }
}

impl Size2D {
    /// The size with the given extent.
    pub fn new(width: i32, height: i32) -> (s: Size2D)
        ensures
            s == (Size2D { width, height }),
    {
        Size2D { width, height }
    }

    /// The per-component maximum of two sizes.
    pub open spec fn spec_max(self, other: Size2D) -> Size2D {
        Size2D {
            width: if self.width >= other.width { self.width } else { other.width },
            height: if self.height >= other.height { self.height } else { other.height },
        }
    }

    /// The per-component maximum of two sizes.
    pub fn max(self, other: Size2D) -> (s: Size2D)
        ensures
            s == self.spec_max(other),
    {
        Size2D {
            width: if self.width >= other.width { self.width } else { other.width },
            height: if self.height >= other.height { self.height } else { other.height },
        }
    }
}

impl Box2D {
    /// The box between two corners.
    pub fn new(min: Point2D, max: Point2D) -> (b: Box2D)
        ensures
            b == (Box2D { min, max }),
    {
        Box2D { min, max }
    }

    /// The box from the origin to the corner given by `size`.
    pub open spec fn spec_from_size(size: Size2D) -> Box2D {
        Box2D {
            min: Point2D { x: 0, y: 0 },
            max: Point2D { x: size.width, y: size.height },
        }
    }

    /// The box from the origin to the corner given by `size`.
    pub fn from_size(size: Size2D) -> (b: Box2D)
        ensures
            b == Box2D::spec_from_size(size),
    {
        Box2D { min: Point2D { x: 0, y: 0 }, max: Point2D { x: size.width, y: size.height } }
    }

    /// Whether `p` lies in the box; the near edges belong to it, the far edges do not.
    pub open spec fn spec_contains(self, p: Point2D) -> bool {
        self.min.x <= p.x < self.max.x && self.min.y <= p.y < self.max.y
    }

    /// Returns `true` if this box contains the point `p`.
    pub fn contains(&self, p: Point2D) -> (r: bool)
        ensures
            r == self.spec_contains(p),
    {
        self.min.x <= p.x && p.x < self.max.x && self.min.y <= p.y && p.y < self.max.y
    }
}

} // verus!
