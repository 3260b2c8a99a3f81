//! Integer 2D geometry: points, sizes and axis-aligned rectangles.

use vstd::prelude::*;

verus! {

/// Coordinates handled by this crate stay within this bound, which keeps
/// every intermediate product and sum inside the machine integer ranges.
pub const COORD_LIMIT: i32 = 1000000;

/// True when a coordinate is within the range this crate computes on.
pub open spec fn coord_ok(c: int) -> bool {
    -(COORD_LIMIT as int) <= c <= COORD_LIMIT as int
}

/// A 2D integer point, also used as a directional vector.
#[derive(Clone, Copy, PartialEq, Eq, Structural, Debug)]
pub struct Point {
    pub x: i32,
    pub y: i32,
}

/// A 2D integer extent (width and height).
#[derive(Clone, Copy, PartialEq, Eq, Structural, Debug)]
pub struct Offset {
    pub x: i32,
    pub y: i32,
}

impl Point {
    pub fn new(x: i32, y: i32) -> (r: Point)
        ensures
            r.x == x,
            r.y == y,
    {
        Point { x, y }
    }

    pub fn zero() -> (r: Point)
        ensures
            r.x == 0,
            r.y == 0,
    {
        Point { x: 0, y: 0 }
    }

    /// Both coordinates within the crate's working range.
    pub open spec fn ok(self) -> bool {
        coord_ok(self.x as int) && coord_ok(self.y as int)
    }
}

impl Offset {
    pub fn new(x: i32, y: i32) -> (r: Offset)
        ensures
            r.x == x,
            r.y == y,
    {
        Offset { x, y }
    }

    /// A non-negative extent within the working range.
    pub open spec fn ok(self) -> bool {
        0 <= self.x <= COORD_LIMIT as int && 0 <= self.y <= COORD_LIMIT as int
    }
}

/// Larger of two mathematical integers.
pub open spec fn max_i(a: int, b: int) -> int {
    if a >= b { a } else { b }
}

/// Smaller of two mathematical integers.
pub open spec fn min_i(a: int, b: int) -> int {
    if a <= b { a } else { b }
}

/// An axis-aligned rectangle: the half-open pixel ranges
/// `x0..x1` by `y0..y1`.
#[derive(Clone, Copy, PartialEq, Eq, Structural, Debug)]
pub struct Rect {
    pub x0: i32,
    pub y0: i32,
    pub x1: i32,
    pub y1: i32,
}

impl Rect {
    /// Non-degenerate and within the working coordinate range.
    pub open spec fn ok(self) -> bool {
        &&& coord_ok(self.x0 as int)
        &&& coord_ok(self.y0 as int)
        &&& coord_ok(self.x1 as int)
        &&& coord_ok(self.y1 as int)
        &&& self.x0 <= self.x1
        &&& self.y0 <= self.y1
    }

    /// True when the pixel at `(x, y)` lies inside the rectangle.
    pub open spec fn spec_contains(self, x: int, y: int) -> bool {
        self.x0 <= x < self.x1 && self.y0 <= y < self.y1
    }

    /// The rectangle clamped into `limit` (empty when they are disjoint).
    pub open spec fn spec_clamp(self, limit: Rect) -> Rect {
        Rect {
            x0: max_i(self.x0 as int, limit.x0 as int) as i32,
            y0: max_i(self.y0 as int, limit.y0 as int) as i32,
            x1: min_i(self.x1 as int, limit.x1 as int) as i32,
            y1: min_i(self.y1 as int, limit.y1 as int) as i32,
        }
    }

    /// Center pixel of the rectangle.
    pub open spec fn spec_center(self) -> Point {
        Point {
            x: (self.x0 as int + (self.x1 as int - self.x0 as int) / 2) as i32,
            y: (self.y0 as int + (self.y1 as int - self.y0 as int) / 2) as i32,
        }
    }

    pub fn zero() -> (r: Rect)
        ensures
            r == (Rect { x0: 0, y0: 0, x1: 0, y1: 0 }),
    {
        Rect { x0: 0, y0: 0, x1: 0, y1: 0 }
    }

    pub fn from_top_left_and_size(p: Point, o: Offset) -> (r: Rect)
        requires
            p.ok(),
            o.ok(),
        ensures
            r.x0 == p.x,
            r.y0 == p.y,
            r.x1 == p.x + o.x,
            r.y1 == p.y + o.y,
    {
        Rect { x0: p.x, y0: p.y, x1: p.x + o.x, y1: p.y + o.y }
    }

    /// Rectangle of extent `size` whose center pixel is `center`.
    pub open spec fn spec_from_center_and_size(center: Point, size: Offset) -> Rect {
        Rect {
            x0: (center.x - size.x / 2) as i32,
            y0: (center.y - size.y / 2) as i32,
            x1: (center.x - size.x / 2 + size.x) as i32,
            y1: (center.y - size.y / 2 + size.y) as i32,
        }
    }

    /// Rectangle of extent `size` whose center pixel is `center`.
    pub fn from_center_and_size(center: Point, size: Offset) -> (r: Rect)
        requires
            center.ok(),
            size.ok(),
        ensures
            r == Rect::spec_from_center_and_size(center, size),
    {
        let x0 = center.x - size.x / 2;
        let y0 = center.y - size.y / 2;
        Rect { x0, y0, x1: x0 + size.x, y1: y0 + size.y }
    }

    pub fn width(&self) -> (r: i32)
        requires
            self.ok(),
        ensures
            r == self.x1 - self.x0,
    {
        self.x1 - self.x0
    }

    pub fn height(&self) -> (r: i32)
        requires
            self.ok(),
        ensures
            r == self.y1 - self.y0,
    {
        self.y1 - self.y0
    }

    pub fn center(&self) -> (r: Point)
        requires
            self.ok(),
        ensures
            r == self.spec_center(),
    {
        Point { x: self.x0 + (self.x1 - self.x0) / 2, y: self.y0 + (self.y1 - self.y0) / 2 }
    }

    pub fn contains(&self, p: Point) -> (r: bool)
        ensures
            r == self.spec_contains(p.x as int, p.y as int),
    {
        self.x0 <= p.x && p.x < self.x1 && self.y0 <= p.y && p.y < self.y1
    }

    pub fn clamp(&self, limit: Rect) -> (r: Rect)
        ensures
            r == self.spec_clamp(limit),
    {
        let x0 = if self.x0 >= limit.x0 { self.x0 } else { limit.x0 };
        let y0 = if self.y0 >= limit.y0 { self.y0 } else { limit.y0 };
        let x1 = if self.x1 <= limit.x1 { self.x1 } else { limit.x1 };
        let y1 = if self.y1 <= limit.y1 { self.y1 } else { limit.y1 };
        Rect { x0, y0, x1, y1 }
    }
}

} // verus!
