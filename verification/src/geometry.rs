//! Geometry primitives: rectangles and points, with their mathematical views.

use vstd::prelude::*;

verus! {

/// The mathematical view of a [`Rect`]: four unbounded edge coordinates.
pub struct Region {
    pub left: int,
    pub top: int,
    pub right: int,
    pub bottom: int,
}

/// The mathematical view of a [`PointF`]: an unbounded pair.
pub struct Coords {
    pub x: int,
    pub y: int,
}

impl Coords {
    /// Both components have magnitude at most `limit`.
    pub open spec fn within(self, limit: int) -> bool {
        &&& -limit <= self.x <= limit
        &&& -limit <= self.y <= limit
    }
}

impl Region {
    /// Horizontal span, negative when the edges are crossed.
    pub open spec fn width(self) -> int {
        self.right - self.left
    }

    /// Vertical span, negative when the edges are crossed.
    pub open spec fn height(self) -> int {
        self.bottom - self.top
    }

    /// Both pairs of edges are in order.
    pub open spec fn ordered(self) -> bool {
        self.left <= self.right && self.top <= self.bottom
    }

    /// Grows the region by `dx` on the left and right and by `dy` on the top
    /// and bottom; negative amounts shrink it.
    pub open spec fn inflate(self, dx: int, dy: int) -> Region {
        Region {
            left: self.left - dx,
            top: self.top - dy,
            right: self.right + dx,
            bottom: self.bottom + dy,
        }
    }

    /// Shifts all four edges.
    pub open spec fn offset(self, dx: int, dy: int) -> Region {
        Region {
            left: self.left + dx,
            top: self.top + dy,
            right: self.right + dx,
            bottom: self.bottom + dy,
        }
    }

    /// The same size with the top-left corner at `(x, y)`.
    pub open spec fn moved_to(self, x: int, y: int) -> Region {
        self.offset(x - self.left, y - self.top)
    }

    /// Whether `(x, y)` lies in the region, edges included.
    pub open spec fn contain(self, x: int, y: int) -> bool {
        self.left <= x <= self.right && self.top <= y <= self.bottom
    }

    /// Whether the two regions share a point, touching edges included.
    pub open spec fn overlaps(self, other: Region) -> bool {
        &&& self.left <= other.right
        &&& other.left <= self.right
        &&& self.top <= other.bottom
        &&& other.top <= self.bottom
    }

    /// Every edge has magnitude at most `limit`.
    pub open spec fn within(self, limit: int) -> bool {
        &&& -limit <= self.left <= limit
        &&& -limit <= self.top <= limit
        &&& -limit <= self.right <= limit
        &&& -limit <= self.bottom <= limit
    }

    /// Every edge is representable as an `i64`.
    pub open spec fn representable(self) -> bool {
        &&& i64::MIN <= self.left <= i64::MAX
        &&& i64::MIN <= self.top <= i64::MAX
        &&& i64::MIN <= self.right <= i64::MAX
        &&& i64::MIN <= self.bottom <= i64::MAX
    }
}

/// An axis-aligned rectangle in fine units. No ordering of the edges is
/// enforced.
#[derive(Clone, Copy, Debug, PartialEq, Eq, Structural)]
pub struct Rect {
    pub left: i64,
    pub top: i64,
    pub right: i64,
    pub bottom: i64,
}

impl View for Rect {
    type V = Region;

    open spec fn view(&self) -> Region {
        Region {
            left: self.left as int,
            top: self.top as int,
            right: self.right as int,
            bottom: self.bottom as int,
        }
    }
}

impl Rect {
    pub fn new(left: i64, top: i64, right: i64, bottom: i64) -> (r: Rect)
        ensures
            r == (Rect { left, top, right, bottom }),
    {
        Rect { left, top, right, bottom }
    }

    pub fn zero() -> (r: Rect)
        ensures
            r == (Rect { left: 0, top: 0, right: 0, bottom: 0 }),
    {
        Rect { left: 0, top: 0, right: 0, bottom: 0 }
    }

    /// Grows the rectangle symmetrically; negative amounts shrink it.
    pub fn inflate(&mut self, dx: i64, dy: i64)
        requires
            old(self)@.inflate(dx as int, dy as int).representable(),
        ensures
            final(self)@ == old(self)@.inflate(dx as int, dy as int),
    {
        self.left = self.left - dx;
        self.right = self.right + dx;
        self.top = self.top - dy;
        self.bottom = self.bottom + dy;
    }

    /// Moves the rectangle without resizing it.
    pub fn offset(&mut self, dx: i64, dy: i64)
        requires
            old(self)@.offset(dx as int, dy as int).representable(),
        ensures
            final(self)@ == old(self)@.offset(dx as int, dy as int),
    {
        self.left = self.left + dx;
        self.right = self.right + dx;
        self.top = self.top + dy;
        self.bottom = self.bottom + dy;
    }

    /// Whether every edge has magnitude at most `limit`.
    pub fn within(&self, limit: i64) -> (ok: bool)
        ensures
            ok == self@.within(limit as int),
    {
        limit >= 0 && -limit <= self.left && self.left <= limit && -limit <= self.top && self.top <= limit
            && -limit <= self.right && self.right <= limit && -limit <= self.bottom
            && self.bottom <= limit
    }

    /// Whether the point lies in the rectangle, edges included.
    pub fn contain(&self, x: i64, y: i64) -> (inside: bool)
        ensures
            inside == self@.contain(x as int, y as int),
    {
        x >= self.left && x <= self.right && y >= self.top && y <= self.bottom
    }
}

/// A point or a velocity in fine units.
#[derive(Clone, Copy, Debug, PartialEq, Eq, Structural)]
pub struct PointF {
    pub x: i64,
    pub y: i64,
}

impl View for PointF {
    type V = Coords;

    open spec fn view(&self) -> Coords {
        Coords { x: self.x as int, y: self.y as int }
    }
}

impl PointF {
    pub fn new(x: i64, y: i64) -> (p: PointF)
        ensures
            p == (PointF { x, y }),
    {
        PointF { x, y }
    }

    pub fn zero() -> (p: PointF)
        ensures
            p == (PointF { x: 0, y: 0 }),
    {
        PointF { x: 0, y: 0 }
    }

    /// Whether both components have magnitude at most `limit`.
    pub fn within(&self, limit: i64) -> (ok: bool)
        ensures
            ok == self@.within(limit as int),
    {
        limit >= 0 && -limit <= self.x && self.x <= limit && -limit <= self.y && self.y <= limit
    }
}

/// A point in whole surface pixels.
#[derive(Clone, Copy, Debug, PartialEq, Eq, Structural)]
pub struct Point {
    pub x: i32,
    pub y: i32,
}

impl Point {
    /// The origin.
    pub fn new() -> (p: Point)
        ensures
            p == (Point { x: 0, y: 0 }),
    {
        Point { x: 0, y: 0 }
    }
}

} // verus!
