use vstd::prelude::*;

verus! {

/// A point in logical (compositor) pixels.
#[derive(Debug, Clone, Copy, PartialEq, Eq, Structural)]
pub struct Point {
    pub x: i32,
    pub y: i32,
}

/// A width/height pair in logical pixels.
#[derive(Debug, Clone, Copy, PartialEq, Eq, Structural)]
pub struct Size {
    pub width: i32,
    pub height: i32,
}

/// An axis-aligned rectangle: origin plus extent.
#[derive(Debug, Clone, Copy, PartialEq, Eq, Structural)]
pub struct Rect {
    pub x: i32,
    pub y: i32,
    pub width: i32,
    pub height: i32,
}

/// `v` limited to the closed interval `[lo, hi]` (as `Ord::clamp` does when `lo <= hi`).
pub open spec fn clamp_spec(v: int, lo: int, hi: int) -> int {
    if v < lo {
        lo
    } else if v > hi {
        hi
    } else {
        v
    }
}

pub open spec fn min_spec(a: int, b: int) -> int {
    if a <= b {
        a
    } else {
        b
    }
}

pub open spec fn max_spec(a: int, b: int) -> int {
    if a >= b {
        a
    } else {
        b
    }
}

impl Rect {
    /// Right edge (exclusive).
    pub open spec fn right(self) -> int {
        self.x + self.width
    }

    /// Bottom edge (exclusive).
    pub open spec fn bottom(self) -> int {
        self.y + self.height
    }

    /// `self` lies inside `outer`.
    pub open spec fn within(self, outer: Rect) -> bool {
        &&& outer.x <= self.x
        &&& outer.y <= self.y
        &&& self.right() <= outer.right()
        &&& self.bottom() <= outer.bottom()
    }

    /// The point lies inside the rectangle.
    pub open spec fn contains_point(self, p: Point) -> bool {
        &&& self.x <= p.x < self.right()
        &&& self.y <= p.y < self.bottom()
    }

    /// Bounds that `clamp_within` accepts: a positive extent whose far edges fit in `i32`.
    pub open spec fn valid_bounds(self) -> bool {
        &&& self.width >= 1
        &&& self.height >= 1
        &&& self.x + self.width <= i32::MAX
        &&& self.y + self.height <= i32::MAX
    }

    /// The smallest rectangle covering both corners, both inclusive.
    pub open spec fn corners_spec(a: Point, b: Point) -> Rect {
        let x1 = min_spec(a.x as int, b.x as int);
        let y1 = min_spec(a.y as int, b.y as int);
        let x2 = max_spec(a.x as int, b.x as int);
        let y2 = max_spec(a.y as int, b.y as int);
        Rect {
            x: x1 as i32,
            y: y1 as i32,
            width: (x2 - x1 + 1) as i32,
            height: (y2 - y1 + 1) as i32,
        }
    }

    /// `from_corners` does not overflow: each extent fits in `i32`.
    pub open spec fn corners_fit(a: Point, b: Point) -> bool {
        &&& max_spec(a.x as int, b.x as int) - min_spec(a.x as int, b.x as int) + 1 <= i32::MAX
        &&& max_spec(a.y as int, b.y as int) - min_spec(a.y as int, b.y as int) + 1 <= i32::MAX
    }

    /// The result of `clamp_within`: the extent is first limited to `[1, bounds extent]`,
    /// then the origin is moved so that the rectangle lies inside `bounds`.
    pub open spec fn clamp_spec(self, bounds: Rect) -> Rect {
        let width = clamp_spec(self.width as int, 1, max_spec(bounds.width as int, 1));
        let height = clamp_spec(self.height as int, 1, max_spec(bounds.height as int, 1));
        let x = clamp_spec(self.x as int, bounds.x as int, bounds.x + bounds.width - width);
        let y = clamp_spec(self.y as int, bounds.y as int, bounds.y + bounds.height - height);
        Rect { x: x as i32, y: y as i32, width: width as i32, height: height as i32 }
    }
}

/// `Ord::clamp` on `i32`: `lo` when below, `hi` when above, else the value itself.
fn clamp_i32(v: i32, lo: i32, hi: i32) -> (r: i32)
    requires
        lo <= hi,
    ensures
        r == clamp_spec(v as int, lo as int, hi as int),
{
    if v < lo {
        lo
    } else if v > hi {
        hi
    } else {
        v
    }
}

impl Point {
    pub fn new(x: i32, y: i32) -> (r: Self)
        ensures
            r == (Point { x, y }),
    {
        Point { x, y }
    }
}

impl Size {
    pub fn new(width: i32, height: i32) -> (r: Self)
        ensures
            r == (Size { width, height }),
    {
        Size { width, height }
    }
}

impl Rect {
    pub fn new(x: i32, y: i32, width: i32, height: i32) -> (r: Self)
        ensures
            r == (Rect { x, y, width, height }),
    {
        Rect { x, y, width, height }
    }

    /// The rectangle spanned by two corner points, both corners included.
    pub fn from_corners(a: Point, b: Point) -> (r: Self)
        requires
            Rect::corners_fit(a, b),
        ensures
            r == Rect::corners_spec(a, b),
            r.contains_point(a),
            r.contains_point(b),
    {
        let x1 = a.x.min(b.x);
        let y1 = a.y.min(b.y);
        let x2 = a.x.max(b.x);
        let y2 = a.y.max(b.y);
        Rect { x: x1, y: y1, width: x2 - x1 + 1, height: y2 - y1 + 1 }
    }

    /// Limits the rectangle to at least one pixel and at most the extent of `bounds`,
    /// then moves it so that it lies inside `bounds`.
    pub fn clamp_within(self, bounds: Rect) -> (r: Self)
        requires
            bounds.valid_bounds(),
        ensures
            r == self.clamp_spec(bounds),
            r.within(bounds),
            1 <= r.width <= bounds.width,
            1 <= r.height <= bounds.height,
    {
        let width = clamp_i32(self.width, 1, bounds.width.max(1));
        let height = clamp_i32(self.height, 1, bounds.height.max(1));
        let x = clamp_i32(self.x, bounds.x, bounds.x + bounds.width - width);
        let y = clamp_i32(self.y, bounds.y, bounds.y + bounds.height - height);
        Rect { x, y, width, height }
    }
}

/// Clamping is idempotent: clamping a rectangle that was already clamped to the same
/// bounds changes nothing.
pub proof fn lemma_clamp_idempotent(r: Rect, bounds: Rect)
    requires
        bounds.valid_bounds(),
    ensures
        r.clamp_spec(bounds).clamp_spec(bounds) == r.clamp_spec(bounds),
{
}

/// A rectangle of positive extent that already lies inside the bounds is left unchanged.
pub proof fn lemma_clamp_keeps_contained(r: Rect, bounds: Rect)
    requires
        bounds.valid_bounds(),
        r.width >= 1,
        r.height >= 1,
        r.within(bounds),
    ensures
        r.clamp_spec(bounds) == r,
{
}

/// The rectangle spanned by two corners does not depend on their order.
pub proof fn lemma_corners_symmetric(a: Point, b: Point)
    ensures
        Rect::corners_spec(a, b) == Rect::corners_spec(b, a),
{
}

} // verus!
