//! Integer rectangles and points, with the clamping and overlap rules of SDL.
//!
//! A rectangle is never empty: a zero width or height becomes 1, and every
//! coordinate and size is clamped to `[MIN_INT_VALUE, MAX_INT_VALUE]`, so that
//! the right and bottom edges always fit in an `i32`.
use vstd::prelude::*;

verus! {

/// The largest coordinate or size a rectangle holds (`i32::MAX / 2`).
pub const MAX_INT_VALUE: i32 = 1073741823i32;

/// The smallest coordinate a rectangle or a point holds (`i32::MIN / 2`).
pub const MIN_INT_VALUE: i32 = -1073741824i32;

/// A coordinate as a rectangle or a point stores it.
pub open spec fn clamp_position(v: int) -> int {
    if v > MAX_INT_VALUE {
        MAX_INT_VALUE as int
    } else if v < MIN_INT_VALUE {
        MIN_INT_VALUE as int
    } else {
        v
    }
}

/// A size as a rectangle stores it: never 0, never above `MAX_INT_VALUE`.
pub open spec fn clamp_size(v: int) -> int {
    if v == 0 {
        1
    } else if v > MAX_INT_VALUE {
        MAX_INT_VALUE as int
    } else {
        v
    }
}

/// The mathematical content of a rectangle: its top-left corner and its size.
pub struct RectView {
    pub x: int,
    pub y: int,
    pub w: int,
    pub h: int,
}

impl RectView {
    /// What `Rect::new(x, y, w, h)` holds.
    pub open spec fn clamped(x: int, y: int, w: int, h: int) -> RectView {
        RectView { x: clamp_position(x), y: clamp_position(y), w: clamp_size(w), h: clamp_size(h) }
    }

    /// Every value that a `Rect` can hold.
    pub open spec fn valid(self) -> bool {
        &&& MIN_INT_VALUE <= self.x <= MAX_INT_VALUE
        &&& MIN_INT_VALUE <= self.y <= MAX_INT_VALUE
        &&& 1 <= self.w <= MAX_INT_VALUE
        &&& 1 <= self.h <= MAX_INT_VALUE
    }

    pub open spec fn right(self) -> int {
        self.x + self.w
    }

    pub open spec fn bottom(self) -> int {
        self.y + self.h
    }

    /// The point `(px, py)` lies inside: left and top edges included,
    /// right and bottom edges excluded.
    pub open spec fn contains(self, px: int, py: int) -> bool {
        self.x <= px < self.right() && self.y <= py < self.bottom()
    }

    /// The two rectangles share an area of positive size; touching edges do
    /// not count.
    pub open spec fn overlaps(self, other: RectView) -> bool {
        &&& self.w > 0 && self.h > 0 && other.w > 0 && other.h > 0
        &&& max(self.x, other.x) < min(self.right(), other.right())
        &&& max(self.y, other.y) < min(self.bottom(), other.bottom())
    }
}

pub open spec fn max(a: int, b: int) -> int {
    if a < b {
        b
    } else {
        a
    }
}

pub open spec fn min(a: int, b: int) -> int {
    if a < b {
        a
    } else {
        b
    }
}

/// A rectangle with integer coordinates, as SDL draws and tests them.
#[derive(Clone, Copy, Debug, PartialEq, Eq, Structural)]
pub struct Rect {
    x: i32,
    y: i32,
    w: i32,
    h: i32,
}

impl View for Rect {
    type V = RectView;

    closed spec fn view(&self) -> RectView {
        RectView { x: self.x as int, y: self.y as int, w: self.w as int, h: self.h as int }
    }
}

fn clamp_position_exec(val: i32) -> (r: i32)
    ensures
        r == clamp_position(val as int),
{
    if val > MAX_INT_VALUE {
        MAX_INT_VALUE
    } else if val < MIN_INT_VALUE {
        MIN_INT_VALUE
    } else {
        val
    }
}

fn clamp_size_exec(val: u32) -> (r: i32)
    ensures
        r == clamp_size(val as int),
{
    if val == 0 {
        1
    } else if val > 1073741823u32 {
        MAX_INT_VALUE
    } else {
        val as i32
    }
}

impl Rect {
    #[verifier::type_invariant]
    spec fn holds_valid(self) -> bool {
        self@.valid()
    }

    /// A rectangle with its top-left corner at `(x, y)`, clamped as SDL does.
    pub fn new(x: i32, y: i32, width: u32, height: u32) -> (r: Rect)
        ensures
            r@ == RectView::clamped(x as int, y as int, width as int, height as int),
            r@.valid(),
    {
        Rect {
            x: clamp_position_exec(x),
            y: clamp_position_exec(y),
            w: clamp_size_exec(width),
            h: clamp_size_exec(height),
        }
    }

    /// The left edge.
    pub fn x(&self) -> (r: i32)
        ensures
            r == self@.x,
            self@.valid(),
    {
        proof {
            use_type_invariant(self);
        }
        self.x
    }

    /// The top edge.
    pub fn y(&self) -> (r: i32)
        ensures
            r == self@.y,
            self@.valid(),
    {
        proof {
            use_type_invariant(self);
        }
        self.y
    }

    pub fn width(&self) -> (r: u32)
        ensures
            r == self@.w,
            self@.valid(),
    {
        proof {
            use_type_invariant(self);
        }
        self.w as u32
    }

    pub fn height(&self) -> (r: u32)
        ensures
            r == self@.h,
            self@.valid(),
    {
        proof {
            use_type_invariant(self);
        }
        self.h as u32
    }

    pub fn right(&self) -> (r: i32)
        ensures
            r == self@.right(),
    {
        proof {
            use_type_invariant(self);
        }
        self.x + self.w
    }

    pub fn bottom(&self) -> (r: i32)
        ensures
            r == self@.bottom(),
    {
        proof {
            use_type_invariant(self);
        }
        self.y + self.h
    }

    /// Whether the point `p` lies inside this rectangle.
    pub fn contains_point(&self, p: (i32, i32)) -> (r: bool)
        ensures
            r == self@.contains(p.0 as int, p.1 as int),
    {
        let (px, py) = p;
        let inside_x = px >= self.x() && px < self.right();
        inside_x && (py >= self.y() && py < self.bottom())
    }

    /// Whether the two rectangles overlap; rectangles that only share an
    /// edge do not.
    pub fn has_intersection(&self, other: Rect) -> (r: bool)
        ensures
            r == self@.overlaps(other@),
    {
        proof {
            use_type_invariant(self);
            use_type_invariant(&other);
        }
        let a_min = if other.x > self.x { other.x } else { self.x };
        let a_max = if other.right() < self.right() { other.right() } else { self.right() };
        if a_max <= a_min {
            return false;
        }
        let b_min = if other.y > self.y { other.y } else { self.y };
        let b_max = if other.bottom() < self.bottom() { other.bottom() } else { self.bottom() };
        if b_max <= b_min {
            return false;
        }
        true
    }
}

/// The content of a point.
pub struct PointView {
    pub x: int,
    pub y: int,
}

/// A point with integer coordinates, clamped as SDL does.
#[derive(Clone, Copy, Debug, PartialEq, Eq, Structural)]
pub struct Point {
    x: i32,
    y: i32,
}

impl View for Point {
    type V = PointView;

    closed spec fn view(&self) -> PointView {
        PointView { x: self.x as int, y: self.y as int }
    }
}

impl Point {
    pub fn new(x: i32, y: i32) -> (p: Point)
        ensures
            p@ == (PointView { x: clamp_position(x as int), y: clamp_position(y as int) }),
    {
        Point { x: clamp_position_exec(x), y: clamp_position_exec(y) }
    }

    pub fn x(&self) -> (r: i32)
        ensures
            r == self@.x,
    {
        self.x
    }

    pub fn y(&self) -> (r: i32)
        ensures
            r == self@.y,
    {
        self.y
    }
}

/// Every rectangle overlaps itself.
pub proof fn lemma_overlap_reflexive(r: RectView)
    requires
        r.valid(),
    ensures
        r.overlaps(r),
{
}

/// Overlap does not depend on the order of the two rectangles.
pub proof fn lemma_overlap_symmetric(a: RectView, b: RectView)
    ensures
        a.overlaps(b) == b.overlaps(a),
{
}

/// Two rectangles overlap exactly when some point lies in both.
pub proof fn lemma_overlap_iff_common_point(a: RectView, b: RectView)
    requires
        a.valid(),
        b.valid(),
    ensures
        a.overlaps(b) <==> exists|px: int, py: int| a.contains(px, py) && b.contains(px, py),
{
    if a.overlaps(b) {
        let px = max(a.x, b.x);
        let py = max(a.y, b.y);
        assert(a.contains(px, py) && b.contains(px, py));
    }
}

} // verus!
