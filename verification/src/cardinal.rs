//! Rectangles, points and the quantities derived from them.
//!
//! Everything here is a pure function of its arguments. Coordinates are
//! screen coordinates: `x` grows to the right and `y` grows downward, so the
//! "top" of a rectangle is its smallest `y`.

use vstd::prelude::*;

verus! {

/// A point on the virtual desktop.
#[derive(Clone, Copy, Debug, PartialEq, Eq, Structural)]
pub struct Point {
    pub x: i32,
    pub y: i32,
}

/// A rectangle given by its four edges.
///
/// A rectangle is *normalized* when `left <= right` and `top <= bottom`;
/// [`Rect::from_points`] only ever builds normalized rectangles.
#[derive(Clone, Copy, Debug, PartialEq, Eq, Structural)]
pub struct Rect {
    pub left: i32,
    pub top: i32,
    pub right: i32,
    pub bottom: i32,
}

/// The coordinate halfway between `a` and `b`, rounded toward negative
/// infinity.
pub open spec fn midpoint(a: int, b: int) -> int {
    (a + b) / 2
}

/// The smaller of two coordinates.
pub open spec fn lesser(a: int, b: int) -> int {
    if a <= b {
        a
    } else {
        b
    }
}

/// The larger of two coordinates.
pub open spec fn greater(a: int, b: int) -> int {
    if a <= b {
        b
    } else {
        a
    }
}

/// The midpoint of two coordinates lies between them, so it is always a
/// coordinate again.
pub proof fn lemma_midpoint_between(a: int, b: int)
    ensures
        lesser(a, b) <= midpoint(a, b) <= greater(a, b),
{
}

/// Computes the coordinate halfway between `a` and `b`, rounding toward
/// negative infinity. The sum is formed in 64 bits, so no pair of
/// coordinates overflows.
pub fn mid(a: i32, b: i32) -> (m: i32)
    ensures
        m == midpoint(a as int, b as int),
{
    let sum: i64 = a as i64 + b as i64;
    if sum >= 0 {
        (sum / 2) as i32
    } else {
        (-((1 - sum) / 2)) as i32
    }
}

impl Rect {
    /// Whether the edges are in order.
    pub open spec fn is_normalized(&self) -> bool {
        self.left <= self.right && self.top <= self.bottom
    }

    /// `right - left` as a mathematical integer.
    pub open spec fn spec_width(&self) -> int {
        self.right - self.left
    }

    /// `bottom - top` as a mathematical integer.
    pub open spec fn spec_height(&self) -> int {
        self.bottom - self.top
    }

    /// The center: the midpoint of the two horizontal edges and of the two
    /// vertical edges.
    pub open spec fn spec_center(&self) -> Point {
        Point {
            x: midpoint(self.left as int, self.right as int) as i32,
            y: midpoint(self.top as int, self.bottom as int) as i32,
        }
    }

    /// The top-left corner.
    pub open spec fn spec_top_left(&self) -> Point {
        Point { x: self.left, y: self.top }
    }

    /// The top-right corner.
    pub open spec fn spec_top_right(&self) -> Point {
        Point { x: self.right, y: self.top }
    }

    /// The bottom-left corner.
    pub open spec fn spec_bottom_left(&self) -> Point {
        Point { x: self.left, y: self.bottom }
    }

    /// The bottom-right corner.
    pub open spec fn spec_bottom_right(&self) -> Point {
        Point { x: self.right, y: self.bottom }
    }

    /// Midpoint of the top edge.
    pub open spec fn spec_north(&self) -> Point {
        Point { x: self.spec_center().x, y: self.top }
    }

    /// Midpoint of the bottom edge.
    pub open spec fn spec_south(&self) -> Point {
        Point { x: self.spec_center().x, y: self.bottom }
    }

    /// Midpoint of the right edge.
    pub open spec fn spec_east(&self) -> Point {
        Point { x: self.right, y: self.spec_center().y }
    }

    /// Midpoint of the left edge.
    pub open spec fn spec_west(&self) -> Point {
        Point { x: self.left, y: self.spec_center().y }
    }

    /// The normalized rectangle spanned by two of its corners that lie
    /// across from each other.
    pub open spec fn spec_from_points(corner: Point, opposite: Point) -> Rect {
        Rect {
            left: lesser(corner.x as int, opposite.x as int) as i32,
            top: lesser(corner.y as int, opposite.y as int) as i32,
            right: greater(corner.x as int, opposite.x as int) as i32,
            bottom: greater(corner.y as int, opposite.y as int) as i32,
        }
    }

    /// Whether `p` lies in the rectangle. The left and top edges belong to
    /// the rectangle, the right and bottom edges do not.
    pub open spec fn spec_contains(&self, p: Point) -> bool {
        self.left <= p.x < self.right && self.top <= p.y < self.bottom
    }

    /// Horizontal extent, `right - left`. The difference of two 32-bit
    /// edges can need 33 bits, so the result is a 64-bit integer. It is
    /// not negative if the rectangle is normalized.
    pub fn width(&self) -> (w: i64)
        ensures
            w == self.spec_width(),
            self.is_normalized() ==> w >= 0,
    {
        self.right as i64 - self.left as i64
    }

    /// Vertical extent, `bottom - top`, as a 64-bit integer. It is not
    /// negative if the rectangle is normalized.
    pub fn height(&self) -> (h: i64)
        ensures
            h == self.spec_height(),
            self.is_normalized() ==> h >= 0,
    {
        self.bottom as i64 - self.top as i64
    }

    /// Midpoint of the top edge.
    #[verifier::when_used_as_spec(spec_north)]
    pub fn north(&self) -> (p: Point)
        ensures
            p == self.spec_north(),
            p.x == midpoint(self.left as int, self.right as int),
            p.y == self.top,
    {
        Point { x: mid(self.left, self.right), y: self.top }
    }

    /// Midpoint of the bottom edge.
    #[verifier::when_used_as_spec(spec_south)]
    pub fn south(&self) -> (p: Point)
        ensures
            p == self.spec_south(),
            p.x == midpoint(self.left as int, self.right as int),
            p.y == self.bottom,
    {
        Point { x: mid(self.left, self.right), y: self.bottom }
    }

    /// Midpoint of the right edge.
    #[verifier::when_used_as_spec(spec_east)]
    pub fn east(&self) -> (p: Point)
        ensures
            p == self.spec_east(),
            p.x == self.right,
            p.y == midpoint(self.top as int, self.bottom as int),
    {
        Point { x: self.right, y: mid(self.top, self.bottom) }
    }

    /// Midpoint of the left edge.
    #[verifier::when_used_as_spec(spec_west)]
    pub fn west(&self) -> (p: Point)
        ensures
            p == self.spec_west(),
            p.x == self.left,
            p.y == midpoint(self.top as int, self.bottom as int),
    {
        Point { x: self.left, y: mid(self.top, self.bottom) }
    }

    /// The top-left corner.
    #[verifier::when_used_as_spec(spec_top_left)]
    pub fn top_left(&self) -> (p: Point)
        ensures
            p == self.spec_top_left(),
    {
        Point { x: self.left, y: self.top }
    }

    /// The top-right corner.
    #[verifier::when_used_as_spec(spec_top_right)]
    pub fn top_right(&self) -> (p: Point)
        ensures
            p == self.spec_top_right(),
    {
        Point { x: self.right, y: self.top }
    }

    /// The bottom-left corner.
    #[verifier::when_used_as_spec(spec_bottom_left)]
    pub fn bottom_left(&self) -> (p: Point)
        ensures
            p == self.spec_bottom_left(),
    {
        Point { x: self.left, y: self.bottom }
    }

    /// The bottom-right corner.
    #[verifier::when_used_as_spec(spec_bottom_right)]
    pub fn bottom_right(&self) -> (p: Point)
        ensures
            p == self.spec_bottom_right(),
    {
        Point { x: self.right, y: self.bottom }
    }

    /// The center of the rectangle. Each coordinate is the midpoint of the
    /// matching coordinates of the top-left and bottom-right corners.
    #[verifier::when_used_as_spec(spec_center)]
    pub fn center(&self) -> (p: Point)
        ensures
            p == self.spec_center(),
            p.x == midpoint(self.top_left().x as int, self.bottom_right().x as int),
            p.y == midpoint(self.top_left().y as int, self.bottom_right().y as int),
    {
        Point { x: mid(self.left, self.right), y: mid(self.top, self.bottom) }
    }

    /// Builds the normalized rectangle spanned by two points: each edge is
    /// the minimum or maximum of the points' coordinates on that axis.
    #[verifier::when_used_as_spec(spec_from_points)]
    pub fn from_points(corner: Point, opposite: Point) -> (r: Rect)
        ensures
            r == Rect::spec_from_points(corner, opposite),
            r.left == lesser(corner.x as int, opposite.x as int),
            r.right == greater(corner.x as int, opposite.x as int),
            r.top == lesser(corner.y as int, opposite.y as int),
            r.bottom == greater(corner.y as int, opposite.y as int),
            r.is_normalized(),
    {
        Rect {
            left: if corner.x <= opposite.x { corner.x } else { opposite.x },
            right: if corner.x <= opposite.x { opposite.x } else { corner.x },
            top: if corner.y <= opposite.y { corner.y } else { opposite.y },
            bottom: if corner.y <= opposite.y { opposite.y } else { corner.y },
        }
    }

    /// Tests whether a point lies in the rectangle, the way the platform's
    /// point-in-rectangle test does: a point on the right or bottom edge is
    /// outside.
    #[verifier::when_used_as_spec(spec_contains)]
    pub fn contains(&self, p: Point) -> (inside: bool)
        ensures
            inside == self.spec_contains(p),
    {
        self.left <= p.x && p.x < self.right && self.top <= p.y && p.y < self.bottom
    }
}

/// The order in which two points are given does not matter to
/// [`Rect::from_points`].
pub proof fn lemma_from_points_commutes(corner: Point, opposite: Point)
    ensures
        Rect::from_points(corner, opposite) == Rect::from_points(opposite, corner),
{
}

/// A rectangle built from two points is normalized, and a normalized
/// rectangle has a width and a height that are not negative.
pub proof fn lemma_from_points_extent(corner: Point, opposite: Point)
    ensures
        Rect::from_points(corner, opposite).is_normalized(),
        Rect::from_points(corner, opposite).spec_width() >= 0,
        Rect::from_points(corner, opposite).spec_height() >= 0,
{
}

/// Width and height of any normalized rectangle are not negative.
pub proof fn lemma_normalized_extent(r: Rect)
    requires
        r.is_normalized(),
    ensures
        r.spec_width() >= 0,
        r.spec_height() >= 0,
{
}

/// The center is the coordinate-wise midpoint of the top-left and the
/// bottom-right corner.
pub proof fn lemma_center_is_midpoint(r: Rect)
    ensures
        r.center().x == midpoint(r.top_left().x as int, r.bottom_right().x as int),
        r.center().y == midpoint(r.top_left().y as int, r.bottom_right().y as int),
{
}

/// The center of a normalized rectangle lies within its edges.
pub proof fn lemma_center_within(r: Rect)
    requires
        r.is_normalized(),
    ensures
        r.left <= r.center().x <= r.right,
        r.top <= r.center().y <= r.bottom,
{
}

} // verus!
