//! Device-independent pixel geometry: lengths, points, sizes and axis-aligned
//! rectangles.
//!
//! Lengths are whole numbers of pixels. A rectangle is half-open: it holds its left
//! and top edges and stops just before its right and bottom edges.

use vstd::prelude::*;

verus! {

/// A length, or a coordinate, in device-independent pixels.
#[derive(Clone, Copy, Debug, PartialEq, Eq, Structural)]
pub struct Pixels(pub i32);

/// A position in device-independent pixel space.
#[derive(Clone, Copy, Debug, PartialEq, Eq, Structural)]
pub struct Point {
    pub x: Pixels,
    pub y: Pixels,
}

/// A width and a height.
#[derive(Clone, Copy, Debug, PartialEq, Eq, Structural)]
pub struct Size {
    pub width: Pixels,
    pub height: Pixels,
}

/// An axis-aligned rectangle: its top-left corner and its extent.
#[derive(Clone, Copy, Debug, PartialEq, Eq, Structural)]
pub struct Bounds {
    pub origin: Point,
    pub size: Size,
}

/// Makes a length of `value` pixels.
pub fn px(value: i32) -> (r: Pixels)
    ensures
        r == Pixels(value),
{
    Pixels(value)
}

/// Makes the point `(x, y)`.
pub fn point(x: Pixels, y: Pixels) -> (r: Point)
    ensures
        r == (Point { x, y }),
{
    Point { x, y }
}

/// Makes the size `width` by `height`.
pub fn size(width: Pixels, height: Pixels) -> (r: Size)
    ensures
        r == (Size { width, height }),
{
    Size { width, height }
}

/// Makes the rectangle with the given top-left corner and extent.
pub fn bounds(origin: Point, size: Size) -> (r: Bounds)
    ensures
        r == (Bounds { origin, size }),
{
    Bounds { origin, size }
}

impl Pixels {
    /// The length of no pixels.
    pub open spec fn spec_zero() -> Pixels {
        Pixels(0)
    }

    /// The length of no pixels.
    #[verifier::when_used_as_spec(spec_zero)]
    pub fn zero() -> (r: Pixels)
        ensures
            r == Pixels::spec_zero(),
    {
        Pixels(0)
    }

    /// The largest length that can be held.
    pub open spec fn spec_max() -> Pixels {
        Pixels(i32::MAX)
    }

    /// The largest length that can be held.
    #[verifier::when_used_as_spec(spec_max)]
    pub fn max() -> (r: Pixels)
        ensures
            r == Pixels::spec_max(),
    {
        Pixels(i32::MAX)
    }
}

impl Point {
    /// The origin of pixel space.
    pub open spec fn spec_zero() -> Point {
        Point { x: Pixels(0), y: Pixels(0) }
    }

    /// The origin of pixel space.
    #[verifier::when_used_as_spec(spec_zero)]
    pub fn zero() -> (r: Point)
        ensures
            r == Point::spec_zero(),
    {
        Point { x: Pixels(0), y: Pixels(0) }
    }
}

impl Size {
    /// The extent of nothing.
    pub open spec fn spec_zero() -> Size {
        Size { width: Pixels(0), height: Pixels(0) }
    }

    /// The extent of nothing.
    #[verifier::when_used_as_spec(spec_zero)]
    pub fn zero() -> (r: Size)
        ensures
            r == Size::spec_zero(),
    {
        Size { width: Pixels(0), height: Pixels(0) }
    }

    /// The largest extent that can be held.
    pub open spec fn spec_max() -> Size {
        Size { width: Pixels(i32::MAX), height: Pixels(i32::MAX) }
    }

    /// The largest extent that can be held.
    #[verifier::when_used_as_spec(spec_max)]
    pub fn max() -> (r: Size)
        ensures
            r == Size::spec_max(),
    {
        Size { width: Pixels(i32::MAX), height: Pixels(i32::MAX) }
    }
}

impl Bounds {
    /// The rectangle that fallback visuals use: no extent, at the origin.
    pub open spec fn spec_empty() -> Bounds {
        Bounds { origin: Point::spec_zero(), size: Size::spec_zero() }
    }

    /// The rectangle that fallback visuals use: no extent, at the origin.
    #[verifier::when_used_as_spec(spec_empty)]
    pub fn empty() -> (r: Bounds)
        ensures
            r == Bounds::spec_empty(),
    {
        Bounds { origin: Point::zero(), size: Size::zero() }
    }

    /// The x coordinate of the left edge.
    pub open spec fn left(self) -> int {
        self.origin.x.0 as int
    }

    /// The y coordinate of the top edge.
    pub open spec fn top(self) -> int {
        self.origin.y.0 as int
    }

    /// The x coordinate just past the right edge.
    pub open spec fn right(self) -> int {
        self.origin.x.0 + self.size.width.0
    }

    /// The y coordinate just past the bottom edge.
    pub open spec fn bottom(self) -> int {
        self.origin.y.0 + self.size.height.0
    }

    /// Whether the pixel at `(x, y)` lies inside the rectangle.
    pub open spec fn covers(self, x: int, y: int) -> bool {
        self.left() <= x < self.right() && self.top() <= y < self.bottom()
    }

    /// Whether the rectangle covers no pixel at all.
    pub open spec fn spec_is_empty(&self) -> bool {
        self.size.width.0 <= 0 || self.size.height.0 <= 0
    }

    /// Whether the rectangle covers no pixel at all.
    #[verifier::when_used_as_spec(spec_is_empty)]
    pub fn is_empty(&self) -> (r: bool)
        ensures
            r == self.spec_is_empty(),
            r <==> forall|x: int, y: int| !self.covers(x, y),
    {
        proof {
            if !self.spec_is_empty() {
                assert(self.covers(self.left(), self.top()));
            }
        }
        self.size.width.0 <= 0 || self.size.height.0 <= 0
    }

    /// Whether `point` lies inside the rectangle.
    pub fn contains(&self, point: &Point) -> (r: bool)
        ensures
            r == self.covers(point.x.0 as int, point.y.0 as int),
    {
        let px: i64 = point.x.0 as i64;
        let py: i64 = point.y.0 as i64;
        let left: i64 = self.origin.x.0 as i64;
        let top: i64 = self.origin.y.0 as i64;
        let right: i64 = left + self.size.width.0 as i64;
        let bottom: i64 = top + self.size.height.0 as i64;
        left <= px && px < right && top <= py && py < bottom
    }

    /// The part of the rectangle that also lies inside `other`.
    ///
    /// The result covers exactly the pixels that both rectangles cover. Where they
    /// share none, the result has no extent.
    pub fn intersect(&self, other: &Bounds) -> (r: Bounds)
        ensures
            forall|x: int, y: int| r.covers(x, y) <==> self.covers(x, y) && other.covers(x, y),
            r.size.width.0 >= 0,
            r.size.height.0 >= 0,
    {
        let (x, width) = overlap(
            self.origin.x.0,
            self.size.width.0,
            other.origin.x.0,
            other.size.width.0,
        );
        let (y, height) = overlap(
            self.origin.y.0,
            self.size.height.0,
            other.origin.y.0,
            other.size.height.0,
        );
        let r = if width == 0 || height == 0 {
            // An empty span on one axis empties the rectangle.
            Bounds { origin: Point { x: Pixels(x), y: Pixels(y) }, size: Size::zero() }
        } else {
            Bounds {
                origin: Point { x: Pixels(x), y: Pixels(y) },
                size: Size { width: Pixels(width), height: Pixels(height) },
            }
        };
        proof {
            assert forall|px: int, py: int|
                r.covers(px, py) <==> self.covers(px, py) && other.covers(px, py) by {
                assert(in_span(x as int, width as int, px) <==> in_span(
                    self.origin.x.0 as int,
                    self.size.width.0 as int,
                    px,
                ) && in_span(other.origin.x.0 as int, other.size.width.0 as int, px));
                assert(in_span(y as int, height as int, py) <==> in_span(
                    self.origin.y.0 as int,
                    self.size.height.0 as int,
                    py,
                ) && in_span(other.origin.y.0 as int, other.size.height.0 as int, py));
            }
        }
        r
    }
}

/// Whether `v` lies in the span that starts at `start` and is `len` long.
pub open spec fn in_span(start: int, len: int, v: int) -> bool {
    start <= v < start + len
}

/// The overlap of two spans on one axis, as a start and a length.
///
/// The length is zero where the spans share nothing.
fn overlap(a_start: i32, a_len: i32, b_start: i32, b_len: i32) -> (r: (i32, i32))
    ensures
        r.1 >= 0,
        forall|v: int|
            in_span(r.0 as int, r.1 as int, v) <==> in_span(a_start as int, a_len as int, v)
                && in_span(b_start as int, b_len as int, v),
{
    let a_end: i64 = a_start as i64 + a_len as i64;
    let b_end: i64 = b_start as i64 + b_len as i64;
    let start: i32 = if a_start >= b_start {
        a_start
    } else {
        b_start
    };
    let end: i64 = if a_end <= b_end {
        a_end
    } else {
        b_end
    };
    if end <= start as i64 {
        (start, 0)
    } else {
        let len: i64 = end - start as i64;
        assert(len <= i32::MAX) by {
            if a_start >= b_start {
                assert(len <= a_len);
            } else {
                assert(len <= b_len);
            }
        }
        (start, len as i32)
    }
}

} // verus!
