//! Screen-space value types: points, sizes, vectors, rectangles and insets.
//!
//! Coordinates are narrow unsigned integers. Every sum and difference of
//! coordinates saturates: a sum stops at [`SCREEN_MAX`], a difference at zero.
//! Insets are signed, so that the difference of two rectangles is exact.

use vstd::prelude::*;

verus! {

/// Numeric type for screen coordinates.
pub type ScreenCoord = u8;

/// Numeric type for the signed deltas of an [`Insets`].
pub type InsetCoord = i16;

/// The largest screen coordinate. As an extent it stands for "unbounded".
pub const SCREEN_MAX: ScreenCoord = 255;

/// The smaller of two coordinates.
pub open spec fn spec_min(a: ScreenCoord, b: ScreenCoord) -> ScreenCoord {
    if a <= b {
        a
    } else {
        b
    }
}

/// The larger of two coordinates.
pub open spec fn spec_max(a: ScreenCoord, b: ScreenCoord) -> ScreenCoord {
    if a >= b {
        a
    } else {
        b
    }
}

/// An integer brought into the range of screen coordinates.
pub open spec fn clamp_coord(v: int) -> ScreenCoord {
    if v < 0 {
        0
    } else if v > 255 {
        255
    } else {
        v as ScreenCoord
    }
}

/// The smaller of two coordinates.
#[verifier::when_used_as_spec(spec_min)]
pub fn min(a: ScreenCoord, b: ScreenCoord) -> (r: ScreenCoord)
    ensures
        r == spec_min(a, b),
{
    if a <= b {
        a
    } else {
        b
    }
}

/// The larger of two coordinates.
#[verifier::when_used_as_spec(spec_max)]
pub fn max(a: ScreenCoord, b: ScreenCoord) -> (r: ScreenCoord)
    ensures
        r == spec_max(a, b),
{
    if a >= b {
        a
    } else {
        b
    }
}

/// Moves a coordinate by a signed delta and clamps the result to the screen range.
pub fn offset_coord(c: ScreenCoord, delta: InsetCoord) -> (r: ScreenCoord)
    ensures
        r == clamp_coord(c + delta),
{
    let moved: i32 = c as i32 + delta as i32;
    if moved < 0 {
        0
    } else if moved > 255 {
        255
    } else {
        moved as ScreenCoord
    }
}

/// A 2D point.
#[derive(Clone, Copy, Debug, PartialEq, Eq, Structural)]
pub struct Point {
    /// The x coordinate.
    pub x: ScreenCoord,
    /// The y coordinate.
    pub y: ScreenCoord,
}

impl Point {
    /// The point (0, 0).
    pub fn origin() -> (p: Point)
        ensures
            p == (Point { x: 0, y: 0 }),
    {
        Point { x: 0, y: 0 }
    }

    /// Creates a point from its coordinates.
    pub fn new(x: ScreenCoord, y: ScreenCoord) -> (p: Point)
        ensures
            p == (Point { x, y }),
    {
        Point { x, y }
    }

    /// Converts this point into a `Vec2`.
    pub fn to_vec2(self) -> (v: Vec2)
        ensures
            v == (Vec2 { x: self.x, y: self.y }),
    {
        Vec2 { x: self.x, y: self.y }
    }
}

impl Default for Point {
    fn default() -> (p: Point)
        ensures
            p == (Point { x: 0, y: 0 }),
    {
        Point { x: 0, y: 0 }
    }
}

impl core::ops::Sub<Vec2> for Point {
    type Output = Point;

    /// Moves the point back by `other`, stopping at zero on each axis.
    fn sub(self, other: Vec2) -> (r: Point)
        ensures
            r == (Point { x: self.x.saturating_sub(other.x), y: self.y.saturating_sub(other.y) }),
    {
        Point { x: self.x.saturating_sub(other.x), y: self.y.saturating_sub(other.y) }
    }
}

impl vstd::std_specs::ops::SubSpecImpl<Vec2> for Point {
    open spec fn obeys_sub_spec() -> bool {
        true
    }

    open spec fn sub_req(self, other: Vec2) -> bool {
        true
    }

    open spec fn sub_spec(self, other: Vec2) -> Point {
        Point { x: self.x.saturating_sub(other.x), y: self.y.saturating_sub(other.y) }
    }
}

/// A 2D size.
#[derive(Clone, Copy, Debug, PartialEq, Eq, Structural)]
pub struct Size {
    /// The width.
    pub width: ScreenCoord,
    /// The height.
    pub height: ScreenCoord,
}

impl Size {
    /// A size with zero width and height.
    pub open spec fn spec_zero() -> Size {
        Size { width: 0, height: 0 }
    }

    /// A size with zero width and height.
    #[verifier::when_used_as_spec(spec_zero)]
    pub fn zero() -> (s: Size)
        ensures
            s == Size::spec_zero(),
    {
        Size { width: 0, height: 0 }
    }

    /// Creates a size from its two extents.
    pub fn new(width: ScreenCoord, height: ScreenCoord) -> (s: Size)
        ensures
            s == (Size { width, height }),
    {
        Size { width, height }
    }

    /// Rounds both extents away from zero to whole numbers. Integer extents
    /// are whole already, so the size comes back as it is.
    pub fn expand(self) -> (s: Size)
        ensures
            s == self,
    {
        self
    }

    /// This size bounded by `min` and `max` on each axis.
    pub open spec fn spec_clamp(self, min: Size, max: Size) -> Size {
        Size {
            width: spec_min(spec_max(self.width, min.width), max.width),
            height: spec_min(spec_max(self.height, min.height), max.height),
        }
    }

    /// Returns a new size bounded by `min` and `max`: each extent is first
    /// raised to `min` and then lowered to `max`.
    #[verifier::when_used_as_spec(spec_clamp)]
    pub fn clamp(self, min: Size, max: Size) -> (s: Size)
        ensures
            s == self.spec_clamp(min, max),
    {
        let width: ScreenCoord = self::min(self::max(self.width, min.width), max.width);
        let height: ScreenCoord = self::min(self::max(self.height, min.height), max.height);
        Size { width, height }
    }

    /// Whether this size lies between `min` and `max` on both axes.
    pub open spec fn within(self, min: Size, max: Size) -> bool {
        &&& min.width <= self.width <= max.width
        &&& min.height <= self.height <= max.height
    }
}

impl Default for Size {
    fn default() -> (s: Size)
        ensures
            s == (Size { width: 0, height: 0 }),
    {
        Size { width: 0, height: 0 }
    }
}

impl From<(ScreenCoord, ScreenCoord)> for Size {
    fn from(pair: (ScreenCoord, ScreenCoord)) -> (s: Size)
        ensures
            s == (Size { width: pair.0, height: pair.1 }),
    {
        Size { width: pair.0, height: pair.1 }
    }
}

impl vstd::std_specs::convert::FromSpecImpl<(ScreenCoord, ScreenCoord)> for Size {
    open spec fn obeys_from_spec() -> bool {
        true
    }

    open spec fn from_spec(pair: (ScreenCoord, ScreenCoord)) -> Size {
        Size { width: pair.0, height: pair.1 }
    }
}

/// A 2D vector.
///
/// This is intended primarily for a vector in the mathematical sense, but it
/// can be interpreted as a translation, and converted to and from a point.
#[derive(Clone, Copy, Debug, PartialEq, Eq, Structural)]
pub struct Vec2 {
    /// The x-coordinate.
    pub x: ScreenCoord,
    /// The y-coordinate.
    pub y: ScreenCoord,
}

impl Vec2 {
    /// The vector (0, 0).
    pub fn zero() -> (v: Vec2)
        ensures
            v == (Vec2 { x: 0, y: 0 }),
    {
        Vec2 { x: 0, y: 0 }
    }

    /// The sum of two vectors, stopping at the largest coordinate on each axis.
    pub open spec fn spec_plus(self, other: Vec2) -> Vec2 {
        Vec2 { x: self.x.saturating_add(other.x), y: self.y.saturating_add(other.y) }
    }

    /// The sum of two vectors, stopping at the largest coordinate on each axis.
    #[verifier::when_used_as_spec(spec_plus)]
    pub fn plus(self, other: Vec2) -> (v: Vec2)
        ensures
            v == self.spec_plus(other),
    {
        Vec2 { x: self.x.saturating_add(other.x), y: self.y.saturating_add(other.y) }
    }

    /// The point that this vector leads to from the origin.
    pub open spec fn spec_to_point(self) -> Point {
        Point { x: self.x, y: self.y }
    }

    /// Converts this vector into a `Point`.
    #[verifier::when_used_as_spec(spec_to_point)]
    pub fn to_point(self) -> (p: Point)
        ensures
            p == self.spec_to_point(),
    {
        Point { x: self.x, y: self.y }
    }
}

impl Default for Vec2 {
    fn default() -> (v: Vec2)
        ensures
            v == (Vec2 { x: 0, y: 0 }),
    {
        Vec2 { x: 0, y: 0 }
    }
}

impl core::ops::Sub<Vec2> for Vec2 {
    type Output = Vec2;

    /// The difference of two vectors, stopping at zero on each axis.
    fn sub(self, other: Vec2) -> (r: Vec2)
        ensures
            r == (Vec2 { x: self.x.saturating_sub(other.x), y: self.y.saturating_sub(other.y) }),
    {
        Vec2 { x: self.x.saturating_sub(other.x), y: self.y.saturating_sub(other.y) }
    }
}

impl vstd::std_specs::ops::SubSpecImpl<Vec2> for Vec2 {
    open spec fn obeys_sub_spec() -> bool {
        true
    }

    open spec fn sub_req(self, other: Vec2) -> bool {
        true
    }

    open spec fn sub_spec(self, other: Vec2) -> Vec2 {
        Vec2 { x: self.x.saturating_sub(other.x), y: self.y.saturating_sub(other.y) }
    }
}

/// Insets from the edges of a rectangle.
///
/// The inset value for each edge is a delta measured from the center of the
/// rectangle towards that edge: a positive inset moves the edge away from the
/// center, a negative inset moves it towards the center.
#[derive(Clone, Copy, Debug, PartialEq, Eq, Structural)]
pub struct Insets {
    /// The delta of the left edge.
    pub x0: InsetCoord,
    /// The delta of the top edge.
    pub y0: InsetCoord,
    /// The delta of the right edge.
    pub x1: InsetCoord,
    /// The delta of the bottom edge.
    pub y1: InsetCoord,
}

impl Insets {
    /// Insets that move no edge.
    pub open spec fn spec_zero() -> Insets {
        Insets { x0: 0, y0: 0, x1: 0, y1: 0 }
    }

    /// Insets that move no edge.
    #[verifier::when_used_as_spec(spec_zero)]
    pub fn zero() -> (i: Insets)
        ensures
            i == Insets::spec_zero(),
    {
        Insets { x0: 0, y0: 0, x1: 0, y1: 0 }
    }

    /// Creates insets from the four deltas.
    pub fn new(x0: InsetCoord, y0: InsetCoord, x1: InsetCoord, y1: InsetCoord) -> (i: Insets)
        ensures
            i == (Insets { x0, y0, x1, y1 }),
    {
        Insets { x0, y0, x1, y1 }
    }

    /// The same delta on all four edges.
    pub fn uniform(d: InsetCoord) -> (i: Insets)
        ensures
            i == (Insets { x0: d, y0: d, x1: d, y1: d }),
    {
        Insets { x0: d, y0: d, x1: d, y1: d }
    }
}

impl Default for Insets {
    fn default() -> (i: Insets)
        ensures
            i == (Insets { x0: 0, y0: 0, x1: 0, y1: 0 }),
    {
        Insets { x0: 0, y0: 0, x1: 0, y1: 0 }
    }
}

impl core::ops::Add<Rect> for Insets {
    type Output = Rect;

    /// The rectangle `other` with each edge moved outwards by its inset.
    fn add(self, other: Rect) -> (r: Rect)
        ensures
            r == other.spec_inset(self),
    {
        // The deltas are negated in a wider type: the smallest delta has no negative.
        let left: i32 = -(self.x0 as i32);
        let top: i32 = -(self.y0 as i32);
        Rect {
            x0: offset_wide(other.x0, left),
            y0: offset_wide(other.y0, top),
            x1: offset_coord(other.x1, self.x1),
            y1: offset_coord(other.y1, self.y1),
        }
    }
}

impl vstd::std_specs::ops::AddSpecImpl<Rect> for Insets {
    open spec fn obeys_add_spec() -> bool {
        true
    }

    open spec fn add_req(self, other: Rect) -> bool {
        true
    }

    open spec fn add_spec(self, other: Rect) -> Rect {
        other.spec_inset(self)
    }
}

/// Moves a coordinate by a delta of any size and clamps the result to the screen range.
fn offset_wide(c: ScreenCoord, delta: i32) -> (r: ScreenCoord)
    requires
        -0x10000 <= delta <= 0x10000,
    ensures
        r == clamp_coord(c + delta),
{
    let moved: i32 = c as i32 + delta;
    if moved < 0 {
        0
    } else if moved > 255 {
        255
    } else {
        moved as ScreenCoord
    }
}

/// A rectangle.
#[derive(Clone, Copy, Debug, PartialEq, Eq, Structural)]
pub struct Rect {
    /// The minimum x coordinate (left edge).
    pub x0: ScreenCoord,
    /// The minimum y coordinate (top edge in y-down spaces).
    pub y0: ScreenCoord,
    /// The maximum x coordinate (right edge).
    pub x1: ScreenCoord,
    /// The maximum y coordinate (bottom edge in y-down spaces).
    pub y1: ScreenCoord,
}

impl Rect {
    /// The empty rectangle at the origin.
    pub open spec fn spec_zero() -> Rect {
        Rect { x0: 0, y0: 0, x1: 0, y1: 0 }
    }

    /// The empty rectangle at the origin.
    #[verifier::when_used_as_spec(spec_zero)]
    pub fn zero() -> (r: Rect)
        ensures
            r == Rect::spec_zero(),
    {
        Rect { x0: 0, y0: 0, x1: 0, y1: 0 }
    }

    /// A new rectangle from minimum and maximum coordinates.
    pub fn new(x0: ScreenCoord, y0: ScreenCoord, x1: ScreenCoord, y1: ScreenCoord) -> (r: Rect)
        ensures
            r == (Rect { x0, y0, x1, y1 }),
    {
        Rect { x0, y0, x1, y1 }
    }

    /// The rectangle with the given origin and size.
    pub open spec fn spec_from_origin_size(point: Point, size: Size) -> Rect {
        Rect {
            x0: point.x,
            y0: point.y,
            x1: point.x.saturating_add(size.width),
            y1: point.y.saturating_add(size.height),
        }
    }

    /// A new rectangle from origin and size. The far edges stop at the
    /// largest coordinate.
    #[verifier::when_used_as_spec(spec_from_origin_size)]
    pub fn from_origin_size(point: Point, size: Size) -> (r: Rect)
        ensures
            r == Rect::spec_from_origin_size(point, size),
            point.x + size.width <= SCREEN_MAX ==> r.x1 == point.x + size.width,
            point.y + size.height <= SCREEN_MAX ==> r.y1 == point.y + size.height,
    {
        Rect {
            x0: point.x,
            y0: point.y,
            x1: point.x.saturating_add(size.width),
            y1: point.y.saturating_add(size.height),
        }
    }

    /// A new rectangle from two points: the first gives the minimum
    /// coordinates, the second the maximum coordinates.
    pub fn from_points(p0: Point, p1: Point) -> (r: Rect)
        ensures
            r == (Rect { x0: p0.x, y0: p0.y, x1: p1.x, y1: p1.y }),
    {
        Rect::new(p0.x, p0.y, p1.x, p1.y)
    }

    /// Create a new `Rect` with the same size as `self` and a new origin.
    pub fn with_origin(self, origin: Point) -> (r: Rect)
        ensures
            r == Rect::spec_from_origin_size(origin, self.spec_size()),
    {
        Rect::from_origin_size(origin, self.size())
    }

    /// Create a new `Rect` with the same origin as `self` and a new size.
    pub fn with_size(self, size: Size) -> (r: Rect)
        ensures
            r == Rect::spec_from_origin_size(self.spec_origin(), size),
    {
        Rect::from_origin_size(Point { x: self.x0, y: self.y0 }, size)
    }

    /// The width of the rectangle; zero where the right edge lies left of the left edge.
    pub open spec fn spec_width(&self) -> ScreenCoord {
        self.x1.saturating_sub(self.x0)
    }

    /// The width of the rectangle; zero where the right edge lies left of the left edge.
    #[verifier::when_used_as_spec(spec_width)]
    pub fn width(&self) -> (w: ScreenCoord)
        ensures
            w == self.spec_width(),
    {
        self.x1.saturating_sub(self.x0)
    }

    /// The height of the rectangle; zero where the bottom edge lies above the top edge.
    pub open spec fn spec_height(&self) -> ScreenCoord {
        self.y1.saturating_sub(self.y0)
    }

    /// The height of the rectangle; zero where the bottom edge lies above the top edge.
    #[verifier::when_used_as_spec(spec_height)]
    pub fn height(&self) -> (h: ScreenCoord)
        ensures
            h == self.spec_height(),
    {
        self.y1.saturating_sub(self.y0)
    }

    /// Width and height of the rectangle.
    pub open spec fn spec_size(self) -> Size {
        Size { width: self.spec_width(), height: self.spec_height() }
    }

    /// Width and height of the rectangle.
    #[verifier::when_used_as_spec(spec_size)]
    pub fn size(self) -> (s: Size)
        ensures
            s == self.spec_size(),
    {
        Size { width: self.width(), height: self.height() }
    }

    /// The smallest rectangle enclosing two rectangles.
    pub open spec fn spec_union(&self, other: Rect) -> Rect {
        Rect {
            x0: spec_min(self.x0, other.x0),
            y0: spec_min(self.y0, other.y0),
            x1: spec_max(self.x1, other.x1),
            y1: spec_max(self.y1, other.y1),
        }
    }

    /// The smallest rectangle enclosing two rectangles.
    ///
    /// Results are valid only if width and height are non-negative.
    #[verifier::when_used_as_spec(spec_union)]
    pub fn union(&self, other: Rect) -> (r: Rect)
        ensures
            r == self.spec_union(other),
    {
        Rect {
            x0: min(self.x0, other.x0),
            y0: min(self.y0, other.y0),
            x1: max(self.x1, other.x1),
            y1: max(self.y1, other.y1),
        }
    }

    /// Whether `pt` lies inside the normalized rectangle, the minimum edges
    /// included and the maximum edges excluded.
    pub open spec fn covers(&self, pt: Point) -> bool {
        &&& spec_min(self.x0, self.x1) <= pt.x < spec_max(self.x0, self.x1)
        &&& spec_min(self.y0, self.y1) <= pt.y < spec_max(self.y0, self.y1)
    }

    /// The winding number of the rectangle's outline around a point.
    ///
    /// It is 0 outside the rectangle. Inside, it is 1 where both axes run the
    /// same way and -1 where exactly one axis is flipped. If the plane is
    /// tiled with rectangles, the winding number is nonzero for exactly one
    /// of them.
    pub fn winding(&self, pt: Point) -> (w: i32)
        ensures
            !self.covers(pt) ==> w == 0,
            self.covers(pt) && (self.x1 > self.x0) == (self.y1 > self.y0) ==> w == 1,
            self.covers(pt) && (self.x1 > self.x0) != (self.y1 > self.y0) ==> w == -1,
    {
        let xmin: ScreenCoord = min(self.x0, self.x1);
        let xmax: ScreenCoord = max(self.x0, self.x1);
        let ymin: ScreenCoord = min(self.y0, self.y1);
        let ymax: ScreenCoord = max(self.y0, self.y1);
        if pt.x >= xmin && pt.x < xmax && pt.y >= ymin && pt.y < ymax {
            if (self.x1 > self.x0) != (self.y1 > self.y0) {
                -1
            } else {
                1
            }
        } else {
            0
        }
    }

    /// The intersection of two rectangles, with its far edges raised to the
    /// near edges where the two do not overlap.
    pub open spec fn spec_intersect(&self, other: Rect) -> Rect {
        let x0 = spec_max(self.x0, other.x0);
        let y0 = spec_max(self.y0, other.y0);
        let x1 = spec_min(self.x1, other.x1);
        let y1 = spec_min(self.y1, other.y1);
        Rect { x0, y0, x1: spec_max(x1, x0), y1: spec_max(y1, y0) }
    }

    /// The intersection of two rectangles.
    ///
    /// The result is zero-area if either input has negative width or
    /// height. The result always has non-negative width and height.
    #[verifier::when_used_as_spec(spec_intersect)]
    pub fn intersect(&self, other: Rect) -> (r: Rect)
        ensures
            r == self.spec_intersect(other),
            r.x0 <= r.x1,
            r.y0 <= r.y1,
    {
        let x0: ScreenCoord = max(self.x0, other.x0);
        let y0: ScreenCoord = max(self.y0, other.y0);
        let x1: ScreenCoord = min(self.x1, other.x1);
        let y1: ScreenCoord = min(self.y1, other.y1);
        Rect { x0, y0, x1: max(x1, x0), y1: max(y1, y0) }
    }

    /// The area of the rectangle: width times height.
    pub open spec fn spec_area(&self) -> u16 {
        (self.spec_width() * self.spec_height()) as u16
    }

    /// The area of the rectangle. A rectangle is empty when its area is zero.
    #[verifier::when_used_as_spec(spec_area)]
    pub fn area(&self) -> (a: u16)
        ensures
            a == self.spec_area(),
            a == self.spec_width() * self.spec_height(),
            a == 0 <==> (self.spec_width() == 0 || self.spec_height() == 0),
    {
        let w: u16 = self.width() as u16;
        let h: u16 = self.height() as u16;
        assert(w * h <= 255 * 255) by (nonlinear_arith)
            requires
                w <= 255,
                h <= 255,
        ;
        assert(w * h == 0 <==> (w == 0 || h == 0)) by (nonlinear_arith);
        w * h
    }

    /// The origin of the rectangle.
    pub open spec fn spec_origin(&self) -> Point {
        Point { x: self.x0, y: self.y0 }
    }

    /// The origin of the rectangle.
    ///
    /// This is the top left corner in a y-down space and with
    /// non-negative width and height.
    #[verifier::when_used_as_spec(spec_origin)]
    pub fn origin(&self) -> (p: Point)
        ensures
            p == self.spec_origin(),
    {
        Point { x: self.x0, y: self.y0 }
    }

    /// The rectangle with each edge moved outwards by its inset and clamped
    /// to the screen range.
    pub open spec fn spec_inset(self, insets: Insets) -> Rect {
        Rect {
            x0: clamp_coord(self.x0 - insets.x0),
            y0: clamp_coord(self.y0 - insets.y0),
            x1: clamp_coord(self.x1 + insets.x1),
            y1: clamp_coord(self.y1 + insets.y1),
        }
    }

    /// Create a new `Rect` by applying the [`Insets`]: a positive inset moves
    /// its edge away from the center.
    #[verifier::when_used_as_spec(spec_inset)]
    pub fn inset(self, insets: Insets) -> (r: Rect)
        ensures
            r == self.spec_inset(insets),
    {
        self + insets
    }

    /// The insets that lead from `other` to this rectangle.
    pub open spec fn spec_insets_from(self, other: Rect) -> Insets {
        Insets {
            x0: (other.x0 - self.x0) as InsetCoord,
            y0: (other.y0 - self.y0) as InsetCoord,
            x1: (self.x1 - other.x1) as InsetCoord,
            y1: (self.y1 - other.y1) as InsetCoord,
        }
    }

    /// The rectangle moved by `v` towards larger coordinates.
    pub open spec fn spec_translate(self, v: Vec2) -> Rect {
        Rect {
            x0: self.x0.saturating_add(v.x),
            y0: self.y0.saturating_add(v.y),
            x1: self.x1.saturating_add(v.x),
            y1: self.y1.saturating_add(v.y),
        }
    }

    /// The rectangle moved by `v` towards the origin.
    pub open spec fn spec_translate_back(self, v: Vec2) -> Rect {
        Rect {
            x0: self.x0.saturating_sub(v.x),
            y0: self.y0.saturating_sub(v.y),
            x1: self.x1.saturating_sub(v.x),
            y1: self.y1.saturating_sub(v.y),
        }
    }
}

impl Default for Rect {
    fn default() -> (r: Rect)
        ensures
            r == (Rect { x0: 0, y0: 0, x1: 0, y1: 0 }),
    {
        Rect { x0: 0, y0: 0, x1: 0, y1: 0 }
    }
}

impl core::ops::Sub<Rect> for Rect {
    type Output = Insets;

    /// The insets that lead from `other` to `self`.
    fn sub(self, other: Rect) -> (r: Insets)
        ensures
            r == self.spec_insets_from(other),
    {
        let x0: InsetCoord = other.x0 as InsetCoord - self.x0 as InsetCoord;
        let y0: InsetCoord = other.y0 as InsetCoord - self.y0 as InsetCoord;
        let x1: InsetCoord = self.x1 as InsetCoord - other.x1 as InsetCoord;
        let y1: InsetCoord = self.y1 as InsetCoord - other.y1 as InsetCoord;
        Insets { x0, y0, x1, y1 }
    }
}

impl vstd::std_specs::ops::SubSpecImpl<Rect> for Rect {
    open spec fn obeys_sub_spec() -> bool {
        true
    }

    open spec fn sub_req(self, other: Rect) -> bool {
        true
    }

    open spec fn sub_spec(self, other: Rect) -> Insets {
        self.spec_insets_from(other)
    }
}

impl core::ops::Sub<Vec2> for Rect {
    type Output = Rect;

    /// The rectangle moved by `v` towards the origin, each edge stopping at zero.
    fn sub(self, v: Vec2) -> (r: Rect)
        ensures
            r == self.spec_translate_back(v),
    {
        Rect {
            x0: self.x0.saturating_sub(v.x),
            y0: self.y0.saturating_sub(v.y),
            x1: self.x1.saturating_sub(v.x),
            y1: self.y1.saturating_sub(v.y),
        }
    }
}

impl vstd::std_specs::ops::SubSpecImpl<Vec2> for Rect {
    open spec fn obeys_sub_spec() -> bool {
        true
    }

    open spec fn sub_req(self, v: Vec2) -> bool {
        true
    }

    open spec fn sub_spec(self, v: Vec2) -> Rect {
        self.spec_translate_back(v)
    }
}

impl core::ops::Add<Vec2> for Rect {
    type Output = Rect;

    /// The rectangle moved by `v`, each edge stopping at the largest coordinate.
    fn add(self, v: Vec2) -> (r: Rect)
        ensures
            r == self.spec_translate(v),
    {
        Rect {
            x0: self.x0.saturating_add(v.x),
            y0: self.y0.saturating_add(v.y),
            x1: self.x1.saturating_add(v.x),
            y1: self.y1.saturating_add(v.y),
        }
    }
}

impl vstd::std_specs::ops::AddSpecImpl<Vec2> for Rect {
    open spec fn obeys_add_spec() -> bool {
        true
    }

    open spec fn add_req(self, v: Vec2) -> bool {
        true
    }

    open spec fn add_spec(self, v: Vec2) -> Rect {
        self.spec_translate(v)
    }
}

impl core::ops::Add<Insets> for Rect {
    type Output = Rect;

    /// The rectangle with each edge moved outwards by its inset.
    fn add(self, other: Insets) -> (r: Rect)
        ensures
            r == self.spec_inset(other),
    {
        other + self
    }
}

impl vstd::std_specs::ops::AddSpecImpl<Insets> for Rect {
    open spec fn obeys_add_spec() -> bool {
        true
    }

    open spec fn add_req(self, other: Insets) -> bool {
        true
    }

    open spec fn add_spec(self, other: Insets) -> Rect {
        self.spec_inset(other)
    }
}

/// A single line.
#[derive(Clone, Copy, Debug, PartialEq, Eq, Structural)]
pub struct Line {
    /// The line's start point.
    pub p0: Point,
    /// The line's end point.
    pub p1: Point,
}

/// A datatype representing color.
///
/// Currently this is only a 32 bit RGBA value.
#[derive(Clone, Copy, Debug, PartialEq, Eq, Structural)]
pub enum Color {
    /// Red, green, blue and alpha, eight bits each.
    Rgba32(u32),
}

impl Color {
    /// Black.
    pub fn black() -> (c: Color)
        ensures
            c == Color::Rgba32(0x000000),
    {
        Color::Rgba32(0x000000)
    }

    /// White.
    pub fn white() -> (c: Color)
        ensures
            c == Color::Rgba32(0xffffff),
    {
        Color::Rgba32(0xffffff)
    }
}

/// The intersection of two rectangles never has a far edge before its near
/// edge, whether or not the two overlap.
pub proof fn lemma_intersect_is_normalized(a: Rect, b: Rect)
    ensures
        a.spec_intersect(b).x0 <= a.spec_intersect(b).x1,
        a.spec_intersect(b).y0 <= a.spec_intersect(b).y1,
        a.spec_intersect(b).spec_width() == a.spec_intersect(b).x1 - a.spec_intersect(b).x0,
        a.spec_intersect(b).spec_height() == a.spec_intersect(b).y1 - a.spec_intersect(b).y0,
{
}

/// The union of a rectangle with itself is that rectangle.
pub proof fn lemma_union_with_self(a: Rect)
    ensures
        a.spec_union(a) == a,
{
}

/// A rectangle that encloses another is unchanged by the union with it.
pub proof fn lemma_union_absorbs_enclosed(outer: Rect, inner: Rect)
    requires
        outer.x0 <= inner.x0,
        outer.y0 <= inner.y0,
        inner.x1 <= outer.x1,
        inner.y1 <= outer.y1,
    ensures
        outer.spec_union(inner) == outer,
{
}

} // verus!
