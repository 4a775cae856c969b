//! The part of a widget that has to be drawn again, kept as one bounding rectangle.

use vstd::prelude::*;
use crate::geometry::{Rect, Vec2};

verus! {

/// A region of a widget, generally used to describe what needs to be drawn.
///
/// The region is the smallest rectangle that encloses everything added to it.
#[derive(Clone, Copy, Debug, PartialEq, Eq, Structural)]
pub struct Region(Rect);

/// Whether a rectangle has no area.
pub open spec fn rect_is_empty(r: Rect) -> bool {
    r.spec_width() == 0 || r.spec_height() == 0
}

/// Whether `outer` encloses `inner`.
pub open spec fn rect_encloses(outer: Rect, inner: Rect) -> bool {
    &&& outer.x0 <= inner.x0
    &&& outer.y0 <= inner.y0
    &&& inner.x1 <= outer.x1
    &&& inner.y1 <= outer.y1
}

impl Region {
    /// The rectangle that bounds the region.
    pub closed spec fn view(&self) -> Rect {
        self.0
    }

    /// The bound of a region after `rect` is added to a region with bound `bound`.
    pub open spec fn added(bound: Rect, rect: Rect) -> Rect {
        if rect_is_empty(rect) {
            bound
        } else if rect_is_empty(bound) {
            rect
        } else {
            bound.spec_union(rect)
        }
    }

    /// An empty region.
    pub fn empty() -> (r: Region)
        ensures
            r@ == Rect::spec_zero(),
    {
        Region(Rect { x0: 0, y0: 0, x1: 0, y1: 0 })
    }

    /// The region that `rect` bounds.
    pub fn from_rect(rect: Rect) -> (r: Region)
        ensures
            r@ == rect,
    {
        Region(rect)
    }

    /// Returns the smallest `Rect` that encloses the entire region.
    pub fn to_rect(&self) -> (r: Rect)
        ensures
            r == self@,
    {
        self.0
    }

    /// Returns `true` if `self` intersects with `other`: the two share a
    /// part with an area.
    pub fn intersects(&self, other: Rect) -> (b: bool)
        ensures
            b == !rect_is_empty(self@.spec_intersect(other)),
    {
        self.0.intersect(other).area() > 0
    }

    /// Returns `true` if this region is empty.
    pub fn is_empty(&self) -> (b: bool)
        ensures
            b == rect_is_empty(self@),
    {
        self.0.width() == 0 || self.0.height() == 0
    }

    /// Adds a new `Rect` to this region.
    ///
    /// This differs from `Rect::union` in its treatment of empty rectangles:
    /// an empty rectangle has no effect, and an empty region takes the new
    /// rectangle as it is.
    pub fn add_rect(&mut self, rect: Rect)
        ensures
            final(self)@ == Region::added(old(self)@, rect),
    {
        if rect.width() == 0 || rect.height() == 0 {
        } else if self.is_empty() {
            self.0 = rect;
        } else {
            self.0 = self.0.union(rect);
        }
    }

    /// Modifies this region by including everything in the other region.
    pub fn merge_with(&mut self, other: Region)
        ensures
            final(self)@ == Region::added(old(self)@, other@),
    {
        self.add_rect(other.0);
    }

    /// Modifies this region by intersecting it with the given rectangle.
    pub fn intersect_with(&mut self, rect: Rect)
        ensures
            final(self)@ == old(self)@.spec_intersect(rect),
    {
        self.0 = self.0.intersect(rect);
    }

    /// Moves the region by `offset`, each edge stopping at the largest coordinate.
    pub fn translate(&mut self, offset: Vec2)
        ensures
            final(self)@ == old(self)@.spec_translate(offset),
    {
        self.0 = self.0 + offset;
    }
}

impl core::ops::AddAssign<Vec2> for Region {
    /// Moves the region by `offset`, each edge stopping at the largest coordinate.
    fn add_assign(&mut self, offset: Vec2)
        ensures
            final(self)@ == old(self)@.spec_translate(offset),
    {
        self.0 = self.0 + offset;
    }
}

impl From<Rect> for Region {
    fn from(src: Rect) -> (r: Region)
        ensures
            r@ == src,
    {
        Region(src)
    }
}

impl vstd::std_specs::convert::FromSpecImpl<Rect> for Region {
    open spec fn obeys_from_spec() -> bool {
        true
    }

    closed spec fn from_spec(src: Rect) -> Region {
        Region(src)
    }
}

/// The region made from a rectangle is bounded by that rectangle.
pub proof fn lemma_region_from_rect(src: Rect)
    ensures
        <Region as vstd::std_specs::convert::FromSpec<Rect>>::from_spec(src)@ == src,
{
}

/// Adding a rectangle that the region's bound already encloses leaves the
/// region as it is.
pub proof fn lemma_add_enclosed_rect(bound: Rect, rect: Rect)
    requires
        rect_encloses(bound, rect),
    ensures
        Region::added(bound, rect) == bound,
{
}

/// Adding the same rectangle a second time changes nothing.
pub proof fn lemma_add_rect_twice(bound: Rect, rect: Rect)
    ensures
        Region::added(Region::added(bound, rect), rect) == Region::added(bound, rect),
{
}

/// Adding a rectangle never shrinks a region that is not empty, and the
/// result encloses every rectangle with an area that was added.
pub proof fn lemma_add_rect_grows(bound: Rect, rect: Rect)
    ensures
        !rect_is_empty(bound) ==> rect_encloses(Region::added(bound, rect), bound),
        !rect_is_empty(rect) ==> rect_encloses(Region::added(bound, rect), rect),
{
}

} // verus!
