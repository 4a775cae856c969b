//! The layout type for boxes: the smallest and the largest size that a
//! parent allows its child.

use vstd::prelude::*;
use crate::geometry::{max, min, SCREEN_MAX, ScreenCoord, Size};

verus! {

/// Constraints for layout.
///
/// A parent hands constraints to its child: the child picks a size between
/// `min` and `max` on each axis. An extent of [`SCREEN_MAX`] in `max` leaves
/// that axis unbounded.
#[derive(Clone, Copy, Debug, PartialEq, Eq, Structural)]
pub struct BoxConstraints {
    min: Size,
    max: Size,
}

/// An extent made smaller by `diff`. An unbounded extent stays unbounded;
/// any other stops at zero.
pub open spec fn spec_shrink_extent(v: ScreenCoord, diff: ScreenCoord) -> ScreenCoord {
    if v == SCREEN_MAX {
        SCREEN_MAX
    } else {
        v.saturating_sub(diff)
    }
}

/// An extent made smaller by `diff`. An unbounded extent stays unbounded;
/// any other stops at zero.
#[verifier::when_used_as_spec(spec_shrink_extent)]
pub fn shrink_extent(v: ScreenCoord, diff: ScreenCoord) -> (r: ScreenCoord)
    ensures
        r == spec_shrink_extent(v, diff),
{
    if v == SCREEN_MAX {
        SCREEN_MAX
    } else {
        v.saturating_sub(diff)
    }
}

impl BoxConstraints {
    /// The smallest size that the constraints allow.
    pub closed spec fn spec_min(&self) -> Size {
        self.min
    }

    /// The largest size that the constraints allow.
    pub closed spec fn spec_max(&self) -> Size {
        self.max
    }

    /// Whether the minimum is at most the maximum on both axes.
    pub open spec fn is_valid(&self) -> bool {
        &&& self.spec_min().width <= self.spec_max().width
        &&& self.spec_min().height <= self.spec_max().height
    }

    /// Whether `size` satisfies the constraints.
    pub open spec fn admits(&self, size: Size) -> bool {
        size.within(self.spec_min(), self.spec_max())
    }

    /// Create a new box constraints object.
    pub fn new(min: Size, max: Size) -> (bc: BoxConstraints)
        ensures
            bc.spec_min() == min,
            bc.spec_max() == max,
    {
        BoxConstraints { min: min.expand(), max: max.expand() }
    }

    /// Constraints that leave both axes unbounded and ask for no minimum.
    pub fn unbounded() -> (bc: BoxConstraints)
        ensures
            bc.spec_min() == Size::spec_zero(),
            bc.spec_max() == (Size { width: SCREEN_MAX, height: SCREEN_MAX }),
    {
        BoxConstraints {
            min: Size { width: 0, height: 0 },
            max: Size { width: SCREEN_MAX, height: SCREEN_MAX },
        }
    }

    /// Create a "tight" box constraints object: only `size` satisfies it.
    pub fn tight(size: Size) -> (bc: BoxConstraints)
        ensures
            bc.spec_min() == size,
            bc.spec_max() == size,
    {
        BoxConstraints { min: size, max: size }
    }

    /// The constraints with the minimum dropped to zero.
    pub open spec fn spec_loosen(&self) -> BoxConstraints {
        BoxConstraints::from_parts(Size::spec_zero(), self.spec_max())
    }

    /// The constraints with the given minimum and maximum.
    pub closed spec fn from_parts(min: Size, max: Size) -> BoxConstraints {
        BoxConstraints { min, max }
    }

    /// `from_parts` builds the constraints that the two accessors read back,
    /// and constraints with equal parts are equal.
    pub broadcast proof fn lemma_from_parts(min: Size, max: Size)
        ensures
            (#[trigger] BoxConstraints::from_parts(min, max)).spec_min() == min,
            BoxConstraints::from_parts(min, max).spec_max() == max,
    {
    }

    /// Constraints are determined by their minimum and maximum.
    pub proof fn lemma_parts_determine(self)
        ensures
            self == BoxConstraints::from_parts(self.spec_min(), self.spec_max()),
    {
    }

    /// Create a "loose" version of the constraints.
    ///
    /// Make a version with zero minimum size, but the same maximum size.
    #[verifier::when_used_as_spec(spec_loosen)]
    pub fn loosen(&self) -> (bc: BoxConstraints)
        ensures
            bc == self.spec_loosen(),
            bc.spec_min() == Size::spec_zero(),
            bc.spec_max() == self.spec_max(),
    {
        BoxConstraints { min: Size { width: 0, height: 0 }, max: self.max }
    }

    /// The size clamped into the constraints on each axis.
    pub open spec fn spec_constrain(&self, size: Size) -> Size {
        size.spec_clamp(self.spec_min(), self.spec_max())
    }

    /// Clamp a given size so that it fits within the constraints.
    #[verifier::when_used_as_spec(spec_constrain)]
    pub fn constrain(&self, size: Size) -> (r: Size)
        ensures
            r == self.spec_constrain(size),
            self.is_valid() ==> self.admits(r),
            self.admits(size) ==> r == size,
    {
        size.expand().clamp(self.min, self.max)
    }

    /// Returns the max size of these constraints.
    #[verifier::when_used_as_spec(spec_max)]
    pub fn max(&self) -> (s: Size)
        ensures
            s == self.spec_max(),
    {
        self.max
    }

    /// Returns the min size of these constraints.
    #[verifier::when_used_as_spec(spec_min)]
    pub fn min(&self) -> (s: Size)
        ensures
            s == self.spec_min(),
    {
        self.min
    }

    /// Whether there is an upper bound on the width.
    pub open spec fn spec_is_width_bounded(&self) -> bool {
        self.spec_max().width != SCREEN_MAX
    }

    /// Whether there is an upper bound on the width.
    #[verifier::when_used_as_spec(spec_is_width_bounded)]
    pub fn is_width_bounded(&self) -> (b: bool)
        ensures
            b == self.spec_is_width_bounded(),
    {
        self.max.width != SCREEN_MAX
    }

    /// Whether there is an upper bound on the height.
    pub open spec fn spec_is_height_bounded(&self) -> bool {
        self.spec_max().height != SCREEN_MAX
    }

    /// Whether there is an upper bound on the height.
    #[verifier::when_used_as_spec(spec_is_height_bounded)]
    pub fn is_height_bounded(&self) -> (b: bool)
        ensures
            b == self.spec_is_height_bounded(),
    {
        self.max.height != SCREEN_MAX
    }

    /// Check to see if these constraints are legit: the minimum must not
    /// exceed the maximum on either axis. A caller that gets `false` holds
    /// constraints that no size satisfies.
    pub fn debug_check(&self) -> (ok: bool)
        ensures
            ok == self.is_valid(),
    {
        self.min.width <= self.max.width && self.min.height <= self.max.height
    }

    /// The constraints shrunk by `diff` on each axis.
    pub open spec fn spec_shrink(&self, diff: Size) -> BoxConstraints {
        BoxConstraints::from_parts(
            Size {
                width: spec_shrink_extent(self.spec_min().width, diff.width),
                height: spec_shrink_extent(self.spec_min().height, diff.height),
            },
            Size {
                width: spec_shrink_extent(self.spec_max().width, diff.width),
                height: spec_shrink_extent(self.spec_max().height, diff.height),
            },
        )
    }

    /// Shrink min and max constraints by size.
    ///
    /// The given size is subtracted from both bounds; each stops at zero,
    /// and an unbounded extent stays unbounded.
    #[verifier::when_used_as_spec(spec_shrink)]
    pub fn shrink(&self, diff: Size) -> (bc: BoxConstraints)
        ensures
            bc == self.spec_shrink(diff),
            self.is_valid() ==> bc.is_valid(),
    {
        let diff = diff.expand();
        let lo = Size {
            width: shrink_extent(self.min.width, diff.width),
            height: shrink_extent(self.min.height, diff.height),
        };
        let hi = Size {
            width: shrink_extent(self.max.width, diff.width),
            height: shrink_extent(self.max.height, diff.height),
        };
        BoxConstraints::new(lo, hi)
    }
}

/// Constraining puts every size inside valid constraints, and leaves a size
/// that is inside already as it is.
pub proof fn lemma_constrain_in_range(bc: BoxConstraints, size: Size)
    requires
        bc.is_valid(),
    ensures
        bc.admits(bc.spec_constrain(size)),
        bc.admits(size) ==> bc.spec_constrain(size) == size,
{
}

/// Constraining a second time changes nothing.
pub proof fn lemma_constrain_idempotent(bc: BoxConstraints, size: Size)
    requires
        bc.is_valid(),
    ensures
        bc.spec_constrain(bc.spec_constrain(size)) == bc.spec_constrain(size),
{
}

/// Loosened constraints are valid, and admit every size that the
/// constraints admitted before.
pub proof fn lemma_loosen_admits_more(bc: BoxConstraints, size: Size)
    ensures
        bc.spec_loosen().is_valid(),
        bc.admits(size) ==> bc.spec_loosen().admits(size),
{
    broadcast use BoxConstraints::lemma_from_parts;

}

} // verus!
