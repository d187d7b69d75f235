//! Per-corner radii of blurred, rounded rectangles.

use vstd::prelude::*;
use kurbo::Vec2;

verus! {

/// `kurbo::Vec2` derives `Default`; its default is the zero vector, whose
/// floating-point components are not stated here.
pub assume_specification[<kurbo::Vec2 as Default>::default]() -> (v: kurbo::Vec2);

/// Per-corner, possibly elliptical, radii of a rounded rectangle.
///
/// Each corner has an x radius and a y radius (the `x`/`y` components of the
/// corresponding [`Vec2`]), matching the semantics of CSS `border-radius`.
#[derive(Clone, Copy, Debug, PartialEq)]
pub struct CornerRadii {
    /// The radii of the top-left corner.
    pub top_left: Vec2,
    /// The radii of the top-right corner.
    pub top_right: Vec2,
    /// The radii of the bottom-left corner.
    pub bottom_left: Vec2,
    /// The radii of the bottom-right corner.
    pub bottom_right: Vec2,
}

impl CornerRadii {
    /// Create a new `CornerRadii` from per-corner elliptical radii.
    pub fn new(top_left: Vec2, top_right: Vec2, bottom_left: Vec2, bottom_right: Vec2) -> (radii:
        Self)
        ensures
            radii.top_left == top_left,
            radii.top_right == top_right,
            radii.bottom_left == bottom_left,
            radii.bottom_right == bottom_right,
    {
        Self { top_left, top_right, bottom_left, bottom_right }
    }
}

impl Default for CornerRadii {
    /// Every corner has the default (zero) radii.
    fn default() -> (radii: Self)
        ensures
            radii.top_right == radii.top_left,
            radii.bottom_left == radii.top_left,
            radii.bottom_right == radii.top_left,
    {
        let zero = Vec2::default();
        Self { top_left: zero, top_right: zero, bottom_left: zero, bottom_right: zero }
    }
}

} // verus!
