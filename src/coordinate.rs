//! Points and image sizes in fixed-point scalars.
use vstd::prelude::*;

use crate::scalar::CoordinateValue;

verus! {

/// A point in two-dimensional space.
///
/// Both values are non-negative scalars. In a pixel hotspot they are absolute
/// offsets into the image; in a percentage hotspot they are fractions of the
/// full scalar range, standing for fractions of the image's extent.
#[derive(Debug, Clone, Copy, Hash, PartialEq, Eq, Structural, PartialOrd, Ord)]
pub struct Coordinate {
    pub x: CoordinateValue,
    pub y: CoordinateValue,
}

/// The dimensions of an image: `x` values scale with the width, `y` values
/// with the height.
#[derive(Debug, Clone, Copy, Hash, PartialEq, Eq, Structural, PartialOrd, Ord)]
pub struct ImageDimensions {
    pub height: CoordinateValue,
    pub width: CoordinateValue,
}

impl ImageDimensions {
    /// Both sides are non-zero, as a conversion to percentages divides by them.
    pub open spec fn is_positive(self) -> bool {
        self.width > 0 && self.height > 0
    }

    /// The point lies inside the image, borders included.
    pub open spec fn holds(self, c: Coordinate) -> bool {
        c.x <= self.width && c.y <= self.height
    }
}

} // verus!
