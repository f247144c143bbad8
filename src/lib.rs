//! Rectangular hotspots over images, stored in fixed-point coordinates, with
//! exact conversions between pixel and percentage representations and exact
//! overlap metrics.
use vstd::prelude::*;

pub mod coordinate;
pub mod hotspot;
pub mod lemmas;
pub mod overlap;
pub mod repr;
pub mod scalar;
pub mod wire;

pub use coordinate::{Coordinate, ImageDimensions};
pub use hotspot::{Hotspot, HotspotBuilder, Rect};
pub use overlap::OverlapRatio;

verus! {

} // verus!
