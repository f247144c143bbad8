//! Laws that relate several operations on hotspots.
use vstd::prelude::*;

use crate::coordinate::ImageDimensions;
use crate::hotspot::{Hotspot, Rect};
use crate::overlap::overlap_fraction;
use crate::repr::{InternalRepr, PixelRepr};
use crate::scalar::{lemma_scalar_round_trip, round_trip_tolerance};

verus! {

/// `back` differs from `orig` by at most `tol` in every value.
pub open spec fn close_to(back: int, orig: int, tol: int) -> bool {
    orig - tol <= back <= orig + tol
}

/// Each value of `back` lies within the round trip tolerance of the matching
/// value of `orig`, for the side of the image that the value runs along.
pub open spec fn within_round_trip_tolerance(
    back: Rect,
    orig: Rect,
    dims: ImageDimensions,
) -> bool {
    &&& close_to(back.x_lo, orig.x_lo, round_trip_tolerance(dims.width as int))
    &&& close_to(back.x_hi, orig.x_hi, round_trip_tolerance(dims.width as int))
    &&& close_to(back.y_lo, orig.y_lo, round_trip_tolerance(dims.height as int))
    &&& close_to(back.y_hi, orig.y_hi, round_trip_tolerance(dims.height as int))
}

/// Overlap is symmetric: `a.overlap(&b)` and `b.overlap(&a)` give the same
/// ratio for any two hotspots of one representation.
pub proof fn lemma_overlap_symmetric<R: InternalRepr>(a: Hotspot<R>, b: Hotspot<R>)
    ensures
        overlap_fraction(a@, b@) == overlap_fraction(b@, a@),
{
    let (x, y) = (a@, b@);
    assert(x.intersection_area(y) == y.intersection_area(x));
}

/// Converting a pixel hotspot inside an image to percentages and back to
/// pixels with the same image dimensions reproduces every value within
/// `ceil(side / SCALAR_MAX) + 1` pixels of its side.
pub proof fn lemma_round_trip(h: Hotspot<PixelRepr>, dims: ImageDimensions)
    requires
        h@.wf(),
        dims.is_positive(),
        h@.within(dims),
    ensures
        within_round_trip_tolerance(h@.to_percentage(dims).to_pixels(dims), h@, dims),
{
    let r = h@;
    lemma_scalar_round_trip(r.x_lo, dims.width as int);
    lemma_scalar_round_trip(r.x_hi, dims.width as int);
    lemma_scalar_round_trip(r.y_lo, dims.height as int);
    lemma_scalar_round_trip(r.y_hi, dims.height as int);
}

} // verus!
