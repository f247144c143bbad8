//! The hotspot rectangle, its builder, and the conversions between its two
//! representations.
use vstd::prelude::*;

use vstd::arithmetic::mul::lemma_mul_upper_bound;

use core::marker::PhantomData;

use crate::coordinate::{Coordinate, ImageDimensions};
use crate::overlap::{
    is_unit_fraction, lemma_intersection_bounded, max_fraction, overlap_fraction,
    overlap_in_fraction, shared_span, OverlapRatio,
};
use crate::repr::{InternalRepr, PercentageRepr, PixelRepr};
use crate::scalar::{
    lemma_percentage_of_monotonic, lemma_pixels_of_monotonic, percentage_of, pixels_of,
    scale_to_percentage, scale_to_pixels,
};

verus! {

/// An axis-aligned rectangle over mathematical integers: `x` runs from `x_lo`
/// to `x_hi`, `y` from `y_lo` to `y_hi`.
pub struct Rect {
    pub x_lo: int,
    pub y_lo: int,
    pub x_hi: int,
    pub y_hi: int,
}

pub open spec fn min(a: int, b: int) -> int {
    if a < b {
        a
    } else {
        b
    }
}

pub open spec fn max(a: int, b: int) -> int {
    if a > b {
        a
    } else {
        b
    }
}

impl Rect {
    /// The smallest rectangle that has `a` and `b` as opposite corners.
    pub open spec fn spanning(a: Coordinate, b: Coordinate) -> Rect {
        Rect {
            x_lo: min(a.x as int, b.x as int),
            y_lo: min(a.y as int, b.y as int),
            x_hi: max(a.x as int, b.x as int),
            y_hi: max(a.y as int, b.y as int),
        }
    }

    /// The corners are in canonical order.
    pub open spec fn wf(self) -> bool {
        self.x_lo <= self.x_hi && self.y_lo <= self.y_hi
    }

    pub open spec fn width(self) -> int {
        self.x_hi - self.x_lo
    }

    pub open spec fn height(self) -> int {
        self.y_hi - self.y_lo
    }

    pub open spec fn area(self) -> int {
        self.width() * self.height()
    }

    /// `other` lies inside `self`, borders included.
    pub open spec fn contains(self, other: Rect) -> bool {
        &&& self.x_lo <= other.x_lo
        &&& self.y_lo <= other.y_lo
        &&& other.x_hi <= self.x_hi
        &&& other.y_hi <= self.y_hi
    }

    /// The smallest rectangle that contains both `self` and `other`.
    pub open spec fn hull(self, other: Rect) -> Rect {
        Rect {
            x_lo: min(self.x_lo, other.x_lo),
            y_lo: min(self.y_lo, other.y_lo),
            x_hi: max(self.x_hi, other.x_hi),
            y_hi: max(self.y_hi, other.y_hi),
        }
    }

    /// Both corners lie inside an image of the given dimensions.
    pub open spec fn within(self, dims: ImageDimensions) -> bool {
        &&& 0 <= self.x_lo
        &&& 0 <= self.y_lo
        &&& self.x_hi <= dims.width
        &&& self.y_hi <= dims.height
    }

    /// Each pixel value rescaled to a fraction of the full scalar range.
    pub open spec fn to_percentage(self, dims: ImageDimensions) -> Rect {
        Rect {
            x_lo: percentage_of(self.x_lo, dims.width as int),
            y_lo: percentage_of(self.y_lo, dims.height as int),
            x_hi: percentage_of(self.x_hi, dims.width as int),
            y_hi: percentage_of(self.y_hi, dims.height as int),
        }
    }

    /// Each fraction of the full scalar range rescaled to pixels.
    pub open spec fn to_pixels(self, dims: ImageDimensions) -> Rect {
        Rect {
            x_lo: pixels_of(self.x_lo, dims.width as int),
            y_lo: pixels_of(self.y_lo, dims.height as int),
            x_hi: pixels_of(self.x_hi, dims.width as int),
            y_hi: pixels_of(self.y_hi, dims.height as int),
        }
    }
}

/// A rectangular hotspot, given by its top-right corner (the largest `x` and
/// `y`) and its lower-left corner (the smallest), in the representation `R`.
#[derive(Debug)]
pub struct Hotspot<R: InternalRepr = PixelRepr> {
    top_right: Coordinate,
    lower_left: Coordinate,
    _repr: PhantomData<R>,
}

// Written out: a derived `clone` would clone the `PhantomData` field through an
// impl that Verus has no specification of.
impl<R: InternalRepr> Clone for Hotspot<R> {
    fn clone(&self) -> (h: Self)
        ensures
            h@ == self@,
    {
        proof {
            use_type_invariant(self);
        }
        Hotspot { top_right: self.top_right, lower_left: self.lower_left, _repr: PhantomData }
    }
}

impl<R: InternalRepr> Copy for Hotspot<R> {

}

impl<R: InternalRepr> View for Hotspot<R> {
    type V = Rect;

    closed spec fn view(&self) -> Rect {
        Rect {
            x_lo: self.lower_left.x as int,
            y_lo: self.lower_left.y as int,
            x_hi: self.top_right.x as int,
            y_hi: self.top_right.y as int,
        }
    }
}

impl<R: InternalRepr> Hotspot<R> {
    /// The top-right corner is never below or left of the lower-left corner.
    #[verifier::type_invariant]
    closed spec fn corners_ordered(self) -> bool {
        self.lower_left.x <= self.top_right.x && self.lower_left.y <= self.top_right.y
    }

    /// Builds a hotspot from corners already in canonical order.
    pub(crate) fn from_ordered(top_right: Coordinate, lower_left: Coordinate) -> (h: Self)
        requires
            lower_left.x <= top_right.x,
            lower_left.y <= top_right.y,
        ensures
            h@ == (Rect {
                x_lo: lower_left.x as int,
                y_lo: lower_left.y as int,
                x_hi: top_right.x as int,
                y_hi: top_right.y as int,
            }),
            h@.wf(),
    {
        Hotspot { top_right, lower_left, _repr: PhantomData }
    }

    /// The smallest hotspot that has `a` and `b` as opposite corners.
    pub(crate) fn spanning(a: Coordinate, b: Coordinate) -> (h: Self)
        ensures
            h@ == Rect::spanning(a, b),
            h@.wf(),
    {
        let top_right = Coordinate {
            x: if a.x > b.x {
                a.x
            } else {
                b.x
            },
            y: if a.y > b.y {
                a.y
            } else {
                b.y
            },
        };
        let lower_left = Coordinate {
            x: if a.x < b.x {
                a.x
            } else {
                b.x
            },
            y: if a.y < b.y {
                a.y
            } else {
                b.y
            },
        };
        Self::from_ordered(top_right, lower_left)
    }

    /// The top-right corner as stored, whatever the representation.
    pub fn stored_top_right(&self) -> (c: Coordinate)
        ensures
            c.x == self@.x_hi,
            c.y == self@.y_hi,
    {
        self.top_right
    }

    /// The lower-left corner as stored, whatever the representation.
    pub fn stored_lower_left(&self) -> (c: Coordinate)
        ensures
            c.x == self@.x_lo,
            c.y == self@.y_lo,
    {
        self.lower_left
    }

    /// Combines two hotspots into the smallest one that encloses both.
    pub fn combine_hotspots(this: Self, other: Self) -> (h: Self)
        ensures
            h@ == this@.hull(other@),
            h@.wf(),
            h@.contains(this@),
            h@.contains(other@),
    {
        proof {
            use_type_invariant(&this);
            use_type_invariant(&other);
        }
        let top_right = Coordinate {
            x: if this.top_right.x > other.top_right.x {
                this.top_right.x
            } else {
                other.top_right.x
            },
            y: if this.top_right.y > other.top_right.y {
                this.top_right.y
            } else {
                other.top_right.y
            },
        };
        let lower_left = Coordinate {
            x: if this.lower_left.x < other.lower_left.x {
                this.lower_left.x
            } else {
                other.lower_left.x
            },
            y: if this.lower_left.y < other.lower_left.y {
                this.lower_left.y
            } else {
                other.lower_left.y
            },
        };
        Self::from_ordered(top_right, lower_left)
    }
}

impl<R: InternalRepr> Hotspot<R> {
    /// The area of this hotspot, in squared scalar units.
    pub fn area(&self) -> (r: u32)
        ensures
            r == self@.area(),
    {
        proof {
            use_type_invariant(self);
            lemma_mul_upper_bound(self@.width(), 65535, self@.height(), 65535);
        }
        let w = (self.top_right.x - self.lower_left.x) as u32;
        let h = (self.top_right.y - self.lower_left.y) as u32;
        w * h
    }

    /// The area that this hotspot and `other` have in common.
    pub fn intersection_area(&self, other: &Self) -> (r: u32)
        ensures
            r == self@.intersection_area(other@),
    {
        let w = shared_span(self.lower_left.x, self.top_right.x, other.lower_left.x, other.top_right.x);
        let h = shared_span(self.lower_left.y, self.top_right.y, other.lower_left.y, other.top_right.y);
        proof {
            lemma_mul_upper_bound(w as int, 65535, h as int, 65535);
        }
        w * h
    }

    /// Intersection over union of this hotspot and `other`: 0 for no overlap,
    /// 1 for identical hotspots, and 0 when both have no area.
    ///
    /// Two hotspots of very different sizes report little overlap even when
    /// one lies inside the other; [`Hotspot::overlap_in`] measures that.
    pub fn overlap(&self, other: &Self) -> (r: OverlapRatio)
        ensures
            r@ == overlap_fraction(self@, other@),
            is_unit_fraction(r@),
            self@.disjoint(other@) || self@.area() == 0 || other@.area() == 0 ==> r.numerator
                == 0,
    {
        proof {
            use_type_invariant(self);
            use_type_invariant(other);
            lemma_intersection_bounded(self@, other@);
        }
        let sa = self.area();
        let sb = other.area();
        let si = self.intersection_area(other);
        // The sum of two areas may not fit the intermediate type; it fits u64.
        let su = sa as u64 + sb as u64 - si as u64;
        if su == 0 {
            OverlapRatio { numerator: 0, denominator: 1 }
        } else {
            OverlapRatio { numerator: si as u64, denominator: su }
        }
    }

    /// The share of this hotspot's area that `other` covers: 0 for no
    /// overlap, 1 when this hotspot lies inside `other`, and 0 when this
    /// hotspot has no area. Not symmetric.
    pub fn overlap_in(&self, other: &Self) -> (r: OverlapRatio)
        ensures
            r@ == overlap_in_fraction(self@, other@),
            is_unit_fraction(r@),
    {
        proof {
            use_type_invariant(self);
            use_type_invariant(other);
            lemma_intersection_bounded(self@, other@);
        }
        let sa = self.area();
        let si = self.intersection_area(other);
        if sa == 0 {
            OverlapRatio { numerator: 0, denominator: 1 }
        } else {
            OverlapRatio { numerator: si as u64, denominator: sa as u64 }
        }
    }

    /// The larger of the two containment ratios: how far either hotspot lies
    /// inside the other.
    pub fn max_overlap(&self, other: &Self) -> (r: OverlapRatio)
        ensures
            r@ == max_fraction(
                overlap_in_fraction(self@, other@),
                overlap_in_fraction(other@, self@),
            ),
            is_unit_fraction(r@),
    {
        let p = self.overlap_in(other);
        let q = other.overlap_in(self);
        proof {
            use_type_invariant(self);
            use_type_invariant(other);
            lemma_mul_upper_bound(self@.width(), 65535, self@.height(), 65535);
            lemma_mul_upper_bound(other@.width(), 65535, other@.height(), 65535);
            lemma_intersection_bounded(self@, other@);
            lemma_intersection_bounded(other@, self@);
            lemma_mul_upper_bound(q.numerator as int, 0xffff_ffff, p.denominator as int, 0xffff_ffff);
            lemma_mul_upper_bound(p.numerator as int, 0xffff_ffff, q.denominator as int, 0xffff_ffff);
        }
        if q.numerator * p.denominator <= p.numerator * q.denominator {
            p
        } else {
            q
        }
    }
}

impl Hotspot<PixelRepr> {
    /// The top-right corner: the largest `x` and `y`.
    pub fn top_right(&self) -> (c: Coordinate)
        ensures
            c.x == self@.x_hi,
            c.y == self@.y_hi,
    {
        self.top_right
    }

    /// The corner with the largest `x` and the smallest `y`.
    pub fn top_left(&self) -> (c: Coordinate)
        ensures
            c.x == self@.x_hi,
            c.y == self@.y_lo,
    {
        Coordinate { x: self.top_right.x, y: self.lower_left.y }
    }

    /// The lower-left corner: the smallest `x` and `y`.
    pub fn lower_left(&self) -> (c: Coordinate)
        ensures
            c.x == self@.x_lo,
            c.y == self@.y_lo,
    {
        self.lower_left
    }

    /// The corner with the smallest `x` and the largest `y`.
    pub fn lower_right(&self) -> (c: Coordinate)
        ensures
            c.x == self@.x_lo,
            c.y == self@.y_hi,
    {
        Coordinate { x: self.lower_left.x, y: self.top_right.y }
    }

    /// Re-expresses a pixel hotspot as fractions of an image of the given
    /// dimensions. The hotspot must lie inside the image.
    pub fn as_percentage(this: Self, image_dimensions: ImageDimensions) -> (h: Hotspot<
        PercentageRepr,
    >)
        requires
            image_dimensions.is_positive(),
            this@.within(image_dimensions),
        ensures
            h@ == this@.to_percentage(image_dimensions),
            h@.wf(),
    {
        proof {
            use_type_invariant(&this);
        }
        Hotspot::builder().with_repr::<PercentageRepr>().from_percentage(
            (this.top_right, this.lower_left),
            image_dimensions,
        )
    }
}

/// Converts one stored percentage corner to pixels.
fn corner_to_pixels(c: Coordinate, dims: ImageDimensions) -> (r: Coordinate)
    ensures
        r.x == pixels_of(c.x as int, dims.width as int),
        r.y == pixels_of(c.y as int, dims.height as int),
        dims.holds(r),
{
    Coordinate { x: scale_to_pixels(c.x, dims.width), y: scale_to_pixels(c.y, dims.height) }
}

impl Hotspot<PercentageRepr> {
    /// The top-right corner in pixels of an image of the given dimensions,
    /// rounded to the nearest pixel.
    pub fn top_right(&self, image_dimensions: ImageDimensions) -> (c: Coordinate)
        ensures
            c.x == pixels_of(self@.x_hi, image_dimensions.width as int),
            c.y == pixels_of(self@.y_hi, image_dimensions.height as int),
            image_dimensions.holds(c),
    {
        corner_to_pixels(self.top_right, image_dimensions)
    }

    /// The corner with the largest `x` and the smallest `y`, in pixels of an
    /// image of the given dimensions, rounded to the nearest pixel.
    pub fn top_left(&self, image_dimensions: ImageDimensions) -> (c: Coordinate)
        ensures
            c.x == pixels_of(self@.x_hi, image_dimensions.width as int),
            c.y == pixels_of(self@.y_lo, image_dimensions.height as int),
            image_dimensions.holds(c),
    {
        corner_to_pixels(
            Coordinate { x: self.top_right.x, y: self.lower_left.y },
            image_dimensions,
        )
    }

    /// The lower-left corner in pixels of an image of the given dimensions,
    /// rounded to the nearest pixel.
    pub fn lower_left(&self, image_dimensions: ImageDimensions) -> (c: Coordinate)
        ensures
            c.x == pixels_of(self@.x_lo, image_dimensions.width as int),
            c.y == pixels_of(self@.y_lo, image_dimensions.height as int),
            image_dimensions.holds(c),
    {
        corner_to_pixels(self.lower_left, image_dimensions)
    }

    /// The corner with the smallest `x` and the largest `y`, in pixels of an
    /// image of the given dimensions, rounded to the nearest pixel.
    pub fn lower_right(&self, image_dimensions: ImageDimensions) -> (c: Coordinate)
        ensures
            c.x == pixels_of(self@.x_lo, image_dimensions.width as int),
            c.y == pixels_of(self@.y_hi, image_dimensions.height as int),
            image_dimensions.holds(c),
    {
        corner_to_pixels(
            Coordinate { x: self.lower_left.x, y: self.top_right.y },
            image_dimensions,
        )
    }

    /// Re-expresses a percentage hotspot in pixels of an image of the given
    /// dimensions, each value rounded to the nearest pixel.
    pub fn as_pixels(this: Self, image_dimensions: ImageDimensions) -> (h: Hotspot<PixelRepr>)
        ensures
            h@ == this@.to_pixels(image_dimensions),
            h@.wf(),
            h@.within(image_dimensions),
    {
        proof {
            use_type_invariant(&this);
            lemma_pixels_of_monotonic(
                this@.x_lo,
                this@.x_hi,
                image_dimensions.width as int,
            );
            lemma_pixels_of_monotonic(
                this@.y_lo,
                this@.y_hi,
                image_dimensions.height as int,
            );
        }
        let top_right = this.top_right(image_dimensions);
        let lower_left = this.lower_left(image_dimensions);
        Hotspot::from_ordered(top_right, lower_left)
    }
}

/// A staged constructor of hotspots, carrying the representation to build.
pub struct HotspotBuilder<R> {
    _marker: PhantomData<R>,
}

impl Hotspot {
    /// Starts building a hotspot, in pixels unless another representation is
    /// chosen.
    pub fn builder() -> HotspotBuilder<PixelRepr> {
        HotspotBuilder { _marker: PhantomData }
    }
}

impl<R: InternalRepr> HotspotBuilder<R> {
    /// Chooses the representation of the hotspot to build.
    pub fn with_repr<NewR: InternalRepr>(self) -> HotspotBuilder<NewR> {
        HotspotBuilder { _marker: PhantomData }
    }
}

impl HotspotBuilder<PixelRepr> {
    /// Builds a pixel hotspot from any two opposite corners, in any order.
    pub fn from_pixels(self, corners: (Coordinate, Coordinate)) -> (h: Hotspot<PixelRepr>)
        ensures
            h@ == Rect::spanning(corners.0, corners.1),
            h@.x_lo <= h@.x_hi,
            h@.y_lo <= h@.y_hi,
    {
        let (a, b) = corners;
        Hotspot::spanning(a, b)
    }
}

impl HotspotBuilder<PercentageRepr> {
    /// Builds a percentage hotspot from any two opposite corners given in
    /// pixels of an image of the given dimensions. Each value is rescaled to a
    /// fraction of the full scalar range and rounded to the nearest scalar.
    pub fn from_percentage(
        self,
        input: (Coordinate, Coordinate),
        image_dimensions: ImageDimensions,
    ) -> (h: Hotspot<PercentageRepr>)
        requires
            image_dimensions.is_positive(),
            image_dimensions.holds(input.0),
            image_dimensions.holds(input.1),
        ensures
            h@ == Rect::spanning(input.0, input.1).to_percentage(image_dimensions),
            h@.wf(),
    {
        let pixels = Hotspot::builder().from_pixels(input);
        let ImageDimensions { height, width } = image_dimensions;
        proof {
            lemma_percentage_of_monotonic(pixels@.x_lo, pixels@.x_hi, width as int);
            lemma_percentage_of_monotonic(pixels@.y_lo, pixels@.y_hi, height as int);
        }
        let top_right = Coordinate {
            x: scale_to_percentage(pixels.top_right.x, width),
            y: scale_to_percentage(pixels.top_right.y, height),
        };
        let lower_left = Coordinate {
            x: scale_to_percentage(pixels.lower_left.x, width),
            y: scale_to_percentage(pixels.lower_left.y, height),
        };
        Hotspot::from_ordered(top_right, lower_left)
    }
}

} // verus!
