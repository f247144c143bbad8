//! The representation tag of a hotspot: absolute pixels or a percentage of the
//! image. The tag is a zero-sized type parameter, so hotspots of different
//! representations cannot be mixed without an explicit conversion.
use vstd::prelude::*;

mod private;

verus! {

/// How a hotspot is represented: as a percentage of the overall image size,
/// or as absolute pixel values.
///
/// This trait is sealed and cannot be implemented outside this crate.
pub trait InternalRepr: private::Sealed {

}

/// The name under which a hotspot of each representation is serialized.
pub trait HotspotRepr: InternalRepr {
    /// The structure name of this representation.
    spec fn spec_struct_name() -> Seq<char>;

    /// The structure name of this representation.
    fn struct_name() -> (r: &'static str)
        ensures
            r@ == Self::spec_struct_name(),
    ;
}

/// The hotspot is represented as absolute pixel values.
#[derive(Debug, Copy, Clone, PartialEq, Eq, PartialOrd, Ord, Hash, Default)]
pub struct PixelRepr;

impl private::Sealed for PixelRepr {

}

impl InternalRepr for PixelRepr {

}

impl HotspotRepr for PixelRepr {
    open spec fn spec_struct_name() -> Seq<char> {
        "HotspotPx"@
    }

    fn struct_name() -> (r: &'static str) {
        "HotspotPx"
    }
}

/// The hotspot is represented as a percentage of the overall image size.
#[derive(Debug, Copy, Clone, PartialEq, Eq, PartialOrd, Ord, Hash, Default)]
pub struct PercentageRepr;

impl private::Sealed for PercentageRepr {

}

impl InternalRepr for PercentageRepr {

}

impl HotspotRepr for PercentageRepr {
    open spec fn spec_struct_name() -> Seq<char> {
        "HotspotRel"@
    }

    fn struct_name() -> (r: &'static str) {
        "HotspotRel"
    }
}

} // verus!
