//! The serialized shape of a hotspot and the rules for reading it back.
//!
//! A hotspot is written as four named scalars: `x1` and `y1` for the top-right
//! corner, `x2` and `y2` for the lower-left corner. It is read back either from
//! exactly four values in that order, or from named values in any order, where
//! an unknown name, a repeated name or a missing name is an error.
use vstd::prelude::*;

use crate::coordinate::Coordinate;
use crate::hotspot::{Hotspot, Rect};
use crate::repr::InternalRepr;
use crate::scalar::CoordinateValue;

verus! {

/// One of the four named values of a serialized hotspot.
#[derive(Debug, Clone, Copy, PartialEq, Eq, Structural)]
pub enum HotspotField {
    X1,
    Y1,
    X2,
    Y2,
}

/// The field whose name is the bytes `name`, if any.
pub open spec fn field_named(name: Seq<u8>) -> Option<HotspotField> {
    if name == seq![0x78u8, 0x31u8] {
        Some(HotspotField::X1)
    } else if name == seq![0x79u8, 0x31u8] {
        Some(HotspotField::Y1)
    } else if name == seq![0x78u8, 0x32u8] {
        Some(HotspotField::X2)
    } else if name == seq![0x79u8, 0x32u8] {
        Some(HotspotField::Y2)
    } else {
        None
    }
}

impl HotspotField {
    /// The name of the field.
    pub open spec fn spec_name(self) -> Seq<char> {
        match self {
            HotspotField::X1 => "x1"@,
            HotspotField::Y1 => "y1"@,
            HotspotField::X2 => "x2"@,
            HotspotField::Y2 => "y2"@,
        }
    }

    /// The name of the field.
    pub fn name(self) -> (r: &'static str)
        ensures
            r@ == self.spec_name(),
    {
        match self {
            HotspotField::X1 => "x1",
            HotspotField::Y1 => "y1",
            HotspotField::X2 => "x2",
            HotspotField::Y2 => "y2",
        }
    }

    /// The field named by the ASCII bytes `name`: `x1`, `y1`, `x2` or `y2`.
    pub fn from_name(name: &[u8]) -> (r: Option<HotspotField>)
        ensures
            r == field_named(name@),
    {
        if name.len() != 2 {
            return None;
        }
        let axis = name[0];
        let corner = name[1];
        proof {
            assert(name@ == seq![axis, corner]);
        }
        if axis == 0x78 && corner == 0x31 {
            Some(HotspotField::X1)
        } else if axis == 0x79 && corner == 0x31 {
            Some(HotspotField::Y1)
        } else if axis == 0x78 && corner == 0x32 {
            Some(HotspotField::X2)
        } else if axis == 0x79 && corner == 0x32 {
            Some(HotspotField::Y2)
        } else {
            None
        }
    }
}

/// Why a serialized hotspot could not be read.
#[derive(Debug, Clone, Copy, PartialEq, Eq, Structural)]
pub enum FormatError {
    /// The named field never appeared.
    MissingField(HotspotField),
    /// The named field appeared more than once.
    DuplicateField(HotspotField),
    /// A sequence of values had this many elements instead of four.
    InvalidLength(usize),
}

/// The four values of a serialized hotspot.
#[derive(Debug, Clone, Copy, PartialEq, Eq, Structural)]
pub struct HotspotFields {
    pub x1: CoordinateValue,
    pub y1: CoordinateValue,
    pub x2: CoordinateValue,
    pub y2: CoordinateValue,
}

impl HotspotFields {
    /// The rectangle that the two written corners span.
    pub open spec fn rect(self) -> Rect {
        Rect::spanning(
            Coordinate { x: self.x1, y: self.y1 },
            Coordinate { x: self.x2, y: self.y2 },
        )
    }

    /// Reads the four values from a sequence, which must hold exactly four.
    pub fn from_values(values: &[CoordinateValue]) -> (r: Result<HotspotFields, FormatError>)
        ensures
            values@.len() == 4 ==> r == Ok::<HotspotFields, FormatError>(
                HotspotFields { x1: values@[0], y1: values@[1], x2: values@[2], y2: values@[3] },
            ),
            values@.len() != 4 ==> r == Err::<HotspotFields, FormatError>(
                FormatError::InvalidLength(values@.len() as usize),
            ),
    {
        if values.len() != 4 {
            return Err(FormatError::InvalidLength(values.len()));
        }
        Ok(HotspotFields { x1: values[0], y1: values[1], x2: values[2], y2: values[3] })
    }
}

/// The named values read so far from a serialized hotspot.
#[derive(Debug)]
pub struct FieldCollector {
    x1: Option<CoordinateValue>,
    y1: Option<CoordinateValue>,
    x2: Option<CoordinateValue>,
    y2: Option<CoordinateValue>,
}

impl FieldCollector {
    /// The value read for `field`, if any.
    pub closed spec fn slot(self, field: HotspotField) -> Option<CoordinateValue> {
        match field {
            HotspotField::X1 => self.x1,
            HotspotField::Y1 => self.y1,
            HotspotField::X2 => self.x2,
            HotspotField::Y2 => self.y2,
        }
    }

    /// What reading ends with: the first field in the order `x1`, `y1`, `x2`,
    /// `y2` that was never read is missing; else the four values read.
    pub open spec fn outcome(self) -> Result<HotspotFields, FormatError> {
        if self.slot(HotspotField::X1) is None {
            Err(FormatError::MissingField(HotspotField::X1))
        } else if self.slot(HotspotField::Y1) is None {
            Err(FormatError::MissingField(HotspotField::Y1))
        } else if self.slot(HotspotField::X2) is None {
            Err(FormatError::MissingField(HotspotField::X2))
        } else if self.slot(HotspotField::Y2) is None {
            Err(FormatError::MissingField(HotspotField::Y2))
        } else {
            Ok(
                HotspotFields {
                    x1: self.slot(HotspotField::X1)->0,
                    y1: self.slot(HotspotField::Y1)->0,
                    x2: self.slot(HotspotField::X2)->0,
                    y2: self.slot(HotspotField::Y2)->0,
                },
            )
        }
    }

    /// A collector that has read nothing yet.
    pub fn new() -> (c: FieldCollector)
        ensures
            forall|f: HotspotField| c.slot(f) is None,
    {
        FieldCollector { x1: None, y1: None, x2: None, y2: None }
    }

    /// Records `value` for `field`. A field read before is a duplicate: the
    /// collector is left unchanged and the error names the field.
    pub fn record(&mut self, field: HotspotField, value: CoordinateValue) -> (r: Result<
        (),
        FormatError,
    >)
        ensures
            old(self).slot(field) is Some ==> r == Err::<(), FormatError>(
                FormatError::DuplicateField(field),
            ) && *final(self) == *old(self),
            old(self).slot(field) is None ==> r is Ok && final(self).slot(field) == Some(value)
                && forall|g: HotspotField| g != field ==> final(self).slot(g) == old(self).slot(g),
    {
        let slot = match field {
            HotspotField::X1 => &mut self.x1,
            HotspotField::Y1 => &mut self.y1,
            HotspotField::X2 => &mut self.x2,
            HotspotField::Y2 => &mut self.y2,
        };
        if slot.is_some() {
            return Err(FormatError::DuplicateField(field));
        }
        *slot = Some(value);
        Ok(())
    }

    /// Ends reading: the four values, or the first missing field.
    pub fn finish(&self) -> (r: Result<HotspotFields, FormatError>)
        ensures
            r == self.outcome(),
    {
        match (self.x1, self.y1, self.x2, self.y2) {
            (None, _, _, _) => Err(FormatError::MissingField(HotspotField::X1)),
            (_, None, _, _) => Err(FormatError::MissingField(HotspotField::Y1)),
            (_, _, None, _) => Err(FormatError::MissingField(HotspotField::X2)),
            (_, _, _, None) => Err(FormatError::MissingField(HotspotField::Y2)),
            (Some(x1), Some(y1), Some(x2), Some(y2)) => Ok(HotspotFields { x1, y1, x2, y2 }),
        }
    }
}

impl<R: InternalRepr> Hotspot<R> {
    /// The four values under which this hotspot is serialized: the top-right
    /// corner as `x1`, `y1` and the lower-left corner as `x2`, `y2`.
    pub fn to_fields(&self) -> (f: HotspotFields)
        ensures
            f.x1 == self@.x_hi,
            f.y1 == self@.y_hi,
            f.x2 == self@.x_lo,
            f.y2 == self@.y_lo,
    {
        let top_right = self.stored_top_right();
        let lower_left = self.stored_lower_left();
        HotspotFields { x1: top_right.x, y1: top_right.y, x2: lower_left.x, y2: lower_left.y }
    }

    /// The hotspot that serialized values describe. The two written corners
    /// are put in canonical order, so values that a hotspot was written as
    /// give that hotspot back.
    pub fn from_fields(fields: HotspotFields) -> (h: Self)
        ensures
            h@ == fields.rect(),
            h@.wf(),
    {
        Hotspot::spanning(
            Coordinate { x: fields.x1, y: fields.y1 },
            Coordinate { x: fields.x2, y: fields.y2 },
        )
    }
}

/// Writing a hotspot as its four values and reading them back gives the same
/// hotspot.
pub proof fn lemma_fields_round_trip<R: InternalRepr>(h: Hotspot<R>, fields: HotspotFields)
    requires
        h@.wf(),
        fields.x1 == h@.x_hi,
        fields.y1 == h@.y_hi,
        fields.x2 == h@.x_lo,
        fields.y2 == h@.y_lo,
    ensures
        fields.rect() == h@,
{
}

} // verus!
