use hotspot::repr::{PercentageRepr, PixelRepr};
use hotspot::wire::{FieldCollector, FormatError, HotspotField, HotspotFields};
use hotspot::{Coordinate, Hotspot};

fn make_hotspot(x1: u16, y1: u16, x2: u16, y2: u16) -> Hotspot<PixelRepr> {
    Hotspot::builder().from_pixels((Coordinate { x: x1, y: y1 }, Coordinate { x: x2, y: y2 }))
}

/// Reads named entries the way a deserializer walks an object.
fn read(entries: &[(&str, u16)]) -> Result<HotspotFields, String> {
    let mut collector = FieldCollector::new();
    for &(name, value) in entries {
        let field = match HotspotField::from_name(name.as_bytes()) {
            Some(field) => field,
            None => return Err(format!("unknown field `{}`", name)),
        };
        match collector.record(field, value) {
            Ok(()) => {}
            Err(FormatError::DuplicateField(f)) => {
                return Err(format!("duplicate field `{}`", f.name()));
            }
            Err(e) => return Err(format!("{:?}", e)),
        }
    }
    collector.finish().map_err(|e| match e {
        FormatError::MissingField(f) => format!("missing field `{}`", f.name()),
        other => format!("{:?}", other),
    })
}

#[test]
fn test_hotspot_serialize_json() {
    let hotspot = make_hotspot(10, 20, 30, 40);
    let fields = hotspot.to_fields();
    assert_eq!(fields.x1, 30);
    assert_eq!(fields.y1, 40);
    assert_eq!(fields.x2, 10);
    assert_eq!(fields.y2, 20);
}

#[test]
fn test_hotspot_deserialize_json() {
    let fields = read(&[("x1", 100), ("y1", 200), ("x2", 50), ("y2", 75)]).unwrap();
    let hotspot: Hotspot<PixelRepr> = Hotspot::from_fields(fields);
    assert_eq!(hotspot.top_right(), Coordinate { x: 100, y: 200 });
    assert_eq!(hotspot.lower_left(), Coordinate { x: 50, y: 75 });
}

#[test]
fn test_hotspot_roundtrip_json() {
    let original = make_hotspot(0, 0, 100, 100);
    let back: Hotspot<PixelRepr> = Hotspot::from_fields(original.to_fields());
    assert_eq!(back.top_right(), original.top_right());
    assert_eq!(back.lower_left(), original.lower_left());
}

#[test]
fn test_hotspot_zero_area() {
    let hotspot = make_hotspot(5, 5, 5, 5);
    let back: Hotspot<PixelRepr> = Hotspot::from_fields(hotspot.to_fields());
    assert_eq!(back.top_right(), hotspot.top_right());
    assert_eq!(back.lower_left(), hotspot.lower_left());
}

#[test]
fn test_hotspot_max_values() {
    let hotspot = make_hotspot(0, 0, u16::MAX, u16::MAX);
    let back: Hotspot<PixelRepr> = Hotspot::from_fields(hotspot.to_fields());
    assert_eq!(back.top_right(), hotspot.top_right());
    assert_eq!(back.lower_left(), hotspot.lower_left());
}

#[test]
fn test_hotspot_percentage_repr_roundtrip() {
    let dims = hotspot::ImageDimensions { height: 1000, width: 1000 };
    let hotspot = Hotspot::builder()
        .with_repr::<PercentageRepr>()
        .from_percentage((Coordinate { x: 100, y: 200 }, Coordinate { x: 300, y: 400 }), dims);
    let back: Hotspot<PercentageRepr> = Hotspot::from_fields(hotspot.to_fields());
    assert_eq!(back.stored_top_right(), hotspot.stored_top_right());
    assert_eq!(back.stored_lower_left(), hotspot.stored_lower_left());
}

#[test]
fn test_hotspot_deserialize_with_field_order() {
    let a = read(&[("x1", 10), ("y1", 20), ("x2", 5), ("y2", 15)]).unwrap();
    let b = read(&[("y2", 15), ("x2", 5), ("y1", 20), ("x1", 10)]).unwrap();
    let c = read(&[("x2", 5), ("x1", 10), ("y2", 15), ("y1", 20)]).unwrap();
    assert_eq!(a, b);
    assert_eq!(a, c);
}

#[test]
fn test_hotspot_deserialize_missing_x1() {
    let result = read(&[("y1", 20), ("x2", 5), ("y2", 15)]);
    assert!(result.is_err());
    assert!(result.unwrap_err().contains("x1"));
}

#[test]
fn test_hotspot_deserialize_missing_y1() {
    let result = read(&[("x1", 10), ("x2", 5), ("y2", 15)]);
    assert!(result.is_err());
    assert!(result.unwrap_err().contains("y1"));
}

#[test]
fn test_hotspot_deserialize_missing_x2() {
    let result = read(&[("x1", 10), ("y1", 20), ("y2", 15)]);
    assert!(result.is_err());
    assert!(result.unwrap_err().contains("x2"));
}

#[test]
fn test_hotspot_deserialize_missing_y2() {
    let result = read(&[("x1", 10), ("y1", 20), ("x2", 5)]);
    assert!(result.is_err());
    assert!(result.unwrap_err().contains("y2"));
}

#[test]
fn test_hotspot_deserialize_duplicate_x1() {
    let result = read(&[("x1", 10), ("x1", 15), ("y1", 20), ("x2", 5), ("y2", 15)]);
    assert!(result.is_err());
    assert!(result.unwrap_err().contains("duplicate"));
}

#[test]
fn test_hotspot_deserialize_duplicate_y1() {
    let result = read(&[("x1", 10), ("y1", 20), ("y1", 25), ("x2", 5), ("y2", 15)]);
    assert!(result.is_err());
    assert!(result.unwrap_err().contains("duplicate"));
}

#[test]
fn test_hotspot_deserialize_duplicate_x2() {
    let result = read(&[("x1", 10), ("y1", 20), ("x2", 5), ("x2", 8), ("y2", 15)]);
    assert!(result.is_err());
    assert!(result.unwrap_err().contains("duplicate"));
}

#[test]
fn test_hotspot_deserialize_duplicate_y2() {
    let result = read(&[("x1", 10), ("y1", 20), ("x2", 5), ("y2", 15), ("y2", 18)]);
    assert!(result.is_err());
    assert!(result.unwrap_err().contains("duplicate"));
}

#[test]
fn test_hotspot_deserialize_invalid_field() {
    let result = read(&[("x1", 10), ("y1", 20), ("x2", 5), ("y2", 15), ("x3", 100)]);
    assert!(result.is_err());
    assert!(result.unwrap_err().contains("unknown field"));
}

#[test]
fn field_names_are_recognised_exactly() {
    assert_eq!(HotspotField::from_name(b"x1"), Some(HotspotField::X1));
    assert_eq!(HotspotField::from_name(b"y1"), Some(HotspotField::Y1));
    assert_eq!(HotspotField::from_name(b"x2"), Some(HotspotField::X2));
    assert_eq!(HotspotField::from_name(b"y2"), Some(HotspotField::Y2));
    assert_eq!(HotspotField::from_name(b"X1"), None);
    assert_eq!(HotspotField::from_name(b"x"), None);
    assert_eq!(HotspotField::from_name(b"x12"), None);
    assert_eq!(HotspotField::from_name(b""), None);
    for f in [HotspotField::X1, HotspotField::Y1, HotspotField::X2, HotspotField::Y2] {
        assert_eq!(HotspotField::from_name(f.name().as_bytes()), Some(f));
    }
}

#[test]
fn duplicate_leaves_the_first_value() {
    let mut collector = FieldCollector::new();
    assert_eq!(collector.record(HotspotField::Y2, 7), Ok(()));
    assert_eq!(
        collector.record(HotspotField::Y2, 9),
        Err(FormatError::DuplicateField(HotspotField::Y2))
    );
    collector.record(HotspotField::X1, 1).unwrap();
    collector.record(HotspotField::Y1, 2).unwrap();
    collector.record(HotspotField::X2, 3).unwrap();
    assert_eq!(collector.finish(), Ok(HotspotFields { x1: 1, y1: 2, x2: 3, y2: 7 }));
}

#[test]
fn first_missing_field_is_reported() {
    let collector = FieldCollector::new();
    assert_eq!(collector.finish(), Err(FormatError::MissingField(HotspotField::X1)));
    let mut collector = FieldCollector::new();
    collector.record(HotspotField::Y2, 1).unwrap();
    collector.record(HotspotField::Y1, 1).unwrap();
    assert_eq!(collector.finish(), Err(FormatError::MissingField(HotspotField::X1)));
    collector.record(HotspotField::X1, 1).unwrap();
    assert_eq!(collector.finish(), Err(FormatError::MissingField(HotspotField::X2)));
}

#[test]
fn sequence_form_needs_exactly_four_values() {
    assert_eq!(
        HotspotFields::from_values(&[1, 2, 3, 4]),
        Ok(HotspotFields { x1: 1, y1: 2, x2: 3, y2: 4 })
    );
    assert_eq!(HotspotFields::from_values(&[1, 2, 3]), Err(FormatError::InvalidLength(3)));
    assert_eq!(HotspotFields::from_values(&[1, 2, 3, 4, 5]), Err(FormatError::InvalidLength(5)));
    assert_eq!(HotspotFields::from_values(&[]), Err(FormatError::InvalidLength(0)));
}

#[test]
fn fields_in_reverse_order_are_normalised() {
    let fields = HotspotFields { x1: 5, y1: 15, x2: 10, y2: 20 };
    let h: Hotspot<PixelRepr> = Hotspot::from_fields(fields);
    assert_eq!(h.top_right(), Coordinate { x: 10, y: 20 });
    assert_eq!(h.lower_left(), Coordinate { x: 5, y: 15 });
}
