use pg_wire_codec::CodecError;
use pg_wire_codec::Decode;
use pg_wire_codec::PgPoint;
use pg_wire_codec::PgTypeInfo;
use pg_wire_codec::PgValueFormat;
use pg_wire_codec::PgValueRef;
use pg_wire_codec::Type;
use pg_wire_codec::WireField;

fn layout(x: f64, y: f64) -> Vec<u8> {
    let mut bytes = vec![b'('];
    bytes.extend_from_slice(&x.to_be_bytes());
    bytes.push(b',');
    bytes.extend_from_slice(&y.to_be_bytes());
    bytes.push(b')');
    bytes
}

fn binary(bytes: &[u8]) -> PgValueRef<'_> {
    PgValueRef::new(PgValueFormat::Binary, bytes)
}

fn short(field: WireField, actual: usize) -> CodecError {
    CodecError::ShortBuffer { field, expected: 19, actual }
}

#[test]
fn point_decodes_both_coordinates() {
    let bytes = layout(5.0, 45.5);
    assert_eq!(bytes.len(), 19);
    let point = PgPoint::decode(binary(&bytes)).unwrap();
    assert_eq!(f64::from_bits(point.x_bits), 5.0);
    assert_eq!(f64::from_bits(point.y_bits), 45.5);
}

#[test]
fn point_decodes_bit_patterns() {
    let bytes = [
        0, 0x40, 0x14, 0, 0, 0, 0, 0, 0, 0, 0xc0, 0x46, 0xc0, 0, 0, 0, 0, 1, 0,
    ];
    assert_eq!(
        PgPoint::decode(binary(&bytes)),
        Ok(PgPoint { x_bits: 0x4014_0000_0000_0000, y_bits: 0xc046_c000_0000_0001 })
    );
}

#[test]
fn point_markers_are_passed_over() {
    let mut bytes = layout(-1.25, 0.0);
    bytes[0] = 0xff;
    bytes[9] = 0;
    bytes[18] = 0x80;
    let point = PgPoint::decode(binary(&bytes)).unwrap();
    assert_eq!(f64::from_bits(point.x_bits), -1.25);
    assert_eq!(f64::from_bits(point.y_bits), 0.0);
}

#[test]
fn point_ignores_bytes_past_the_nineteenth() {
    let mut bytes = layout(1.0, 2.0);
    bytes.extend_from_slice(&[9, 9, 9]);
    let point = PgPoint::decode(binary(&bytes)).unwrap();
    assert_eq!(f64::from_bits(point.x_bits), 1.0);
    assert_eq!(f64::from_bits(point.y_bits), 2.0);
}

#[test]
fn point_short_buffer_names_the_first_field_that_is_not_whole() {
    let bytes = layout(5.0, 45.5);
    assert_eq!(PgPoint::decode(binary(&bytes[..0])), Err(short(WireField::OpenMarker, 0)));
    assert_eq!(PgPoint::decode(binary(&bytes[..1])), Err(short(WireField::X, 1)));
    assert_eq!(PgPoint::decode(binary(&bytes[..8])), Err(short(WireField::X, 8)));
    assert_eq!(PgPoint::decode(binary(&bytes[..9])), Err(short(WireField::Separator, 9)));
    assert_eq!(PgPoint::decode(binary(&bytes[..10])), Err(short(WireField::Y, 10)));
    assert_eq!(PgPoint::decode(binary(&bytes[..17])), Err(short(WireField::Y, 17)));
    assert_eq!(PgPoint::decode(binary(&bytes[..18])), Err(short(WireField::CloseMarker, 18)));
    assert!(PgPoint::decode(binary(&bytes[..19])).is_ok());
}

#[test]
fn point_text_format_is_unsupported() {
    assert_eq!(
        PgPoint::decode(PgValueRef::new(PgValueFormat::Text, b"(5,45.5)")),
        Err(CodecError::FormatUnsupported { wire_type: PgTypeInfo::Point })
    );
    let bytes = layout(5.0, 45.5);
    assert_eq!(
        PgPoint::decode(PgValueRef::new(PgValueFormat::Text, &bytes)),
        Err(CodecError::FormatUnsupported { wire_type: PgTypeInfo::Point })
    );
}

#[test]
fn point_type_info() {
    assert_eq!(<PgPoint as Type>::type_info(), PgTypeInfo::Point);
}
