use pg_wire_codec::CodecError;
use pg_wire_codec::Decode;
use pg_wire_codec::Encode;
use pg_wire_codec::IsNull;
use pg_wire_codec::PgInterval;
use pg_wire_codec::PgTypeInfo;
use pg_wire_codec::PgValueFormat;
use pg_wire_codec::PgValueRef;
use pg_wire_codec::Type;
use pg_wire_codec::WireField;

#[test]
fn test_encode_interval() {
    let mut buf: Vec<u8> = Vec::new();

    let interval = PgInterval {
        months: 0,
        days: 0,
        microseconds: 0,
    };
    assert!(matches!(
        Encode::encode_by_ref(&interval, &mut buf),
        Ok(IsNull::No)
    ));
    assert_eq!(&*buf, [0, 0, 0, 0, 0, 0, 0, 0, 0, 0, 0, 0, 0, 0, 0, 0]);
    buf.clear();

    let interval = PgInterval {
        months: 0,
        days: 0,
        microseconds: 1_000,
    };
    assert!(matches!(
        Encode::encode_by_ref(&interval, &mut buf),
        Ok(IsNull::No)
    ));
    assert_eq!(&*buf, [0, 0, 0, 0, 0, 0, 3, 232, 0, 0, 0, 0, 0, 0, 0, 0]);
    buf.clear();

    let interval = PgInterval {
        months: 0,
        days: 0,
        microseconds: 1_000_000,
    };
    assert!(matches!(
        Encode::encode_by_ref(&interval, &mut buf),
        Ok(IsNull::No)
    ));
    assert_eq!(&*buf, [0, 0, 0, 0, 0, 15, 66, 64, 0, 0, 0, 0, 0, 0, 0, 0]);
    buf.clear();

    let interval = PgInterval {
        months: 0,
        days: 0,
        microseconds: 3_600_000_000,
    };
    assert!(matches!(
        Encode::encode_by_ref(&interval, &mut buf),
        Ok(IsNull::No)
    ));
    assert_eq!(
        &*buf,
        [0, 0, 0, 0, 214, 147, 164, 0, 0, 0, 0, 0, 0, 0, 0, 0]
    );
    buf.clear();

    let interval = PgInterval {
        months: 0,
        days: 1,
        microseconds: 0,
    };
    assert!(matches!(
        Encode::encode_by_ref(&interval, &mut buf),
        Ok(IsNull::No)
    ));
    assert_eq!(&*buf, [0, 0, 0, 0, 0, 0, 0, 0, 0, 0, 0, 1, 0, 0, 0, 0]);
    buf.clear();

    let interval = PgInterval {
        months: 1,
        days: 0,
        microseconds: 0,
    };
    assert!(matches!(
        Encode::encode_by_ref(&interval, &mut buf),
        Ok(IsNull::No)
    ));
    assert_eq!(&*buf, [0, 0, 0, 0, 0, 0, 0, 0, 0, 0, 0, 0, 0, 0, 0, 1]);
    buf.clear();
}

#[test]
fn test_pginterval_std() {
    let interval = PgInterval {
        days: 0,
        months: 0,
        microseconds: 27_000,
    };
    assert_eq!(
        &PgInterval::try_from(std::time::Duration::from_micros(27_000)).unwrap(),
        &interval
    );
}

#[test]
fn from_std_is_the_conversion_of_std_durations() {
    let duration = std::time::Duration::from_micros(27_000);
    assert_eq!(PgInterval::from_std(duration), PgInterval::try_from(duration));
    assert_eq!(
        PgInterval::from_std(duration),
        Ok(PgInterval { months: 0, days: 0, microseconds: 27_000 })
    );
    let duration = std::time::Duration::from_nanos(1);
    assert_eq!(PgInterval::from_std(duration), PgInterval::try_from(duration));
}

fn binary(bytes: &[u8]) -> PgValueRef<'_> {
    PgValueRef::new(PgValueFormat::Binary, bytes)
}

#[test]
fn encode_keeps_what_the_buffer_held() {
    let mut buf: Vec<u8> = vec![7, 9];
    let interval = PgInterval { months: 2, days: 3, microseconds: 4 };
    assert_eq!(interval.encode_by_ref(&mut buf), Ok(IsNull::No));
    assert_eq!(buf, [7, 9, 0, 0, 0, 0, 0, 0, 0, 4, 0, 0, 0, 3, 0, 0, 0, 2]);
}

#[test]
fn encode_negative_fields_in_twos_complement() {
    let mut buf: Vec<u8> = Vec::new();
    let interval = PgInterval { months: -1, days: -2, microseconds: -3 };
    assert_eq!(interval.encode_by_ref(&mut buf), Ok(IsNull::No));
    assert_eq!(
        buf,
        [255, 255, 255, 255, 255, 255, 255, 253, 255, 255, 255, 254, 255, 255, 255, 255]
    );
}

#[test]
fn size_hint_is_sixteen() {
    let interval = PgInterval { months: 1, days: 2, microseconds: 3 };
    assert_eq!(interval.size_hint(), 16);
    let mut buf: Vec<u8> = Vec::new();
    interval.encode_by_ref(&mut buf).unwrap();
    assert_eq!(buf.len(), interval.size_hint());
}

#[test]
fn decode_reads_microseconds_days_months_in_order() {
    let bytes = [0, 0, 0, 0, 214, 147, 164, 0, 0, 0, 0, 5, 0, 0, 0, 7];
    assert_eq!(
        PgInterval::decode(binary(&bytes)),
        Ok(PgInterval { months: 7, days: 5, microseconds: 3_600_000_000 })
    );
}

#[test]
fn decode_ignores_bytes_past_the_sixteenth() {
    let bytes = [0, 0, 0, 0, 0, 0, 3, 232, 0, 0, 0, 1, 0, 0, 0, 2, 99, 98];
    assert_eq!(
        PgInterval::decode(binary(&bytes)),
        Ok(PgInterval { months: 2, days: 1, microseconds: 1_000 })
    );
}

#[test]
fn decode_after_encode_gives_the_interval() {
    let intervals = [
        PgInterval { months: 0, days: 0, microseconds: 0 },
        PgInterval { months: 14, days: -3, microseconds: 86_400_000_001 },
        PgInterval { months: i32::MAX, days: i32::MIN, microseconds: i64::MAX },
        PgInterval { months: i32::MIN, days: i32::MAX, microseconds: i64::MIN },
        PgInterval { months: -1, days: -1, microseconds: -1 },
    ];
    for interval in intervals {
        let mut buf: Vec<u8> = Vec::new();
        assert_eq!(interval.encode_by_ref(&mut buf), Ok(IsNull::No));
        assert_eq!(buf.len(), 16);
        assert_eq!(PgInterval::decode(binary(&buf)), Ok(interval));
    }
}

#[test]
fn decode_ten_bytes_is_a_short_buffer() {
    let bytes = [0u8; 10];
    assert_eq!(
        PgInterval::decode(binary(&bytes)),
        Err(CodecError::ShortBuffer { field: WireField::Days, expected: 16, actual: 10 })
    );
}

#[test]
fn decode_names_the_first_field_that_is_not_whole() {
    let bytes = [1u8; 16];
    assert_eq!(
        PgInterval::decode(binary(&bytes[..0])),
        Err(CodecError::ShortBuffer { field: WireField::Microseconds, expected: 16, actual: 0 })
    );
    assert_eq!(
        PgInterval::decode(binary(&bytes[..7])),
        Err(CodecError::ShortBuffer { field: WireField::Microseconds, expected: 16, actual: 7 })
    );
    assert_eq!(
        PgInterval::decode(binary(&bytes[..8])),
        Err(CodecError::ShortBuffer { field: WireField::Days, expected: 16, actual: 8 })
    );
    assert_eq!(
        PgInterval::decode(binary(&bytes[..12])),
        Err(CodecError::ShortBuffer { field: WireField::Months, expected: 16, actual: 12 })
    );
    assert_eq!(
        PgInterval::decode(binary(&bytes[..15])),
        Err(CodecError::ShortBuffer { field: WireField::Months, expected: 16, actual: 15 })
    );
    assert!(PgInterval::decode(binary(&bytes)).is_ok());
}

#[test]
fn decode_text_format_is_unsupported() {
    let bytes = [0u8; 16];
    assert_eq!(
        PgInterval::decode(PgValueRef::new(PgValueFormat::Text, &bytes)),
        Err(CodecError::FormatUnsupported { wire_type: PgTypeInfo::Interval })
    );
    assert_eq!(
        PgInterval::decode(PgValueRef::new(PgValueFormat::Text, b"1 day")),
        Err(CodecError::FormatUnsupported { wire_type: PgTypeInfo::Interval })
    );
}

#[test]
fn value_ref_hands_out_what_it_was_made_of() {
    let bytes = [1u8, 2, 3];
    let value = PgValueRef::new(PgValueFormat::Binary, &bytes);
    assert_eq!(value.format(), PgValueFormat::Binary);
    assert_eq!(value.as_bytes(), &bytes);
}

#[test]
fn interval_type_info() {
    assert_eq!(<PgInterval as Type>::type_info(), PgTypeInfo::Interval);
    assert_eq!(<[PgInterval] as Type>::type_info(), PgTypeInfo::IntervalArray);
}

#[test]
fn catalog_identifiers_and_names() {
    assert_eq!(PgTypeInfo::Point.oid(), 600);
    assert_eq!(PgTypeInfo::Interval.oid(), 1186);
    assert_eq!(PgTypeInfo::IntervalArray.oid(), 1187);
    assert_eq!(PgTypeInfo::Point.name(), "POINT");
    assert_eq!(PgTypeInfo::Interval.name(), "INTERVAL");
    assert_eq!(PgTypeInfo::IntervalArray.name(), "INTERVAL[]");
    assert_eq!(PgTypeInfo::Point.host_type(), "PgPoint");
    assert_eq!(PgTypeInfo::Interval.host_type(), "PgInterval");
    assert_eq!(PgTypeInfo::IntervalArray.host_type(), "Vec<PgInterval>");
}

#[test]
fn catalog_finds_each_type_under_its_identifier() {
    for info in [PgTypeInfo::Point, PgTypeInfo::Interval, PgTypeInfo::IntervalArray] {
        assert_eq!(PgTypeInfo::from_oid(info.oid()), Some(info));
    }
    assert_eq!(PgTypeInfo::from_oid(0), None);
    assert_eq!(PgTypeInfo::from_oid(23), None);
    assert_eq!(PgTypeInfo::from_oid(1188), None);
}
