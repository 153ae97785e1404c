use otf2::attribute::decode_values;
use otf2::attribute::AttributeIterator;
use otf2::attribute::AttributeLookup;
use otf2::attribute::AttributeValue;
use otf2::attribute::Float32Bits;
use otf2::attribute::Float64Bits;
use otf2::attribute::TypeMismatch;
use otf2::error::StatusCode;
use otf2::native::AttributeRef;
use otf2::native::CommRef;
use otf2::native::ErrorCode;
use otf2::native::LocationRef;
use otf2::native::RawValue;
use otf2::native::RegionRef;
use otf2::native::StringRef;
use otf2::native::Type;
use otf2::native::TypeEnum;
use otf2::native::OTF2_ERROR_EACCES;
use otf2::native::OTF2_SUCCESS;
use otf2::native::OTF2_TYPE_INT16;
use otf2::native::OTF2_TYPE_LOCATION;
use otf2::native::OTF2_TYPE_NONE;
use otf2::native::OTF2_TYPE_UINT8;

#[test]
fn decode_wraps_the_field_that_the_tag_names() {
    assert_eq!(
        AttributeValue::new(Type(1), RawValue::from_uint8(200)),
        AttributeValue::Uint8(200)
    );
    assert_eq!(
        AttributeValue::new(Type(2), RawValue::from_uint16(65535)),
        AttributeValue::Uint16(65535)
    );
    assert_eq!(
        AttributeValue::new(Type(3), RawValue::from_uint32(70000)),
        AttributeValue::Uint32(70000)
    );
    assert_eq!(
        AttributeValue::new(Type(4), RawValue::from_uint64(u64::MAX)),
        AttributeValue::Uint64(u64::MAX)
    );
    assert_eq!(
        AttributeValue::new(Type(5), RawValue::from_int8(-128)),
        AttributeValue::Int8(-128)
    );
    assert_eq!(
        AttributeValue::new(Type(6), RawValue::from_int16(-2)),
        AttributeValue::Int16(-2)
    );
    assert_eq!(
        AttributeValue::new(Type(7), RawValue::from_int32(i32::MIN)),
        AttributeValue::Int32(i32::MIN)
    );
    assert_eq!(
        AttributeValue::new(Type(8), RawValue::from_int64(-1)),
        AttributeValue::Int64(-1)
    );
    assert_eq!(
        AttributeValue::new(Type(8), RawValue::from_int64(i64::MIN)),
        AttributeValue::Int64(i64::MIN)
    );
    assert_eq!(
        AttributeValue::new(Type(8), RawValue::from_int64(i64::MAX)),
        AttributeValue::Int64(i64::MAX)
    );
    assert_eq!(
        AttributeValue::new(Type(9), RawValue::from_uint32(1.5f32.to_bits())),
        AttributeValue::Float32(Float32Bits(1.5f32.to_bits()))
    );
    assert_eq!(
        AttributeValue::new(Type(10), RawValue::from_uint64((-0.25f64).to_bits())),
        AttributeValue::Float64(Float64Bits((-0.25f64).to_bits()))
    );
    assert_eq!(
        AttributeValue::new(Type(11), RawValue::from_uint32(9)),
        AttributeValue::String(StringRef(9))
    );
    assert_eq!(
        AttributeValue::new(Type(12), RawValue::from_uint32(8)),
        AttributeValue::Attribute(AttributeRef(8))
    );
    assert_eq!(
        AttributeValue::new(Type(OTF2_TYPE_LOCATION), RawValue::from_uint64(1 << 40)),
        AttributeValue::Location(LocationRef(1 << 40))
    );
    assert_eq!(
        AttributeValue::new(Type(14), RawValue::from_uint32(3)),
        AttributeValue::Region(RegionRef(3))
    );
    assert_eq!(
        AttributeValue::new(Type(17), RawValue::from_uint32(5)),
        AttributeValue::Comm(CommRef(5))
    );
}

#[test]
fn decode_reads_only_the_low_bytes_of_a_narrow_field() {
    assert_eq!(
        AttributeValue::new(Type(OTF2_TYPE_UINT8), RawValue(0x1234_5678_9abc_def0)),
        AttributeValue::Uint8(0xf0)
    );
    assert_eq!(
        AttributeValue::new(Type(2), RawValue(0x1234_5678_9abc_def0)),
        AttributeValue::Uint16(0xdef0)
    );
    assert_eq!(
        AttributeValue::new(Type(3), RawValue(0x1234_5678_9abc_def0)),
        AttributeValue::Uint32(0x9abc_def0)
    );
    assert_eq!(
        AttributeValue::new(Type(OTF2_TYPE_INT16), RawValue(0xffff)),
        AttributeValue::Int16(-1)
    );
    assert_eq!(
        AttributeValue::new(Type(5), RawValue(0x80)),
        AttributeValue::Int8(-128)
    );
    assert_eq!(
        AttributeValue::new(Type(7), RawValue(0x1_7fff_ffff)),
        AttributeValue::Int32(i32::MAX)
    );
    assert_eq!(RawValue::from_int16(-1), RawValue(0xffff));
    assert_eq!(RawValue::from_int64(-1), RawValue(u64::MAX));
    assert_eq!(RawValue(u64::MAX).int64(), -1);
}

#[test]
fn an_unknown_tag_decodes_to_the_empty_value() {
    assert_eq!(
        AttributeValue::new(Type(OTF2_TYPE_NONE), RawValue(77)),
        AttributeValue::Empty
    );
    assert_eq!(
        AttributeValue::new(Type(26), RawValue(77)),
        AttributeValue::Empty
    );
    assert_eq!(
        AttributeValue::new(Type(255), RawValue(77)),
        AttributeValue::Empty
    );
    assert_eq!(Type(255).to_enum(), TypeEnum::Empty);
    assert_eq!(Type(25).to_enum(), TypeEnum::LocationGroup);
    assert_eq!(TypeEnum::from(Type(13)), TypeEnum::Location);
    assert_eq!(TypeEnum::from(Type(0)), TypeEnum::Empty);
    assert_eq!(TypeEnum::from(Type(200)), TypeEnum::Empty);
}

#[test]
fn unwrap_gives_the_payload_back() {
    let value = AttributeValue::new(Type(2), RawValue::from_uint16(700));
    assert_eq!(u16::try_from(value), Ok(700));
    let region = AttributeValue::new(Type(14), RawValue::from_uint32(3));
    assert_eq!(RegionRef::try_from(region), Ok(RegionRef(3)));
    let single = AttributeValue::Float32(Float32Bits(2.5f32.to_bits()));
    assert_eq!(
        Float32Bits::try_from(single).map(|bits| f32::from_bits(bits.0)),
        Ok(2.5f32)
    );
    let double = AttributeValue::Float64(Float64Bits(2.5f64.to_bits()));
    assert_eq!(
        Float64Bits::try_from(double).map(|bits| f64::from_bits(bits.0)),
        Ok(2.5f64)
    );
}

#[test]
fn unwrap_of_another_type_names_both_types() {
    let value = AttributeValue::Uint16(700);
    assert_eq!(
        u8::try_from(value),
        Err(TypeMismatch {
            expected: "u8",
            actual: "u16"
        })
    );
    assert_eq!(
        StringRef::try_from(value),
        Err(TypeMismatch {
            expected: "StringRef",
            actual: "u16"
        })
    );
    let region = AttributeValue::Region(RegionRef(1));
    assert_eq!(
        u64::try_from(region),
        Err(TypeMismatch {
            expected: "u64",
            actual: "RegionRef"
        })
    );
    assert_eq!(
        i8::try_from(AttributeValue::Empty),
        Err(TypeMismatch {
            expected: "i8",
            actual: "()"
        })
    );
    assert_eq!(
        Float64Bits::try_from(AttributeValue::Float32(Float32Bits(0))),
        Err(TypeMismatch {
            expected: "f64",
            actual: "f32"
        })
    );
}

#[test]
fn kind_and_name_follow_the_variant() {
    assert_eq!(AttributeValue::Empty.kind_name(), "()");
    assert_eq!(AttributeValue::Int64(3).kind_name(), "i64");
    assert_eq!(
        AttributeValue::Location(LocationRef(3)).kind_name(),
        "LocationRef"
    );
    assert_eq!(
        AttributeValue::Location(LocationRef(3)).kind(),
        TypeEnum::Location
    );
    assert_eq!(
        AttributeValue::Float32(Float32Bits(3)).kind(),
        TypeEnum::Float
    );
}

fn lookup(status: i32, attribute: u32, kind: u8, value: u64) -> AttributeLookup {
    AttributeLookup {
        status: ErrorCode(status),
        attribute: AttributeRef(attribute),
        kind: Type(kind),
        value: RawValue(value),
    }
}

type Entry = (AttributeRef, AttributeValue);

fn walk(list: &[AttributeLookup], length: u32) -> (Vec<Result<Entry, StatusCode>>, Vec<u32>) {
    let mut it = AttributeIterator::new(length);
    let mut yielded = Vec::new();
    let mut asked = Vec::new();
    while let Some(index) = it.next_index() {
        asked.push(index);
        yielded.push(it.next(list[index as usize]).unwrap());
        assert!(asked.len() <= list.len());
    }
    assert_eq!(it.next(lookup(OTF2_SUCCESS, 1, 1, 1)), None);
    assert_eq!(it.next_index(), None);
    (yielded, asked)
}

#[test]
fn the_iterator_yields_every_entry_once_in_index_order() {
    let list = vec![
        lookup(OTF2_SUCCESS, 10, 1, 7),
        lookup(OTF2_SUCCESS, 11, 14, 3),
        lookup(OTF2_SUCCESS, 12, 6, 0xffff),
    ];
    let mut it = AttributeIterator::new(3);
    assert_eq!(it.next_index(), Some(0));
    assert_eq!(it.next_index(), Some(0));
    assert_eq!(
        it.next(list[0]),
        Some(Ok((AttributeRef(10), AttributeValue::Uint8(7))))
    );
    assert_eq!(it.next_index(), Some(1));
    assert_eq!(
        it.next(list[1]),
        Some(Ok((AttributeRef(11), AttributeValue::Region(RegionRef(3)))))
    );
    assert_eq!(it.next_index(), Some(2));
    assert_eq!(
        it.next(list[2]),
        Some(Ok((AttributeRef(12), AttributeValue::Int16(-1))))
    );
    assert_eq!(it.next_index(), None);
    assert_eq!(it.next(list[0]), None);
    assert_eq!(it.next(list[1]), None);
    assert_eq!(it.next_index(), None);
}

#[test]
fn the_iterator_of_an_empty_list_is_at_its_end() {
    let mut it = AttributeIterator::new(0);
    assert_eq!(it.next_index(), None);
    assert_eq!(it.next(lookup(OTF2_SUCCESS, 10, 1, 7)), None);
    assert_eq!(it.next(lookup(OTF2_ERROR_EACCES, 0, 0, 0)), None);
    assert_eq!(walk(&[], 0), (vec![], vec![]));
}

#[test]
fn a_walk_gathers_the_list_as_far_as_its_length() {
    let list = vec![
        lookup(OTF2_SUCCESS, 10, 1, 7),
        lookup(OTF2_SUCCESS, 11, 14, 3),
        lookup(OTF2_SUCCESS, 12, 6, 0xffff),
    ];
    assert_eq!(
        walk(&list, 2),
        (
            vec![
                Ok((AttributeRef(10), AttributeValue::Uint8(7))),
                Ok((AttributeRef(11), AttributeValue::Region(RegionRef(3))))
            ],
            vec![0, 1]
        )
    );
    assert_eq!(walk(&list, 3).1, vec![0, 1, 2]);
}

#[test]
fn a_failed_lookup_is_handed_on_and_ends_the_walk() {
    let list = vec![
        lookup(OTF2_SUCCESS, 10, 1, 7),
        lookup(OTF2_ERROR_EACCES, 0, 0, 0),
        lookup(OTF2_SUCCESS, 12, 6, 1),
    ];
    assert_eq!(
        walk(&list, 3),
        (
            vec![
                Ok((AttributeRef(10), AttributeValue::Uint8(7))),
                Err(StatusCode::from_raw(ErrorCode(OTF2_ERROR_EACCES)))
            ],
            vec![0, 1]
        )
    );
    assert_eq!(
        AttributeIterator::get_attribute_by_index(list[1]),
        Err(StatusCode::from_raw(ErrorCode(OTF2_ERROR_EACCES)))
    );
    assert_eq!(
        AttributeIterator::get_attribute_by_index(list[2]),
        Ok((AttributeRef(12), AttributeValue::Int16(1)))
    );
}

#[test]
fn rows_decode_pair_by_pair_as_far_as_both_reach() {
    let types = vec![Type(1), Type(6), Type(99)];
    let values = vec![RawValue(5), RawValue(0xfffe)];
    assert_eq!(
        decode_values(&types, &values),
        vec![AttributeValue::Uint8(5), AttributeValue::Int16(-2)]
    );
    assert_eq!(decode_values(&vec![], &values), vec![]);
}

#[test]
fn a_payload_is_shown_as_its_tag_and_the_selected_field_in_decimal() {
    assert_eq!(
        RawValue::from_uint16(700).display(Type(2)),
        "OTF2_TYPE_UINT16(700)"
    );
    assert_eq!(RawValue(0).display(Type(1)), "OTF2_TYPE_UINT8(0)");
    assert_eq!(
        RawValue(0x1234_5678_9abc_def0).display(Type(1)),
        "OTF2_TYPE_UINT8(240)"
    );
    assert_eq!(
        RawValue::from_uint32(4_000_000_000).display(Type(3)),
        "OTF2_TYPE_UINT32(4000000000)"
    );
    assert_eq!(
        RawValue::from_uint64(u64::MAX).display(Type(4)),
        "OTF2_TYPE_UINT64(18446744073709551615)"
    );
    assert_eq!(
        RawValue::from_int8(-128).display(Type(5)),
        "OTF2_TYPE_INT8(-128)"
    );
    assert_eq!(
        RawValue::from_int16(-1).display(Type(6)),
        "OTF2_TYPE_INT16(-1)"
    );
    assert_eq!(
        RawValue::from_int32(2_000_000_000).display(Type(7)),
        "OTF2_TYPE_INT32(2000000000)"
    );
    assert_eq!(
        RawValue::from_int64(i64::MIN).display(Type(8)),
        "OTF2_TYPE_INT64(-9223372036854775808)"
    );
    assert_eq!(
        RawValue::from_int64(10).display(Type(8)),
        "OTF2_TYPE_INT64(10)"
    );
    assert_eq!(
        RawValue::from_uint32(1.5f32.to_bits()).display(Type(9)),
        format!("OTF2_TYPE_FLOAT({})", 1.5f32.to_bits())
    );
    assert_eq!(
        RawValue::from_uint64(1.5f64.to_bits()).display(Type(10)),
        format!("OTF2_TYPE_DOUBLE({})", 1.5f64.to_bits())
    );
    assert_eq!(
        RawValue::from_uint32(9).display(Type(11)),
        "OTF2_TYPE_STRING(9)"
    );
    assert_eq!(
        RawValue::from_uint64(1 << 40).display(Type(OTF2_TYPE_LOCATION)),
        "OTF2_TYPE_LOCATION(1099511627776)"
    );
    assert_eq!(
        RawValue::from_uint32(101).display(Type(25)),
        "OTF2_TYPE_LOCATION_GROUP(101)"
    );
    assert_eq!(
        RawValue(0x1ff).display(Type(OTF2_TYPE_NONE)),
        "OTF2_TYPE_NONE(255)"
    );
    assert_eq!(RawValue(7).display(Type(99)), "OTF2_TYPE_NONE(7)");
    assert_eq!(TypeEnum::RmaWin.name(), "OTF2_TYPE_RMA_WIN");
    let mut text = String::from("n = ");
    otf2::display::push_decimal(&mut text, 1090);
    otf2::display::push_signed_decimal(&mut text, -50);
    assert_eq!(text, "n = 1090-50");
}
