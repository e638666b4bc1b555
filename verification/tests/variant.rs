use renga_api_rs::error::{DISP_E_OVERFLOW, DISP_E_TYPEMISMATCH, TYPE_E_TYPEMISMATCH};
use renga_api_rs::{Dispatch, Error, Variant, Version};

fn code<T: std::fmt::Debug>(result: Result<T, Error>) -> i32 {
    match result {
        Err(Error::WinApi(code)) => code,
        other => panic!("unexpected: {:?}", other),
    }
}

fn one_of_each() -> Vec<Variant> {
    vec![
        Variant::Empty,
        Variant::Bool(true),
        Variant::I8(-8),
        Variant::I16(-16),
        Variant::I32(-32),
        Variant::I64(-64),
        Variant::U8(8),
        Variant::U16(16),
        Variant::U32(32),
        Variant::U64(64),
        Variant::F32(1.5f32.to_bits()),
        Variant::F64(2.5f64.to_bits()),
        Variant::Str("text".to_owned()),
        Variant::Object(Dispatch::from_raw(7)),
        Variant::Record(vec![1, 2, 3]),
    ]
}

#[test]
fn every_primitive_kind_round_trips() {
    for value in [false, true] {
        assert_eq!(Variant::from(value).as_bool().unwrap(), value);
    }
    for value in [u16::MIN, 1, 0x1234, u16::MAX] {
        assert_eq!(Variant::from(value).as_u16().unwrap(), value);
    }
    for value in [u32::MIN, 1, 0x1234_5678, u32::MAX] {
        assert_eq!(Variant::from(value).as_u32().unwrap(), value);
        assert_eq!(Variant::from(value).as_unsigned().unwrap(), value);
    }
    for value in [u64::MIN, 1, 0x1234_5678_9abc_def0, u64::MAX] {
        assert_eq!(Variant::from(value).as_u64().unwrap(), value);
    }
    for value in [i16::MIN, -1, 0, 1, i16::MAX] {
        assert_eq!(Variant::from(value).as_i16().unwrap(), value);
    }
    for value in [i32::MIN, -1, 0, 1, i32::MAX] {
        assert_eq!(Variant::from(value).as_i32().unwrap(), value);
        assert_eq!(Variant::from(value).as_int().unwrap(), value);
    }
    for value in [i64::MIN, -1, 0, 1, i64::MAX] {
        assert_eq!(Variant::from(value).as_i64().unwrap(), value);
    }
    for value in [0.0f64, -1.25, f64::MAX, f64::MIN_POSITIVE, f64::INFINITY] {
        let read = Variant::from_f64_bits(value.to_bits()).as_f64_bits().unwrap();
        assert_eq!(f64::from_bits(read), value);
    }
    assert_eq!(Variant::from("text".to_owned()).into_string().unwrap(), "text");
    assert_eq!(Variant::from_text("").into_string().unwrap(), "");
    assert_eq!(Variant::from_text("\u{e9}t\u{e9}").into_string().unwrap(), "\u{e9}t\u{e9}");
    let handle = Dispatch::from_raw(42);
    assert_eq!(Variant::from(handle).into_dispatch().unwrap(), handle);
    assert_eq!(
        Variant::from_record_bytes(vec![1, 2, 3]).as_record_bytes().unwrap(),
        vec![1, 2, 3]
    );
}

#[test]
fn an_accessor_of_another_kind_fails_with_a_conversion_error() {
    for value in one_of_each() {
        if !matches!(value, Variant::Bool(_)) {
            assert_eq!(code(value.as_bool()), DISP_E_TYPEMISMATCH);
        }
        if !matches!(value, Variant::Str(_)) {
            assert_eq!(code(value.into_string()), DISP_E_TYPEMISMATCH);
        }
        if !matches!(value, Variant::Object(_)) {
            assert_eq!(code(value.into_dispatch()), TYPE_E_TYPEMISMATCH);
        }
        if !matches!(value, Variant::F64(_)) {
            assert_eq!(code(value.as_f64_bits()), DISP_E_TYPEMISMATCH);
        }
        if !matches!(value, Variant::Record(_)) {
            assert_eq!(code(value.as_record_bytes()), DISP_E_TYPEMISMATCH);
        }
        let integer = matches!(
            value,
            Variant::I8(_)
                | Variant::I16(_)
                | Variant::I32(_)
                | Variant::I64(_)
                | Variant::U8(_)
                | Variant::U16(_)
                | Variant::U32(_)
                | Variant::U64(_)
        );
        if !integer {
            assert_eq!(code(value.as_i16()), DISP_E_TYPEMISMATCH);
            assert_eq!(code(value.as_i32()), DISP_E_TYPEMISMATCH);
            assert_eq!(code(value.as_i64()), DISP_E_TYPEMISMATCH);
            assert_eq!(code(value.as_u16()), DISP_E_TYPEMISMATCH);
            assert_eq!(code(value.as_u32()), DISP_E_TYPEMISMATCH);
            assert_eq!(code(value.as_u64()), DISP_E_TYPEMISMATCH);
            assert_eq!(code(value.as_int()), DISP_E_TYPEMISMATCH);
            assert_eq!(code(value.as_unsigned()), DISP_E_TYPEMISMATCH);
        }
    }
}

#[test]
fn requesting_a_boolean_from_a_string_fails() {
    assert!(matches!(
        Variant::from_text("true").as_bool(),
        Err(Error::WinApi(DISP_E_TYPEMISMATCH))
    ));
    assert!(matches!(Variant::I32(1).as_bool(), Err(Error::WinApi(DISP_E_TYPEMISMATCH))));
    assert!(matches!(Variant::Bool(true).as_i32(), Err(Error::WinApi(DISP_E_TYPEMISMATCH))));
}

#[test]
fn integers_widen_and_narrow_where_the_number_fits() {
    assert_eq!(Variant::I16(-5).as_i32().unwrap(), -5);
    assert_eq!(Variant::I16(-5).as_i64().unwrap(), -5);
    assert_eq!(Variant::I8(-5).as_i16().unwrap(), -5);
    assert_eq!(Variant::U8(200).as_i16().unwrap(), 200);
    assert_eq!(Variant::U8(200).as_u64().unwrap(), 200);
    assert_eq!(Variant::I64(70_000).as_i32().unwrap(), 70_000);
    assert_eq!(Variant::I64(65_535).as_u16().unwrap(), 65_535);
    assert_eq!(Variant::U64(0x7fff_ffff).as_i32().unwrap(), i32::MAX);
    assert_eq!(Variant::U32(u32::MAX).as_i64().unwrap(), 0xffff_ffff);
    assert_eq!(Variant::I32(0).as_u64().unwrap(), 0);
    assert_eq!(Variant::U64(u64::MAX).as_u64().unwrap(), u64::MAX);
    assert_eq!(Variant::I64(i64::MIN).as_i64().unwrap(), i64::MIN);
}

#[test]
fn integers_that_do_not_fit_overflow() {
    assert_eq!(code(Variant::I32(-1).as_u32()), DISP_E_OVERFLOW);
    assert_eq!(code(Variant::I32(-1).as_u16()), DISP_E_OVERFLOW);
    assert_eq!(code(Variant::I64(-1).as_u64()), DISP_E_OVERFLOW);
    assert_eq!(code(Variant::I32(65_536).as_u16()), DISP_E_OVERFLOW);
    assert_eq!(code(Variant::I32(32_768).as_i16()), DISP_E_OVERFLOW);
    assert_eq!(code(Variant::I32(-32_769).as_i16()), DISP_E_OVERFLOW);
    assert_eq!(code(Variant::U32(0x8000_0000).as_i32()), DISP_E_OVERFLOW);
    assert_eq!(code(Variant::I64(-0x8000_0001).as_i32()), DISP_E_OVERFLOW);
    assert_eq!(code(Variant::U64(0x1_0000_0000).as_u32()), DISP_E_OVERFLOW);
    assert_eq!(code(Variant::U64(0x8000_0000_0000_0000).as_i64()), DISP_E_OVERFLOW);
    assert_eq!(code(Variant::U64(u64::MAX).as_int()), DISP_E_OVERFLOW);
    assert_eq!(code(Variant::I8(-1).as_unsigned()), DISP_E_OVERFLOW);
}

#[test]
fn the_conversion_statuses_are_those_of_the_call_layer() {
    assert_eq!(DISP_E_TYPEMISMATCH as u32, 0x8002_0005);
    assert_eq!(DISP_E_OVERFLOW as u32, 0x8002_000a);
    assert_eq!(TYPE_E_TYPEMISMATCH as u32, 0x8002_8ca0);
}

#[test]
fn a_null_object_cannot_be_extracted() {
    assert_eq!(code(Variant::Object(Dispatch::null()).into_dispatch()), TYPE_E_TYPEMISMATCH);
    assert_eq!(code(Variant::Object(Dispatch::from_raw(0)).into_dispatch()), TYPE_E_TYPEMISMATCH);
    assert_eq!(code(Variant::Empty.into_dispatch()), TYPE_E_TYPEMISMATCH);
}

#[test]
fn an_extracted_handle_is_independent_of_the_value() {
    let value = Variant::Object(Dispatch::from_raw(9));
    let first = value.into_dispatch().unwrap();
    let second = value.into_dispatch().unwrap();
    drop(value);
    assert_eq!(first, second);
    assert_eq!(first.as_raw(), 9);
}

#[test]
fn tags_have_the_numbers_of_the_call_convention() {
    let tags: Vec<u16> = one_of_each().iter().map(|value| value.vt()).collect();
    assert_eq!(tags, vec![0, 11, 16, 2, 3, 20, 17, 18, 19, 21, 4, 5, 8, 9, 36]);
}

#[test]
fn native_values_get_their_own_tags() {
    assert!(matches!(Variant::from(()), Variant::Empty));
    assert!(matches!(Variant::from(true), Variant::Bool(true)));
    assert!(matches!(Variant::from(1u8), Variant::U8(1)));
    assert!(matches!(Variant::from(1u16), Variant::U16(1)));
    assert!(matches!(Variant::from(1u32), Variant::U32(1)));
    assert!(matches!(Variant::from(1u64), Variant::U64(1)));
    assert!(matches!(Variant::from(-1i8), Variant::I8(-1)));
    assert!(matches!(Variant::from(-1i16), Variant::I16(-1)));
    assert!(matches!(Variant::from(-1i32), Variant::I32(-1)));
    assert!(matches!(Variant::from(-1i64), Variant::I64(-1)));
    assert!(matches!(Variant::from_f32_bits(7), Variant::F32(7)));
    let value: Variant = 5i32.into();
    assert_eq!(value.as_int().unwrap(), 5);
}

#[test]
fn a_copy_holds_the_same_value() {
    for value in one_of_each() {
        let copy = value.duplicate();
        assert_eq!(format!("{:?}", copy), format!("{:?}", value));
    }
}

#[test]
fn a_version_record_decodes_from_its_bytes() {
    let mut bytes = Vec::new();
    bytes.extend_from_slice(&8i32.to_le_bytes());
    bytes.extend_from_slice(&1i32.to_le_bytes());
    bytes.extend_from_slice(&1234i32.to_le_bytes());
    let version = Version::from_variant(&Variant::Record(bytes)).unwrap();
    assert_eq!(version, Version { major: 8, minor: 1, build: 1234 });
    assert_eq!(version.semantic(), (8, 1, 1234));
}

#[test]
fn a_version_record_decodes_extreme_fields() {
    let mut bytes = Vec::new();
    bytes.extend_from_slice(&i32::MIN.to_le_bytes());
    bytes.extend_from_slice(&(-1i32).to_le_bytes());
    bytes.extend_from_slice(&i32::MAX.to_le_bytes());
    bytes.extend_from_slice(&[0xaa, 0xbb]);
    let version = Version::from_variant(&Variant::Record(bytes)).unwrap();
    assert_eq!(version, Version::new(i32::MIN, -1, i32::MAX));
    assert_eq!(
        version.semantic(),
        (i32::MIN as u64, u64::MAX, 0x7fff_ffff)
    );
    let bytes = vec![0x78, 0x56, 0x34, 0x12, 0, 0, 0, 0x80, 0xff, 0xff, 0xff, 0x7f];
    assert_eq!(
        Version::from_variant(&Variant::Record(bytes)).unwrap(),
        Version::new(0x1234_5678, i32::MIN, i32::MAX)
    );
}

#[test]
fn a_version_needs_a_record_of_twelve_bytes() {
    assert_eq!(code(Version::from_variant(&Variant::Record(vec![0; 11]))), DISP_E_TYPEMISMATCH);
    assert_eq!(code(Version::from_variant(&Variant::Record(vec![]))), DISP_E_TYPEMISMATCH);
    assert_eq!(code(Version::from_variant(&Variant::I32(8))), DISP_E_TYPEMISMATCH);
    assert_eq!(code(Version::from_variant(&Variant::Empty)), DISP_E_TYPEMISMATCH);
    assert!(Version::from_variant(&Variant::Record(vec![0; 12])).is_ok());
}

#[test]
fn the_crate_is_based_on_a_known_version() {
    assert_eq!(renga_api_rs::meta::renga_version(), Version::new(8, 1, 0));
}
