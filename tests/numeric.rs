use better_duck_core::bytes::encode_le;
use better_duck_core::decimal::DecimalValue;
use better_duck_core::decode::ColumnVector;
use better_duck_core::error::ConversionError;
use better_duck_core::hugeint::{hugeint_from_i128, i128_from_hugeint, Hugeint};
use better_duck_core::value::{DuckValue, TypeTag};
use rust_decimal::Decimal;

fn column(tag: TypeTag, data: Vec<u8>) -> ColumnVector {
    ColumnVector {
        type_tag: tag,
        data,
        validity: None,
        texts: Vec::new(),
        decimal_width: 0,
        decimal_scale: 0,
        array_size: 0,
        child: None,
    }
}

fn decode_one(tag: TypeTag, data: Vec<u8>) -> DuckValue {
    let col = column(tag, data);
    DuckValue::from_duckdb_vec(&col, tag, 0).unwrap()
}

fn wide_bytes(h: Hugeint) -> Vec<u8> {
    let mut data = encode_le(h.lower, 8);
    data.extend(encode_le(h.upper as u64, 8));
    data
}

#[test]
fn test_i8_conversion() {
    let value: i8 = 42;
    let converted_value = match decode_one(TypeTag::TinyInt, encode_le(value as u8 as u64, 1)) {
        DuckValue::TinyInt(v) => v,
        other => panic!("unexpected {:?}", other),
    };
    assert_eq!(value, converted_value);
}

#[test]
fn test_u8_conversion() {
    let value: u8 = 42;
    let converted_value = match decode_one(TypeTag::UTinyInt, encode_le(value as u64, 1)) {
        DuckValue::UTinyInt(v) => v,
        other => panic!("unexpected {:?}", other),
    };
    assert_eq!(value, converted_value);
}

#[test]
fn test_i16_conversion() {
    let value: i16 = 42;
    let converted_value = match decode_one(TypeTag::SmallInt, encode_le(value as u16 as u64, 2)) {
        DuckValue::SmallInt(v) => v,
        other => panic!("unexpected {:?}", other),
    };
    assert_eq!(value, converted_value);
}

#[test]
fn test_u16_conversion() {
    let value: u16 = 42;
    let converted_value = match decode_one(TypeTag::USmallInt, encode_le(value as u64, 2)) {
        DuckValue::USmallInt(v) => v,
        other => panic!("unexpected {:?}", other),
    };
    assert_eq!(value, converted_value);
}

#[test]
fn test_i32_conversion() {
    let value: i32 = 42;
    let converted_value = match decode_one(TypeTag::Integer, encode_le(value as u32 as u64, 4)) {
        DuckValue::Int(v) => v,
        other => panic!("unexpected {:?}", other),
    };
    assert_eq!(value, converted_value);
}

#[test]
fn test_u32_conversion() {
    let value: u32 = 42;
    let converted_value = match decode_one(TypeTag::UInteger, encode_le(value as u64, 4)) {
        DuckValue::UInt(v) => v,
        other => panic!("unexpected {:?}", other),
    };
    assert_eq!(value, converted_value);
}

#[test]
fn test_i64_conversion() {
    let value: i64 = 42;
    let converted_value = match decode_one(TypeTag::BigInt, encode_le(value as u64, 8)) {
        DuckValue::BigInt(v) => v,
        other => panic!("unexpected {:?}", other),
    };
    assert_eq!(value, converted_value);
}

#[test]
fn test_u64_conversion() {
    let value: u64 = 42;
    let converted_value = match decode_one(TypeTag::UBigInt, encode_le(value, 8)) {
        DuckValue::UBigInt(v) => v,
        other => panic!("unexpected {:?}", other),
    };
    assert_eq!(value, converted_value);
}

#[test]
fn test_f32_conversion() {
    let value: f32 = 42.0;
    let converted_value = match decode_one(TypeTag::Float, encode_le(value.to_bits() as u64, 4)) {
        DuckValue::Float(bits) => f32::from_bits(bits),
        other => panic!("unexpected {:?}", other),
    };
    assert_eq!(value, converted_value);
}

#[test]
fn test_f64_conversion() {
    let value: f64 = 42.0;
    let converted_value = match decode_one(TypeTag::Double, encode_le(value.to_bits(), 8)) {
        DuckValue::Double(bits) => f64::from_bits(bits),
        other => panic!("unexpected {:?}", other),
    };
    assert_eq!(value, converted_value);
}

#[test]
fn test_i128_conversion() {
    let value: i128 = 5;
    let converted_value = i128_from_hugeint(hugeint_from_i128(value));
    assert_eq!(value, converted_value);

    let value: i128 = 170141183460469231722463931679029329919;
    let converted_value = i128_from_hugeint(hugeint_from_i128(value));
    assert_eq!(value, converted_value);

    let value: i128 = -5;
    let converted_value = i128_from_hugeint(hugeint_from_i128(value));
    assert_eq!(value, converted_value);

    let value: i128 = -170141183460469231722463931679029329919;
    let converted_value = i128_from_hugeint(hugeint_from_i128(value));
    assert_eq!(value, converted_value);
}

#[test]
fn hugeint_limbs_are_twos_complement() {
    assert_eq!(hugeint_from_i128(-1), Hugeint { lower: u64::MAX, upper: -1 });
    assert_eq!(hugeint_from_i128(1 << 64), Hugeint { lower: 0, upper: 1 });
    assert_eq!(hugeint_from_i128(-(1 << 64)), Hugeint { lower: 0, upper: -1 });
    assert_eq!(hugeint_from_i128(i128::MIN), Hugeint { lower: 0, upper: i64::MIN });
    assert_eq!(hugeint_from_i128(i128::MAX), Hugeint { lower: u64::MAX, upper: i64::MAX });
    assert_eq!(i128_from_hugeint(Hugeint { lower: 3, upper: -2 }), -2 * (1i128 << 64) + 3);
}

#[test]
fn hugeint_cells_round_trip() {
    for value in [0i128, 5, -5, i128::MAX, i128::MIN, -(1 << 64) - 1] {
        match decode_one(TypeTag::HugeInt, wide_bytes(hugeint_from_i128(value))) {
            DuckValue::HugeInt(v) => assert_eq!(v, value),
            other => panic!("unexpected {:?}", other),
        }
    }
    match decode_one(TypeTag::UHugeInt, wide_bytes(Hugeint { lower: 7, upper: -1 })) {
        DuckValue::UHugeInt(v) => assert_eq!(v, u128::MAX - u64::MAX as u128 + 7),
        other => panic!("unexpected {:?}", other),
    }
}

#[test]
fn signed_cells_round_trip_at_extremes() {
    match decode_one(TypeTag::TinyInt, encode_le(i8::MIN as u8 as u64, 1)) {
        DuckValue::TinyInt(v) => assert_eq!(v, i8::MIN),
        other => panic!("unexpected {:?}", other),
    }
    match decode_one(TypeTag::Integer, encode_le((-1i32) as u32 as u64, 4)) {
        DuckValue::Int(v) => assert_eq!(v, -1),
        other => panic!("unexpected {:?}", other),
    }
    match decode_one(TypeTag::BigInt, encode_le(i64::MIN as u64, 8)) {
        DuckValue::BigInt(v) => assert_eq!(v, i64::MIN),
        other => panic!("unexpected {:?}", other),
    }
    match decode_one(TypeTag::Boolean, vec![2]) {
        DuckValue::Boolean(b) => assert!(b),
        other => panic!("unexpected {:?}", other),
    }
}

fn decimal_cell(d: DecimalValue) -> ColumnVector {
    let native = d.to_native().unwrap();
    let width = native.width;
    let data = if width <= 4 {
        encode_le(d.mantissa as i16 as u16 as u64, 2)
    } else if width <= 9 {
        encode_le(d.mantissa as i32 as u32 as u64, 4)
    } else if width <= 18 {
        encode_le(d.mantissa as i64 as u64, 8)
    } else {
        wide_bytes(native.value)
    };
    let mut col = column(TypeTag::Decimal, data);
    col.decimal_width = width;
    col.decimal_scale = native.scale;
    col
}

fn round_trip(value: Decimal) -> Decimal {
    let d = DecimalValue { mantissa: value.mantissa(), scale: value.scale() };
    let col = decimal_cell(d);
    match DuckValue::from_duckdb_vec(&col, TypeTag::Decimal, 0).unwrap() {
        DuckValue::Decimal(x) => Decimal::from_i128_with_scale(x.mantissa, x.scale),
        other => panic!("unexpected {:?}", other),
    }
}

#[test]
fn test_decimal_conversion() {
    let value = Decimal::from_i128_with_scale(-0x0000_0000_FFFF_FFFF_FFFF_FFFF_FFFF_FFFF, 0);
    assert_eq!(value, round_trip(value));

    let value = Decimal::from_i128_with_scale(
        -0x0000_0000_FFFF_FFFF_FFFF_FFFF_FFFF_FFFF,
        Decimal::MAX_SCALE,
    );
    assert_eq!(value, round_trip(value));

    let value = Decimal::from_i128_with_scale(-42, 4);
    assert_eq!(value, round_trip(value));

    let value = Decimal::from_i128_with_scale(-42, 0);
    assert_eq!(value, round_trip(value));

    let value = Decimal::from_i128_with_scale(0, 4);
    assert_eq!(value, round_trip(value));

    let value = Decimal::from_i128_with_scale(0x0000_0000_FFFF_FFFF_FFFF_FFFF_FFFF_FFFF, 0);
    assert_eq!(value, round_trip(value));

    let value = Decimal::from_i128_with_scale(
        0x0000_0000_FFFF_FFFF_FFFF_FFFF_FFFF_FFFF,
        Decimal::MAX_SCALE,
    );
    assert_eq!(value, round_trip(value));
}

#[test]
fn decimal_native_width_follows_text_length() {
    let n = DecimalValue { mantissa: 42, scale: 4 }.to_native().unwrap();
    assert_eq!((n.width, n.scale), (5, 4));
    let n = DecimalValue { mantissa: -42, scale: 4 }.to_native().unwrap();
    assert_eq!((n.width, n.scale), (4, 4));
    let n = DecimalValue { mantissa: -12345, scale: 2 }.to_native().unwrap();
    assert_eq!((n.width, n.scale), (5, 2));
    assert_eq!(n.value, hugeint_from_i128(-12345));
    assert!(matches!(
        DecimalValue { mantissa: 1, scale: 300 }.to_native(),
        Err(ConversionError::PrecisionLoss(_))
    ));
}

#[test]
fn decimal_scale_beyond_range_is_precision_loss() {
    let mut col = column(TypeTag::Decimal, encode_le(5, 2));
    col.decimal_width = 4;
    col.decimal_scale = 29;
    assert!(matches!(
        DuckValue::from_duckdb_vec(&col, TypeTag::Decimal, 0),
        Err(ConversionError::PrecisionLoss(_))
    ));
}
