use bigdecimal::BigDecimal;
use cql_deser::coltype::ColumnType;
use num_bigint::BigInt;
use cql_deser::errors::{BuiltinDeserializationErrorKind, DeserializationError};
use cql_deser::slots::FrameSlice;
use cql_deser::value::{
    Counter, CqlDecimal, CqlValue, CqlVarint, DeserializeValue, DoubleBits, FloatBits,
    MaybeEmpty,
};

fn make_bytes(cell: &[u8]) -> Vec<u8> {
    let mut b: Vec<u8> = Vec::new();
    b.extend_from_slice(&(cell.len() as i32).to_be_bytes());
    b.extend_from_slice(cell);
    b
}

fn read_cell(raw: &[u8]) -> Option<&[u8]> {
    let n = i32::from_be_bytes(raw[0..4].try_into().unwrap());
    if n < 0 {
        None
    } else {
        Some(&raw[4..4 + n as usize])
    }
}

fn deserialize<'f, T: DeserializeValue<'f>>(
    typ: &'f ColumnType,
    bytes: &'f [u8],
) -> Result<T, DeserializationError> {
    T::type_check(typ).unwrap();
    let cell = read_cell(bytes).map(FrameSlice::new);
    T::deserialize(typ, cell)
}

#[test]
fn test_deserialize_bytes() {
    const ORIGINAL_BYTES: &[u8] = &[1, 5, 2, 4, 3];

    let bytes = make_bytes(ORIGINAL_BYTES);

    let decoded_slice = deserialize::<&[u8]>(&ColumnType::Blob, &bytes).unwrap();
    let decoded_vec = deserialize::<Vec<u8>>(&ColumnType::Blob, &bytes).unwrap();
    let decoded_bytes = deserialize::<bytes::Bytes>(&ColumnType::Blob, &bytes).unwrap();

    assert_eq!(decoded_slice, ORIGINAL_BYTES);
    assert_eq!(decoded_vec, ORIGINAL_BYTES);
    assert_eq!(decoded_bytes, ORIGINAL_BYTES);
}

#[test]
fn test_deserialize_ascii() {
    const ASCII_TEXT: &str = "The quick brown fox jumps over the lazy dog";

    let ascii = make_bytes(ASCII_TEXT.as_bytes());

    let decoded_ascii_str = deserialize::<&str>(&ColumnType::Ascii, &ascii).unwrap();
    let decoded_ascii_string = deserialize::<String>(&ColumnType::Ascii, &ascii).unwrap();
    let decoded_text_str = deserialize::<&str>(&ColumnType::Text, &ascii).unwrap();
    let decoded_text_string = deserialize::<String>(&ColumnType::Text, &ascii).unwrap();

    assert_eq!(decoded_ascii_str, ASCII_TEXT);
    assert_eq!(decoded_ascii_string, ASCII_TEXT);
    assert_eq!(decoded_text_str, ASCII_TEXT);
    assert_eq!(decoded_text_string, ASCII_TEXT);
}

#[test]
fn test_deserialize_text() {
    const UNICODE_TEXT: &str = "Zażółć gęślą jaźń";

    let unicode = make_bytes(UNICODE_TEXT.as_bytes());

    // Should fail because it's not an ASCII string
    deserialize::<&str>(&ColumnType::Ascii, &unicode).unwrap_err();
    deserialize::<String>(&ColumnType::Ascii, &unicode).unwrap_err();

    let decoded_text_str = deserialize::<&str>(&ColumnType::Text, &unicode).unwrap();
    let decoded_text_string = deserialize::<String>(&ColumnType::Text, &unicode).unwrap();
    assert_eq!(decoded_text_str, UNICODE_TEXT);
    assert_eq!(decoded_text_string, UNICODE_TEXT);
}

#[test]
fn test_integral() {
    let tinyint = make_bytes(&[0x01]);
    let decoded_tinyint = deserialize::<i8>(&ColumnType::TinyInt, &tinyint).unwrap();
    assert_eq!(decoded_tinyint, 0x01);

    let smallint = make_bytes(&[0x01, 0x02]);
    let decoded_smallint = deserialize::<i16>(&ColumnType::SmallInt, &smallint).unwrap();
    assert_eq!(decoded_smallint, 0x0102);

    let int = make_bytes(&[0x01, 0x02, 0x03, 0x04]);
    let decoded_int = deserialize::<i32>(&ColumnType::Int, &int).unwrap();
    assert_eq!(decoded_int, 0x01020304);

    let bigint = make_bytes(&[0x01, 0x02, 0x03, 0x04, 0x05, 0x06, 0x07, 0x08]);
    let decoded_bigint = deserialize::<i64>(&ColumnType::BigInt, &bigint).unwrap();
    assert_eq!(decoded_bigint, 0x0102030405060708);
}

#[test]
fn test_bool() {
    for boolean in [true, false] {
        let boolean_bytes = make_bytes(&[boolean as u8]);
        let decoded_bool = deserialize::<bool>(&ColumnType::Boolean, &boolean_bytes).unwrap();
        assert_eq!(decoded_bool, boolean);
    }
}

#[test]
fn test_floating_point() {
    let float = make_bytes(&[63, 0, 0, 0]);
    let decoded_float = deserialize::<FloatBits>(&ColumnType::Float, &float).unwrap();
    assert_eq!(f32::from_bits(decoded_float.bits), 0.5);

    let double = make_bytes(&[64, 0, 0, 0, 0, 0, 0, 0]);
    let decoded_double = deserialize::<DoubleBits>(&ColumnType::Double, &double).unwrap();
    assert_eq!(f64::from_bits(decoded_double.bits), 2.0);
}

fn compat_check<T>(typ: &ColumnType, raw: Vec<u8>, expected: T)
where
    T: for<'f> DeserializeValue<'f>,
    T: std::fmt::Debug + PartialEq,
{
    let decoded = deserialize::<T>(typ, &raw).unwrap();
    assert_eq!(decoded, expected);
}

#[test]
fn test_from_cql_value_compatibility() {
    // This test should have a sub-case for each type
    // that implements the deserialization contract

    // fixed size integers
    for i in 0..7 {
        let v: i8 = 1 << i;
        compat_check::<i8>(&ColumnType::TinyInt, make_bytes(&v.to_be_bytes()), v);
        compat_check::<i8>(&ColumnType::TinyInt, make_bytes(&(-v).to_be_bytes()), -v);
    }
    for i in 0..15 {
        let v: i16 = 1 << i;
        compat_check::<i16>(&ColumnType::SmallInt, make_bytes(&v.to_be_bytes()), v);
        compat_check::<i16>(&ColumnType::SmallInt, make_bytes(&(-v).to_be_bytes()), -v);
    }
    for i in 0..31 {
        let v: i32 = 1 << i;
        compat_check::<i32>(&ColumnType::Int, make_bytes(&v.to_be_bytes()), v);
        compat_check::<i32>(&ColumnType::Int, make_bytes(&(-v).to_be_bytes()), -v);
    }
    for i in 0..63 {
        let v: i64 = 1 << i;
        compat_check::<i64>(&ColumnType::BigInt, make_bytes(&v.to_be_bytes()), v);
        compat_check::<i64>(&ColumnType::BigInt, make_bytes(&(-v).to_be_bytes()), -v);
    }

    // bool
    compat_check::<bool>(&ColumnType::Boolean, make_bytes(&[0]), false);
    compat_check::<bool>(&ColumnType::Boolean, make_bytes(&[1]), true);

    // fixed size floating point types
    let cases: [f32; 2] = [123f32, -123f32];
    for v in cases {
        let raw = make_bytes(&v.to_be_bytes());
        let decoded = deserialize::<FloatBits>(&ColumnType::Float, &raw).unwrap();
        assert_eq!(f32::from_bits(decoded.bits), v);
    }
    let cases: [f64; 2] = [123f64, -123f64];
    for v in cases {
        let raw = make_bytes(&v.to_be_bytes());
        let decoded = deserialize::<DoubleBits>(&ColumnType::Double, &raw).unwrap();
        assert_eq!(f64::from_bits(decoded.bits), v);
    }

    // big integers
    const PI_STR: &[u8] = b"3.1415926535897932384626433832795028841971693993751058209749445923";
    let num1 = &PI_STR[2..];
    let num2 = [b'-']
        .into_iter()
        .chain(PI_STR[2..].iter().copied())
        .collect::<Vec<_>>();
    let num3 = &b"0"[..];

    // native - CqlVarint
    {
        let num1 = CqlVarint::from_signed_bytes_be_slice(num1);
        let num2 = CqlVarint::from_signed_bytes_be_slice(&num2);
        let num3 = CqlVarint::from_signed_bytes_be_slice(num3);
        for v in [num1, num2, num3] {
            let raw = make_bytes(v.as_signed_bytes_be_slice());
            compat_check::<CqlVarint>(&ColumnType::Varint, raw, v);
        }
    }

    // num-bigint
    {
        let num1 = BigInt::parse_bytes(num1, 10).unwrap();
        let num2 = BigInt::parse_bytes(&num2, 10).unwrap();
        let num3 = BigInt::parse_bytes(num3, 10).unwrap();
        for v in [num1, num2, num3] {
            let raw = make_bytes(&v.to_signed_bytes_be());
            compat_check::<BigInt>(&ColumnType::Varint, raw, v);
        }
    }

    // big decimals
    {
        let scale1: i32 = 0;
        let scale2: i32 = -42;
        let scale3: i32 = 2137;
        let num1 = CqlDecimal::from_signed_be_bytes_slice_and_exponent(num1, scale1);
        let num2 = CqlDecimal::from_signed_be_bytes_and_exponent(num2.clone(), scale2);
        let num3 = CqlDecimal::from_signed_be_bytes_slice_and_exponent(num3, scale3);
        for v in [num1, num2, num3] {
            let (digits, scale) = v.as_signed_be_bytes_slice_and_exponent();
            let mut cell: Vec<u8> = Vec::new();
            cell.extend_from_slice(&scale.to_be_bytes());
            cell.extend_from_slice(digits);
            let raw = make_bytes(&cell);
            compat_check::<CqlDecimal>(&ColumnType::Decimal, raw, v);
        }
    }

    // bigdecimal
    {
        let num1 = PI_STR.to_vec();
        let num2 = vec![b'-']
            .into_iter()
            .chain(PI_STR.iter().copied())
            .collect::<Vec<_>>();
        let num3 = b"0.0".to_vec();

        let num1 = BigDecimal::parse_bytes(&num1, 10).unwrap();
        let num2 = BigDecimal::parse_bytes(&num2, 10).unwrap();
        let num3 = BigDecimal::parse_bytes(&num3, 10).unwrap();
        for v in [num1, num2, num3] {
            let (int_val, scale) = v.as_bigint_and_exponent();
            let mut cell: Vec<u8> = Vec::new();
            cell.extend_from_slice(&(scale as i32).to_be_bytes());
            cell.extend_from_slice(&int_val.to_signed_bytes_be());
            let raw = make_bytes(&cell);
            compat_check::<BigDecimal>(&ColumnType::Decimal, raw, v);
        }
    }

    // blob
    compat_check::<Vec<u8>>(&ColumnType::Blob, make_bytes(&[]), vec![]);
    compat_check::<Vec<u8>>(
        &ColumnType::Blob,
        make_bytes(&[1, 9, 2, 8, 3, 7, 4, 6, 5]),
        vec![1, 9, 2, 8, 3, 7, 4, 6, 5],
    );

    // text types
    for typ in &[ColumnType::Ascii, ColumnType::Text] {
        compat_check::<String>(typ, make_bytes("".as_bytes()), String::new());
        compat_check::<String>(typ, make_bytes("foo".as_bytes()), "foo".to_string());
        compat_check::<String>(
            typ,
            make_bytes("superfragilisticexpialidocious".as_bytes()),
            "superfragilisticexpialidocious".to_string(),
        );
    }

    // counters
    for i in 0..63 {
        let v: i64 = 1 << i;
        compat_check::<Counter>(&ColumnType::Counter, make_bytes(&v.to_be_bytes()), Counter(v));
    }
}

#[test]
fn type_check_exact_tag_sets() {
    // accepted tags pass
    assert!(<i32 as DeserializeValue>::type_check(&ColumnType::Int).is_ok());
    assert!(<i64 as DeserializeValue>::type_check(&ColumnType::BigInt).is_ok());
    assert!(<i64 as DeserializeValue>::type_check(&ColumnType::Counter).is_ok());
    assert!(<String as DeserializeValue>::type_check(&ColumnType::Ascii).is_ok());
    assert!(<String as DeserializeValue>::type_check(&ColumnType::Text).is_ok());

    // any other tag fails with MismatchedType naming the accepted set
    let err = <i32 as DeserializeValue>::type_check(&ColumnType::Boolean).unwrap_err();
    assert_eq!(err.0.cql_type, ColumnType::Boolean);
    match err.0.kind {
        cql_deser::errors::BuiltinTypeCheckErrorKind::MismatchedType { expected } => {
            assert_eq!(expected, vec![ColumnType::Int]);
        }
        _ => panic!("unexpected type-check error kind"),
    }

    let err = <i64 as DeserializeValue>::type_check(&ColumnType::Int).unwrap_err();
    match err.0.kind {
        cql_deser::errors::BuiltinTypeCheckErrorKind::MismatchedType { expected } => {
            assert_eq!(expected, vec![ColumnType::BigInt, ColumnType::Counter]);
        }
        _ => panic!("unexpected type-check error kind"),
    }

    // the dynamic fallback accepts every tag
    assert!(<CqlValue as DeserializeValue>::type_check(&ColumnType::Varint).is_ok());
    assert!(<CqlValue as DeserializeValue>::type_check(&ColumnType::Blob).is_ok());
}

#[test]
fn absent_cell_behaviour() {
    // a direct binding rejects NULL
    let err = <i32 as DeserializeValue>::deserialize(&ColumnType::Int, None).unwrap_err();
    assert_eq!(err.0.kind, BuiltinDeserializationErrorKind::ExpectedNonNull);

    // the nullable adapter over the same binding yields "no value"
    let decoded = <Option<i32> as DeserializeValue>::deserialize(&ColumnType::Int, None).unwrap();
    assert_eq!(decoded, None);

    // a present cell decodes through the adapter
    let cell = [0x01u8, 0x02, 0x03, 0x04];
    let decoded = <Option<i32> as DeserializeValue>::deserialize(
        &ColumnType::Int,
        Some(FrameSlice::new(&cell)),
    )
    .unwrap();
    assert_eq!(decoded, Some(0x01020304));
}

#[test]
fn empty_cell_behaviour() {
    // a present zero-length cell is Empty under the emptiness adapter
    let empty: [u8; 0] = [];
    let decoded = <MaybeEmpty<i32> as DeserializeValue>::deserialize(
        &ColumnType::Int,
        Some(FrameSlice::new(&empty)),
    )
    .unwrap();
    assert_eq!(decoded, MaybeEmpty::Empty);

    // a non-zero-length cell is Value(inner decode)
    let cell = [0x00u8, 0x00, 0x00, 0x2A];
    let decoded = <MaybeEmpty<i32> as DeserializeValue>::deserialize(
        &ColumnType::Int,
        Some(FrameSlice::new(&cell)),
    )
    .unwrap();
    assert_eq!(decoded, MaybeEmpty::Value(42));

    // an absent cell is still ExpectedNonNull under the adapter
    let err =
        <MaybeEmpty<i32> as DeserializeValue>::deserialize(&ColumnType::Int, None).unwrap_err();
    assert_eq!(err.0.kind, BuiltinDeserializationErrorKind::ExpectedNonNull);
}

#[test]
fn text_ascii_rules() {
    // "café" is valid UTF-8 with a byte above 0x7F
    let cafe = "café".as_bytes();
    let decoded =
        <String as DeserializeValue>::deserialize(&ColumnType::Text, Some(FrameSlice::new(cafe)))
            .unwrap();
    assert_eq!(decoded, "café");

    let err =
        <String as DeserializeValue>::deserialize(&ColumnType::Ascii, Some(FrameSlice::new(cafe)))
            .unwrap_err();
    assert_eq!(err.0.kind, BuiltinDeserializationErrorKind::ExpectedAscii);

    // invalid UTF-8 is InvalidUtf8 regardless of tag
    let bad = [0xFFu8, 0x00];
    let err = <String as DeserializeValue>::deserialize(
        &ColumnType::Text,
        Some(FrameSlice::new(&bad)),
    )
    .unwrap_err();
    assert_eq!(err.0.kind, BuiltinDeserializationErrorKind::InvalidUtf8);

    let err = <String as DeserializeValue>::deserialize(
        &ColumnType::Ascii,
        Some(FrameSlice::new(&bad)),
    )
    .unwrap_err();
    assert_eq!(err.0.kind, BuiltinDeserializationErrorKind::InvalidUtf8);
}

#[test]
fn byte_length_mismatch_details() {
    let cell = [0x01u8, 0x02, 0x03];
    let err = <i32 as DeserializeValue>::deserialize(
        &ColumnType::Int,
        Some(FrameSlice::new(&cell)),
    )
    .unwrap_err();
    assert_eq!(
        err.0.kind,
        BuiltinDeserializationErrorKind::ByteLengthMismatch { expected: 4, got: 3 }
    );
    assert_eq!(
        err.0.kind.describe(),
        "the CQL type requires 4 bytes, but got 3"
    );
}

#[test]
fn varint_sign_extension() {
    // a single 0x00 byte denotes zero
    let zero = [0x00u8];
    let decoded = <num_bigint::BigInt as DeserializeValue>::deserialize(
        &ColumnType::Varint,
        Some(FrameSlice::new(&zero)),
    )
    .unwrap();
    assert_eq!(decoded, num_bigint::BigInt::from(0));

    // no bytes at all denote zero as well
    let none: [u8; 0] = [];
    let decoded = <num_bigint::BigInt as DeserializeValue>::deserialize(
        &ColumnType::Varint,
        Some(FrameSlice::new(&none)),
    )
    .unwrap();
    assert_eq!(decoded, num_bigint::BigInt::from(0));

    // negative values arrive in two's complement, sign-extended or not
    let minus_one = [0xFFu8];
    let decoded = <num_bigint::BigInt as DeserializeValue>::deserialize(
        &ColumnType::Varint,
        Some(FrameSlice::new(&minus_one)),
    )
    .unwrap();
    assert_eq!(decoded, num_bigint::BigInt::from(-1));

    let minus_one_wide = [0xFFu8, 0xFF];
    let decoded = <num_bigint::BigInt as DeserializeValue>::deserialize(
        &ColumnType::Varint,
        Some(FrameSlice::new(&minus_one_wide)),
    )
    .unwrap();
    assert_eq!(decoded, num_bigint::BigInt::from(-1));

    let positive = [0x7Bu8];
    let decoded = <num_bigint::BigInt as DeserializeValue>::deserialize(
        &ColumnType::Varint,
        Some(FrameSlice::new(&positive)),
    )
    .unwrap();
    assert_eq!(decoded, num_bigint::BigInt::from(123));
}

#[test]
fn decimal_scale_and_unscaled() {
    // 4-byte big-endian scale 2, then signed byte 0x7B: 123 * 10^-2
    let cell = [0x00u8, 0x00, 0x00, 0x02, 0x7B];
    let decoded = <CqlDecimal as DeserializeValue>::deserialize(
        &ColumnType::Decimal,
        Some(FrameSlice::new(&cell)),
    )
    .unwrap();
    let (digits, scale) = decoded.as_signed_be_bytes_slice_and_exponent();
    assert_eq!(digits, &[0x7B]);
    assert_eq!(scale, 2);

    let decoded = <bigdecimal::BigDecimal as DeserializeValue>::deserialize(
        &ColumnType::Decimal,
        Some(FrameSlice::new(&cell)),
    )
    .unwrap();
    let (int_val, scale) = decoded.as_bigint_and_exponent();
    assert_eq!(int_val, num_bigint::BigInt::from(123));
    assert_eq!(scale, 2);

    // a decimal cell too short for its scale is a low-level parse failure
    let short = [0x00u8, 0x01];
    let err = <CqlDecimal as DeserializeValue>::deserialize(
        &ColumnType::Decimal,
        Some(FrameSlice::new(&short)),
    )
    .unwrap_err();
    assert_eq!(err.0.kind, BuiltinDeserializationErrorKind::GenericParseError);
}

#[test]
fn dynamic_value_fallback() {
    let int_cell = [0x00u8, 0x00, 0x00, 0x2A];
    let decoded = <CqlValue as DeserializeValue>::deserialize(
        &ColumnType::Int,
        Some(FrameSlice::new(&int_cell)),
    )
    .unwrap();
    assert_eq!(decoded, CqlValue::Int(42));

    let empty: [u8; 0] = [];
    let decoded = <CqlValue as DeserializeValue>::deserialize(
        &ColumnType::Int,
        Some(FrameSlice::new(&empty)),
    )
    .unwrap();
    assert_eq!(decoded, CqlValue::Empty);

    let text_cell = "foo".as_bytes();
    let decoded = <CqlValue as DeserializeValue>::deserialize(
        &ColumnType::Text,
        Some(FrameSlice::new(text_cell)),
    )
    .unwrap();
    assert_eq!(decoded, CqlValue::Text("foo".to_string()));

    // inner failures surface as the delegated low-level kind
    let short = [0x01u8];
    let err = <CqlValue as DeserializeValue>::deserialize(
        &ColumnType::Int,
        Some(FrameSlice::new(&short)),
    )
    .unwrap_err();
    assert_eq!(err.0.kind, BuiltinDeserializationErrorKind::GenericParseError);

    let err = <CqlValue as DeserializeValue>::deserialize(&ColumnType::Int, None).unwrap_err();
    assert_eq!(err.0.kind, BuiltinDeserializationErrorKind::ExpectedNonNull);
}

#[test]
fn error_messages() {
    let err = <i32 as DeserializeValue>::type_check(&ColumnType::Boolean).unwrap_err();
    assert_eq!(
        err.describe(),
        "Failed to type check Rust type i32 against CQL type Boolean: \
         expected one of the CQL types: [Int]"
    );

    let err = <i64 as DeserializeValue>::type_check(&ColumnType::Text).unwrap_err();
    assert_eq!(
        err.describe(),
        "Failed to type check Rust type i64 against CQL type Text: \
         expected one of the CQL types: [BigInt, Counter]"
    );

    let err = <i32 as DeserializeValue>::deserialize(&ColumnType::Int, None).unwrap_err();
    assert_eq!(
        err.describe(),
        "Failed to deserialize Rust type i32 from CQL type Int: \
         expected a non-null value, got null"
    );
}

#[test]
fn scenario_checks() {
    // one-byte TinyInt cell
    let decoded = <i8 as DeserializeValue>::deserialize(
        &ColumnType::TinyInt,
        Some(FrameSlice::new(&[0x01])),
    )
    .unwrap();
    assert_eq!(decoded, 1);

    // four-byte Int cell
    let decoded = <i32 as DeserializeValue>::deserialize(
        &ColumnType::Int,
        Some(FrameSlice::new(&[0x01, 0x02, 0x03, 0x04])),
    )
    .unwrap();
    assert_eq!(decoded, 0x01020304);

    // counter cell
    let decoded = <Counter as DeserializeValue>::deserialize(
        &ColumnType::Counter,
        Some(FrameSlice::new(&[0, 0, 0, 0, 0, 0, 0, 7])),
    )
    .unwrap();
    assert_eq!(decoded, Counter(7));

    // a counter binding refuses a BigInt tag even though both are 8 bytes
    assert!(<Counter as DeserializeValue>::type_check(&ColumnType::BigInt).is_err());

    // any nonzero boolean byte reads as true
    let decoded = <bool as DeserializeValue>::deserialize(
        &ColumnType::Boolean,
        Some(FrameSlice::new(&[0x02])),
    )
    .unwrap();
    assert!(decoded);
}
