use kv_derive::error::{Error, IntErrorKind};
use kv_derive::from_repr::FromRepr;
use kv_derive::into_repr::IntoRepr;
use kv_derive::scalar::{IntType, Scalar, ScalarType};
use kv_derive::to_repr::ToRepr;
use kv_derive::util::{BooleanAsU8, DateTimeAsTimestamp};

fn kind(error: &std::num::ParseIntError) -> IntErrorKind {
    match error.kind() {
        std::num::IntErrorKind::Empty => IntErrorKind::Empty,
        std::num::IntErrorKind::InvalidDigit => IntErrorKind::InvalidDigit,
        std::num::IntErrorKind::PosOverflow => IntErrorKind::PosOverflow,
        std::num::IntErrorKind::NegOverflow => IntErrorKind::NegOverflow,
        _ => unreachable!(),
    }
}

const TEXTS: [&str; 40] = [
    "", "+", "-", "0", "-0", "+0", "00", "1", "-1", "+1", "127", "128", "-128", "-129", "255",
    "256", "32767", "32768", "-32768", "-32769", "65535", "65536", "2147483647", "2147483648",
    "-2147483648", "-2147483649", "4294967295", "4294967296", "9223372036854775807",
    "9223372036854775808", "-9223372036854775808", "-9223372036854775809",
    "18446744073709551615", "18446744073709551616", "170141183460469231731687303715884105727",
    "170141183460469231731687303715884105728", "-170141183460469231731687303715884105728",
    "-170141183460469231731687303715884105729", "340282366920938463463374607431768211455",
    "340282366920938463463374607431768211456",
];

const ODD: [&str; 12] =
    [" 1", "1 ", "1_000", "0x10", "1e3", "--1", "+-1", "1.0", "٣", "12é", "999999999999999999999999999999999999999999é", "é1"];

#[test]
fn from_repr_i8_matches_std() {
    for text in TEXTS.iter().chain(ODD.iter()) {
        let expected = text.parse::<i8>().map_err(|e| Error::ParseIntError(kind(&e)));
        assert_eq!(i8::from_repr(text), expected, "{:?}", text);
    }
}

#[test]
fn from_repr_u8_matches_std() {
    for text in TEXTS.iter().chain(ODD.iter()) {
        let expected = text.parse::<u8>().map_err(|e| Error::ParseIntError(kind(&e)));
        assert_eq!(u8::from_repr(text), expected, "{:?}", text);
    }
}

#[test]
fn from_repr_i16_matches_std() {
    for text in TEXTS.iter().chain(ODD.iter()) {
        let expected = text.parse::<i16>().map_err(|e| Error::ParseIntError(kind(&e)));
        assert_eq!(i16::from_repr(text), expected, "{:?}", text);
    }
}

#[test]
fn from_repr_u16_matches_std() {
    for text in TEXTS.iter().chain(ODD.iter()) {
        let expected = text.parse::<u16>().map_err(|e| Error::ParseIntError(kind(&e)));
        assert_eq!(u16::from_repr(text), expected, "{:?}", text);
    }
}

#[test]
fn from_repr_i32_matches_std() {
    for text in TEXTS.iter().chain(ODD.iter()) {
        let expected = text.parse::<i32>().map_err(|e| Error::ParseIntError(kind(&e)));
        assert_eq!(i32::from_repr(text), expected, "{:?}", text);
    }
}

#[test]
fn from_repr_u32_matches_std() {
    for text in TEXTS.iter().chain(ODD.iter()) {
        let expected = text.parse::<u32>().map_err(|e| Error::ParseIntError(kind(&e)));
        assert_eq!(u32::from_repr(text), expected, "{:?}", text);
    }
}

#[test]
fn from_repr_i64_matches_std() {
    for text in TEXTS.iter().chain(ODD.iter()) {
        let expected = text.parse::<i64>().map_err(|e| Error::ParseIntError(kind(&e)));
        assert_eq!(i64::from_repr(text), expected, "{:?}", text);
    }
}

#[test]
fn from_repr_u64_matches_std() {
    for text in TEXTS.iter().chain(ODD.iter()) {
        let expected = text.parse::<u64>().map_err(|e| Error::ParseIntError(kind(&e)));
        assert_eq!(u64::from_repr(text), expected, "{:?}", text);
    }
}

#[test]
fn from_repr_i128_matches_std() {
    for text in TEXTS.iter().chain(ODD.iter()) {
        let expected = text.parse::<i128>().map_err(|e| Error::ParseIntError(kind(&e)));
        assert_eq!(i128::from_repr(text), expected, "{:?}", text);
    }
}

#[test]
fn from_repr_u128_matches_std() {
    for text in TEXTS.iter().chain(ODD.iter()) {
        let expected = text.parse::<u128>().map_err(|e| Error::ParseIntError(kind(&e)));
        assert_eq!(u128::from_repr(text), expected, "{:?}", text);
    }
}

#[test]
fn from_repr_isize_matches_std() {
    for text in TEXTS.iter().chain(ODD.iter()) {
        let expected = text.parse::<isize>().map_err(|e| Error::ParseIntError(kind(&e)));
        assert_eq!(isize::from_repr(text), expected, "{:?}", text);
    }
}

#[test]
fn from_repr_usize_matches_std() {
    for text in TEXTS.iter().chain(ODD.iter()) {
        let expected = text.parse::<usize>().map_err(|e| Error::ParseIntError(kind(&e)));
        assert_eq!(usize::from_repr(text), expected, "{:?}", text);
    }
}

#[test]
fn from_repr_bool_matches_std() {
    for text in ["true", "false", "", "True", "FALSE", "1", "0", " true", "truee", "tru"] {
        let expected = text.parse::<bool>().map_err(|_| Error::ParseBoolError);
        assert_eq!(bool::from_repr(text), expected, "{:?}", text);
    }
}

#[test]
fn from_repr_string_never_fails() {
    for text in ["", "plain", " spaced ", "ünï", "42"] {
        assert_eq!(String::from_repr(text), Ok(text.to_string()));
    }
}

#[test]
fn into_repr_matches_std() {
    assert_eq!(i8::MIN.into_repr(), i8::MIN.to_string());
    assert_eq!(i8::MAX.into_repr(), "127");
    assert_eq!(u8::MAX.into_repr(), "255");
    assert_eq!(i16::MIN.into_repr(), i16::MIN.to_string());
    assert_eq!(u16::MAX.into_repr(), u16::MAX.to_string());
    assert_eq!(i32::MIN.into_repr(), "-2147483648");
    assert_eq!(u32::MAX.into_repr(), "4294967295");
    assert_eq!(i64::MIN.into_repr(), i64::MIN.to_string());
    assert_eq!(u64::MAX.into_repr(), u64::MAX.to_string());
    assert_eq!(i128::MIN.into_repr(), i128::MIN.to_string());
    assert_eq!(u128::MAX.into_repr(), u128::MAX.to_string());
    assert_eq!(isize::MIN.into_repr(), isize::MIN.to_string());
    assert_eq!(usize::MAX.into_repr(), usize::MAX.to_string());
    assert_eq!(0u8.into_repr(), "0");
    assert_eq!((-7i64).into_repr(), "-7");
    assert_eq!(true.into_repr(), "true");
    assert_eq!(false.into_repr(), "false");
    assert_eq!("text".into_repr(), "text");
    assert_eq!("owned".to_string().into_repr(), "owned");
}

#[test]
fn to_repr_matches_std() {
    assert_eq!(i8::MIN.to_repr(), "-128");
    assert_eq!(u8::MAX.to_repr(), "255");
    assert_eq!(1234i16.to_repr(), "1234");
    assert_eq!(u16::MAX.to_repr(), "65535");
    assert_eq!((-1i32).to_repr(), "-1");
    assert_eq!(10u32.to_repr(), "10");
    assert_eq!(i64::MAX.to_repr(), i64::MAX.to_string());
    assert_eq!(100u64.to_repr(), "100");
    assert_eq!(i128::MAX.to_repr(), i128::MAX.to_string());
    assert_eq!(u128::MAX.to_repr(), u128::MAX.to_string());
    assert_eq!(isize::MAX.to_repr(), isize::MAX.to_string());
    assert_eq!(9usize.to_repr(), "9");
    assert_eq!("text".to_repr(), "text");
    assert_eq!("owned".to_string().to_repr(), "owned");
}

#[test]
fn round_trip_of_every_scalar_type() {
    for v in [i8::MIN, -1, 0, 1, i8::MAX] {
        assert_eq!(i8::from_repr(&v.into_repr()), Ok(v));
    }
    for v in [0u8, 1, 9, 10, 99, 100, u8::MAX] {
        assert_eq!(u8::from_repr(&v.into_repr()), Ok(v));
    }
    for v in [i16::MIN, 0, i16::MAX] {
        assert_eq!(i16::from_repr(&v.into_repr()), Ok(v));
    }
    for v in [0u16, u16::MAX] {
        assert_eq!(u16::from_repr(&v.into_repr()), Ok(v));
    }
    for v in [i32::MIN, 0, 42, i32::MAX] {
        assert_eq!(i32::from_repr(&v.into_repr()), Ok(v));
    }
    for v in [0u32, u32::MAX] {
        assert_eq!(u32::from_repr(&v.into_repr()), Ok(v));
    }
    for v in [i64::MIN, 0, i64::MAX] {
        assert_eq!(i64::from_repr(&v.into_repr()), Ok(v));
    }
    for v in [0u64, u64::MAX] {
        assert_eq!(u64::from_repr(&v.into_repr()), Ok(v));
    }
    for v in [i128::MIN, 0, i128::MAX] {
        assert_eq!(i128::from_repr(&v.into_repr()), Ok(v));
    }
    for v in [0u128, u128::MAX] {
        assert_eq!(u128::from_repr(&v.into_repr()), Ok(v));
    }
    for v in [isize::MIN, 0, isize::MAX] {
        assert_eq!(isize::from_repr(&v.into_repr()), Ok(v));
    }
    for v in [0usize, usize::MAX] {
        assert_eq!(usize::from_repr(&v.into_repr()), Ok(v));
    }
    for v in [true, false] {
        assert_eq!(bool::from_repr(&v.into_repr()), Ok(v));
    }
    for v in ["", "a b", "-12"] {
        assert_eq!(String::from_repr(&v.to_string().into_repr()), Ok(v.to_string()));
    }
}

#[test]
fn dynamic_scalars_round_trip() {
    let values = vec![
        Scalar::Bool(true),
        Scalar::I8(-128),
        Scalar::U8(255),
        Scalar::I16(-3),
        Scalar::U16(3),
        Scalar::I32(42),
        Scalar::U32(42),
        Scalar::I64(i64::MIN),
        Scalar::U64(u64::MAX),
        Scalar::I128(i128::MIN),
        Scalar::U128(u128::MAX),
        Scalar::Isize(-1),
        Scalar::Usize(1),
        Scalar::Str("text".to_string()),
    ];
    for value in values {
        let ty = value.scalar_type();
        assert_eq!(ty.parse(&value.to_repr()), Ok(value.clone()));
    }
}

#[test]
fn dynamic_scalar_defaults_and_errors() {
    assert_eq!(ScalarType::Bool.default_value(), Scalar::Bool(false));
    assert_eq!(ScalarType::Str.default_value(), Scalar::Str(String::new()));
    assert_eq!(ScalarType::Int(IntType::I8).default_value(), Scalar::I8(0));
    assert_eq!(ScalarType::Int(IntType::U8).default_value(), Scalar::U8(0));
    assert_eq!(ScalarType::Int(IntType::I16).default_value(), Scalar::I16(0));
    assert_eq!(ScalarType::Int(IntType::U16).default_value(), Scalar::U16(0));
    assert_eq!(ScalarType::Int(IntType::I32).default_value(), Scalar::I32(0));
    assert_eq!(ScalarType::Int(IntType::U32).default_value(), Scalar::U32(0));
    assert_eq!(ScalarType::Int(IntType::I64).default_value(), Scalar::I64(0));
    assert_eq!(ScalarType::Int(IntType::U64).default_value(), Scalar::U64(0));
    assert_eq!(ScalarType::Int(IntType::I128).default_value(), Scalar::I128(0));
    assert_eq!(ScalarType::Int(IntType::U128).default_value(), Scalar::U128(0));
    assert_eq!(ScalarType::Int(IntType::Isize).default_value(), Scalar::Isize(0));
    assert_eq!(ScalarType::Int(IntType::Usize).default_value(), Scalar::Usize(0));
    assert_eq!(
        ScalarType::Int(IntType::U8).parse("256"),
        Err(Error::ParseIntError(IntErrorKind::PosOverflow))
    );
    assert_eq!(
        ScalarType::Int(IntType::I8).parse("-129"),
        Err(Error::ParseIntError(IntErrorKind::NegOverflow))
    );
    assert_eq!(ScalarType::Bool.parse("yes"), Err(Error::ParseBoolError));
    assert_eq!(ScalarType::Str.parse(""), Ok(Scalar::Str(String::new())));
}

#[test]
fn error_messages() {
    assert_eq!(Error::MissingKey("size".to_string()).message(), "missing key: `size`");
    assert_eq!(Error::ParseBoolError.message(), "could not parse a boolean value");
    assert_eq!(
        Error::ParseIntError(IntErrorKind::Empty).message(),
        "could not parse an integer"
    );
    assert_eq!(Error::ParseFloatError.message(), "could not parse a floating-point number");
    assert_eq!(Error::AddrParseError.message(), "could not parse a network address");
    assert_eq!(Error::Infallible.message(), "infallible");
    assert_eq!(Error::MissingKey("k".to_string()).clone(), Error::MissingKey("k".to_string()));
}

#[test]
fn boolean_as_u8() {
    assert_eq!(BooleanAsU8::from(true).0, 1);
    assert_eq!(BooleanAsU8::from(false).0, 0);
    assert!(bool::from(BooleanAsU8(1)));
    assert!(bool::from(BooleanAsU8(200)));
    assert!(!bool::from(BooleanAsU8(0)));
    assert_eq!(BooleanAsU8::default().0, 0);
    assert_eq!(BooleanAsU8(7).into_repr(), "7");
    assert_eq!(BooleanAsU8::from_repr("1").map(|v| v.0), Ok(1));
    assert_eq!(
        BooleanAsU8::from_repr("true").map(|v| v.0),
        Err(Error::ParseIntError(IntErrorKind::InvalidDigit))
    );
}

#[test]
fn date_time_as_timestamp() {
    assert_eq!(DateTimeAsTimestamp::default().0, 0);
    assert_eq!(DateTimeAsTimestamp(1431648000).into_repr(), "1431648000");
    assert_eq!(DateTimeAsTimestamp::from_repr("-5").map(|v| v.0), Ok(-5));
    assert_eq!(
        DateTimeAsTimestamp::from_repr("").map(|v| v.0),
        Err(Error::ParseIntError(IntErrorKind::Empty))
    );
}
