use base64::Engine;
use chrono::TimeZone;

use spanner_statement::marshal::ToKind;
use spanner_statement::native::{Date, DateTime, Decimal, Float64};
use spanner_statement::types::Type;
use spanner_statement::value::Kind;

#[test]
fn scalar_type_descriptors_ignore_values() {
    assert_eq!(<i64 as ToKind>::get_type(), Type::Int64);
    assert_eq!(<String as ToKind>::get_type(), Type::Str);
    assert_eq!(<bool as ToKind>::get_type(), Type::Bool);
    assert_eq!(<Float64 as ToKind>::get_type(), Type::Float64);
    assert_eq!(<Date as ToKind>::get_type(), Type::Date);
    assert_eq!(<DateTime as ToKind>::get_type(), Type::Timestamp);
    assert_eq!(<Decimal as ToKind>::get_type(), Type::Numeric);
    assert_eq!(<&[u8] as ToKind>::get_type(), Type::Bytes);
    // the same descriptor comes out whatever the value marshalled
    assert_eq!(0i64.to_kind(), Kind::StringValue("0".to_string()));
    assert_eq!(
        i64::MAX.to_kind(),
        Kind::StringValue("9223372036854775807".to_string())
    );
    assert_eq!(
        i64::MIN.to_kind(),
        Kind::StringValue("-9223372036854775808".to_string())
    );
    assert_eq!((-5i64).to_kind(), Kind::StringValue("-5".to_string()));
}

#[test]
fn option_type_matches_inner_shape() {
    assert_eq!(
        <Option<i64> as ToKind>::get_type(),
        <i64 as ToKind>::get_type()
    );
    assert_eq!(Option::<i64>::None.to_kind(), Kind::NullValue);
    assert_eq!(Some(9i64).to_kind(), 9i64.to_kind());
}

#[test]
fn empty_sequence_keeps_element_type() {
    let v: Vec<i64> = Vec::new();
    assert_eq!(v.to_kind(), Kind::ListValue(Vec::new()));
    assert_eq!(
        <Vec<i64> as ToKind>::get_type(),
        Type::Array(Box::new(Type::Int64))
    );
}

#[test]
fn sequence_preserves_element_order() {
    let v = vec![3i64, 1, 2];
    assert_eq!(
        v.to_kind(),
        Kind::ListValue(vec![
            Kind::StringValue("3".to_string()),
            Kind::StringValue("1".to_string()),
            Kind::StringValue("2".to_string()),
        ])
    );
    let nested = vec![Some(1i64), None];
    assert_eq!(
        nested.to_kind(),
        Kind::ListValue(vec![
            Kind::StringValue("1".to_string()),
            Kind::NullValue,
        ])
    );
}

#[test]
fn bool_and_float_pass_verbatim() {
    assert_eq!(true.to_kind(), Kind::BoolValue(true));
    assert_eq!(false.to_kind(), Kind::BoolValue(false));
    let f = Float64 {
        bits: (3.5f64).to_bits(),
    };
    assert_eq!(f.to_kind(), Kind::NumberValue((3.5f64).to_bits()));
}

#[test]
fn date_renders_as_padded_ymd() {
    let d = Date {
        year: 2020,
        month: 1,
        day: 5,
    };
    assert_eq!(d.to_kind(), Kind::StringValue("2020-01-05".to_string()));
    let expected = chrono::NaiveDate::from_ymd_opt(2020, 1, 5)
        .unwrap()
        .format("%Y-%m-%d")
        .to_string();
    assert_eq!(d.render(), expected);
    let early = Date {
        year: 1,
        month: 12,
        day: 31,
    };
    assert_eq!(early.render(), "0001-12-31");
}

#[test]
fn datetime_renders_as_rfc3339_nanos_utc() {
    let t = DateTime {
        date: Date {
            year: 2021,
            month: 3,
            day: 4,
        },
        hour: 5,
        minute: 6,
        second: 7,
        nanosecond: 123456789,
    };
    assert_eq!(
        t.to_kind(),
        Kind::StringValue("2021-03-04T05:06:07.123456789Z".to_string())
    );
    let naive = chrono::NaiveDate::from_ymd_opt(2021, 3, 4)
        .unwrap()
        .and_hms_nano_opt(5, 6, 7, 123456789)
        .unwrap();
    let expected = chrono::Utc
        .from_utc_datetime(&naive)
        .to_rfc3339_opts(chrono::SecondsFormat::Nanos, true);
    assert_eq!(t.render(), expected);
    let zero = DateTime {
        date: Date {
            year: 2021,
            month: 3,
            day: 4,
        },
        hour: 0,
        minute: 0,
        second: 0,
        nanosecond: 0,
    };
    assert_eq!(zero.render(), "2021-03-04T00:00:00.000000000Z");
}

#[test]
fn bytes_are_base64_encoded() {
    let b: &[u8] = b"hello";
    assert_eq!(b.to_kind(), Kind::StringValue("aGVsbG8=".to_string()));
    let expected = base64::engine::general_purpose::STANDARD.encode(b);
    assert_eq!(b.to_kind(), Kind::StringValue(expected));
    let empty: &[u8] = b"";
    assert_eq!(empty.to_kind(), Kind::StringValue(String::new()));
}

#[test]
fn decimal_renders_canonically() {
    let d = Decimal::new(false, 1550, 2).unwrap();
    assert_eq!(d.to_kind(), Kind::StringValue("15.50".to_string()));
    let expected = rust_decimal::Decimal::from_i128_with_scale(1550, 2).to_string();
    assert_eq!(d.to_kind(), Kind::StringValue(expected));
    let neg = Decimal::new(true, 5, 1).unwrap();
    assert_eq!(neg.to_kind(), Kind::StringValue("-0.5".to_string()));
    let whole = Decimal::new(false, 7, 0).unwrap();
    assert_eq!(whole.to_kind(), Kind::StringValue("7".to_string()));
}

#[test]
fn decimal_rejects_out_of_range_parts() {
    assert!(Decimal::new(false, 1u128 << 96, 0).is_none());
    assert!(Decimal::new(false, (1u128 << 96) - 1, 28).is_some());
    assert!(Decimal::new(false, 1, 29).is_none());
}

#[test]
fn strings_pass_verbatim() {
    assert_eq!(
        "abc".to_string().to_kind(),
        Kind::StringValue("abc".to_string())
    );
    assert_eq!("abc".to_kind(), Kind::StringValue("abc".to_string()));
    assert_eq!(<&str as ToKind>::get_type(), Type::Str);
}
