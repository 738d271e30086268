use chrono::NaiveDate;
use dao::{ConvertError, Float32, Float64, UtcDateTime, Value};
use std::convert::TryFrom;
use uuid::Uuid;

fn not_supported(actual: &str, requested: &str) -> ConvertError {
    ConvertError::NotSupported(actual.to_string(), requested.to_string())
}

fn sample_date() -> NaiveDate {
    NaiveDate::from_ymd_opt(2018, 11, 5).unwrap()
}

fn sample_stamp() -> UtcDateTime {
    UtcDateTime::from_naive_utc(sample_date().and_hms_milli_opt(23, 59, 58, 250).unwrap())
}

fn sample_uuid() -> Uuid {
    Uuid::parse_str("936da01f-9abd-4d9d-80c7-02af85c822a8").unwrap()
}

fn one_of_each() -> Vec<Value> {
    vec![
        Value::Nil,
        Value::Bool(true),
        Value::Tinyint(1),
        Value::Smallint(2),
        Value::Int(3),
        Value::Bigint(4),
        Value::Float(Float32::from_bits(5.0f32.to_bits())),
        Value::Double(Float64::from_bits(6.0f64.to_bits())),
        Value::Blob(vec![7]),
        Value::Text("8".to_string()),
        Value::Str("9"),
        Value::Uuid(sample_uuid()),
        Value::Date(sample_date()),
        Value::Timestamp(sample_stamp()),
    ]
}

#[test]
fn int_scenario() {
    assert_eq!(Value::from(42i32), Value::Int(42));
    assert_eq!(i32::try_from(&Value::Int(42)), Ok(42));
}

#[test]
fn optional_scenario() {
    assert_eq!(Value::from(&Some(5i16)), Value::Smallint(5));
}

#[test]
fn optionality() {
    assert_eq!(Value::from(&Option::<i16>::None), Value::Nil);
    assert_eq!(Option::<i16>::try_from(&Value::Nil), Ok(None));
    assert_eq!(Option::<i16>::try_from(&Value::Smallint(7)), Ok(Some(7)));
}

#[test]
fn cross_type_rejection() {
    assert_eq!(i64::try_from(&Value::Text("x".into())), Err(not_supported("String", "i64")));
    match i64::try_from(&Value::Text("x".into())) {
        Err(ConvertError::NotSupported(actual, requested)) => {
            assert_eq!(actual, "String");
            assert_eq!(requested, "i64");
        }
        Ok(_) => panic!("text was accepted as an integer"),
    }
}

#[test]
fn widening_round_trip() {
    assert_eq!(i64::try_from(&Value::Tinyint(5)), Ok(5i64));
    assert_eq!(i64::try_from(&Value::from(5i8)), Ok(5i64));
    assert_eq!(i16::try_from(&Value::Tinyint(-128)), Ok(-128i16));
    assert_eq!(i32::try_from(&Value::Tinyint(127)), Ok(127i32));
    assert_eq!(i32::try_from(&Value::Smallint(-32768)), Ok(-32768i32));
    assert_eq!(i64::try_from(&Value::Smallint(32767)), Ok(32767i64));
    assert_eq!(i64::try_from(&Value::Int(i32::MIN)), Ok(-2147483648i64));
    assert_eq!(i64::try_from(&Value::Int(i32::MAX)), Ok(2147483647i64));
    assert_eq!(i64::try_from(&Value::Bigint(i64::MIN)), Ok(i64::MIN));
}

#[test]
fn narrowing_is_refused_whatever_the_number() {
    assert_eq!(i32::try_from(&Value::Bigint(i64::MAX)), Err(not_supported("i64", "i32")));
    assert_eq!(i32::try_from(&Value::Bigint(1)), Err(not_supported("i64", "i32")));
    assert_eq!(i16::try_from(&Value::Bigint(0)), Err(not_supported("i64", "i16")));
    assert_eq!(i8::try_from(&Value::Bigint(0)), Err(not_supported("i64", "i8")));
    assert_eq!(i16::try_from(&Value::Int(0)), Err(not_supported("i32", "i16")));
    assert_eq!(i8::try_from(&Value::Int(0)), Err(not_supported("i32", "i8")));
    assert_eq!(i8::try_from(&Value::Smallint(0)), Err(not_supported("i16", "i8")));
}

#[test]
fn float_policy() {
    let single = Float32::from_bits(0.1f32.to_bits());
    let double = Float64::from_bits(0.1f64.to_bits());
    assert_eq!(Float32::try_from(&Value::Float(single)).unwrap().to_bits(), 0.1f32.to_bits());
    assert_eq!(Float64::try_from(&Value::Double(double)).unwrap().to_bits(), 0.1f64.to_bits());
    let wide = Float64::try_from(&Value::Float(single)).unwrap();
    assert_eq!(wide.to_bits(), (0.1f32 as f64).to_bits());
    assert_ne!(wide.to_bits(), single.to_bits() as u64);
    assert_eq!(Float32::try_from(&Value::Double(double)), Err(not_supported("f64", "f32")));
    assert_eq!(Float64::try_from(&Value::Int(1)), Err(not_supported("i32", "f64")));
    assert_eq!(i64::try_from(&Value::Double(double)), Err(not_supported("f64", "i64")));
}

#[test]
fn round_trip_owned() {
    assert_eq!(bool::try_from(&Value::from(true)), Ok(true));
    assert_eq!(i8::try_from(&Value::from(-7i8)), Ok(-7));
    assert_eq!(i16::try_from(&Value::from(-700i16)), Ok(-700));
    assert_eq!(i32::try_from(&Value::from(-70_000i32)), Ok(-70_000));
    assert_eq!(i64::try_from(&Value::from(-7_000_000_000i64)), Ok(-7_000_000_000));
    let single = Float32::from_bits(0x7fc0_1234);
    assert_eq!(Float32::try_from(&Value::from(single)).unwrap().to_bits(), 0x7fc0_1234);
    let double = Float64::from_bits(0xfff8_0000_0000_4321);
    assert_eq!(Float64::try_from(&Value::from(double)).unwrap().to_bits(), 0xfff8_0000_0000_4321);
    assert_eq!(Vec::<u8>::try_from(&Value::from(vec![1u8, 2, 255, 3])), Ok(vec![1u8, 2, 255, 3]));
    assert_eq!(Vec::<u8>::try_from(&Value::from(Vec::<u8>::new())), Ok(vec![]));
    assert_eq!(String::try_from(&Value::from("héllo".to_string())), Ok("héllo".to_string()));
    assert_eq!(<&'static str>::try_from(&Value::from("hello world!")), Ok("hello world!"));
    assert_eq!(Uuid::try_from(&Value::from(sample_uuid())), Ok(sample_uuid()));
    assert_eq!(NaiveDate::try_from(&Value::from(sample_date())), Ok(sample_date()));
    assert_eq!(UtcDateTime::try_from(&Value::from(sample_stamp())), Ok(sample_stamp()));
}

#[test]
fn owned_values_take_their_own_variant() {
    assert_eq!(Value::from(true), Value::Bool(true));
    assert_eq!(Value::from(1i8), Value::Tinyint(1));
    assert_eq!(Value::from(1i16), Value::Smallint(1));
    assert_eq!(Value::from(1i32), Value::Int(1));
    assert_eq!(Value::from(1i64), Value::Bigint(1));
    assert_eq!(Value::from(Float32::from_bits(9)), Value::Float(Float32::from_bits(9)));
    assert_eq!(Value::from(Float64::from_bits(9)), Value::Double(Float64::from_bits(9)));
    assert_eq!(Value::from(vec![1u8]), Value::Blob(vec![1]));
    assert_eq!(Value::from("a".to_string()), Value::Text("a".to_string()));
    assert_eq!(Value::from("a"), Value::Str("a"));
    assert_eq!(Value::from(sample_uuid()), Value::Uuid(sample_uuid()));
    assert_eq!(Value::from(sample_date()), Value::Date(sample_date()));
    assert_eq!(Value::from(sample_stamp()), Value::Timestamp(sample_stamp()));
}

#[test]
fn borrowed_values_are_copied() {
    let bytes = vec![9u8, 8, 7];
    let text = "borrowed".to_string();
    assert_eq!(Value::from(&true), Value::Bool(true));
    assert_eq!(Value::from(&1i8), Value::Tinyint(1));
    assert_eq!(Value::from(&1i16), Value::Smallint(1));
    assert_eq!(Value::from(&1i32), Value::Int(1));
    assert_eq!(Value::from(&1i64), Value::Bigint(1));
    assert_eq!(Value::from(&Float32::from_bits(9)), Value::Float(Float32::from_bits(9)));
    assert_eq!(Value::from(&Float64::from_bits(9)), Value::Double(Float64::from_bits(9)));
    assert_eq!(Value::from(&bytes), Value::Blob(vec![9, 8, 7]));
    assert_eq!(Value::from(&text), Value::Text("borrowed".to_string()));
    assert_eq!(Value::from(&"a"), Value::Str("a"));
    assert_eq!(Value::from(&sample_uuid()), Value::Uuid(sample_uuid()));
    assert_eq!(Value::from(&sample_date()), Value::Date(sample_date()));
    assert_eq!(Value::from(&sample_stamp()), Value::Timestamp(sample_stamp()));
    assert_eq!(bytes, vec![9u8, 8, 7]);
    assert_eq!(text, "borrowed");
}

#[test]
fn optional_values_present_and_absent() {
    assert_eq!(Value::from(&Some(true)), Value::Bool(true));
    assert_eq!(Value::from(&Some(1i8)), Value::Tinyint(1));
    assert_eq!(Value::from(&Some(1i32)), Value::Int(1));
    assert_eq!(Value::from(&Some(1i64)), Value::Bigint(1));
    assert_eq!(Value::from(&Some(Float32::from_bits(9))), Value::Float(Float32::from_bits(9)));
    assert_eq!(Value::from(&Some(Float64::from_bits(9))), Value::Double(Float64::from_bits(9)));
    assert_eq!(Value::from(&Some(vec![1u8, 2])), Value::Blob(vec![1, 2]));
    assert_eq!(Value::from(&Some("t".to_string())), Value::Text("t".to_string()));
    assert_eq!(Value::from(&Some("s")), Value::Str("s"));
    assert_eq!(Value::from(&Some(sample_uuid())), Value::Uuid(sample_uuid()));
    assert_eq!(Value::from(&Some(sample_date())), Value::Date(sample_date()));
    assert_eq!(Value::from(&Some(sample_stamp())), Value::Timestamp(sample_stamp()));
    assert_eq!(Value::from(&Option::<bool>::None), Value::Nil);
    assert_eq!(Value::from(&Option::<i8>::None), Value::Nil);
    assert_eq!(Value::from(&Option::<i32>::None), Value::Nil);
    assert_eq!(Value::from(&Option::<i64>::None), Value::Nil);
    assert_eq!(Value::from(&Option::<Float32>::None), Value::Nil);
    assert_eq!(Value::from(&Option::<Float64>::None), Value::Nil);
    assert_eq!(Value::from(&Option::<Vec<u8>>::None), Value::Nil);
    assert_eq!(Value::from(&Option::<String>::None), Value::Nil);
    assert_eq!(Value::from(&Option::<&'static str>::None), Value::Nil);
    assert_eq!(Value::from(&Option::<Uuid>::None), Value::Nil);
    assert_eq!(Value::from(&Option::<NaiveDate>::None), Value::Nil);
    assert_eq!(Value::from(&Option::<UtcDateTime>::None), Value::Nil);
}

#[test]
fn nil_reads_as_none_for_every_type() {
    assert_eq!(Option::<bool>::try_from(&Value::Nil), Ok(None));
    assert_eq!(Option::<i8>::try_from(&Value::Nil), Ok(None));
    assert_eq!(Option::<i32>::try_from(&Value::Nil), Ok(None));
    assert_eq!(Option::<i64>::try_from(&Value::Nil), Ok(None));
    assert_eq!(Option::<Float32>::try_from(&Value::Nil), Ok(None));
    assert_eq!(Option::<Float64>::try_from(&Value::Nil), Ok(None));
    assert_eq!(Option::<Vec<u8>>::try_from(&Value::Nil), Ok(None));
    assert_eq!(Option::<String>::try_from(&Value::Nil), Ok(None));
    assert_eq!(Option::<&'static str>::try_from(&Value::Nil), Ok(None));
    assert_eq!(Option::<Uuid>::try_from(&Value::Nil), Ok(None));
    assert_eq!(Option::<NaiveDate>::try_from(&Value::Nil), Ok(None));
    assert_eq!(Option::<UtcDateTime>::try_from(&Value::Nil), Ok(None));
}

#[test]
fn optional_requests_follow_the_plain_ones() {
    assert_eq!(Option::<bool>::try_from(&Value::Bool(false)), Ok(Some(false)));
    assert_eq!(Option::<i64>::try_from(&Value::Tinyint(-1)), Ok(Some(-1)));
    assert_eq!(Option::<i32>::try_from(&Value::Bigint(1)), Err(not_supported("i64", "i32")));
    let wide = Option::<Float64>::try_from(&Value::Float(Float32::from_bits(1.5f32.to_bits())));
    assert_eq!(wide.unwrap().unwrap().to_bits(), 1.5f64.to_bits());
    assert_eq!(Option::<Vec<u8>>::try_from(&Value::Blob(vec![])), Ok(Some(vec![])));
    assert_eq!(Option::<String>::try_from(&Value::Text("t".into())), Ok(Some("t".to_string())));
    assert_eq!(Option::<String>::try_from(&Value::Str("t")), Err(not_supported("&'static str", "String")));
    assert_eq!(Option::<&'static str>::try_from(&Value::Str("t")), Ok(Some("t")));
    assert_eq!(Option::<Uuid>::try_from(&Value::Uuid(sample_uuid())), Ok(Some(sample_uuid())));
    assert_eq!(Option::<NaiveDate>::try_from(&Value::Date(sample_date())), Ok(Some(sample_date())));
    assert_eq!(
        Option::<UtcDateTime>::try_from(&Value::Timestamp(sample_stamp())),
        Ok(Some(sample_stamp()))
    );
    assert_eq!(
        Option::<UtcDateTime>::try_from(&Value::Date(sample_date())),
        Err(not_supported("NaiveDate", "DateTime<Utc>"))
    );
}

#[test]
fn nil_is_refused_by_every_plain_request() {
    assert_eq!(bool::try_from(&Value::Nil), Err(not_supported("Nil", "bool")));
    assert_eq!(i8::try_from(&Value::Nil), Err(not_supported("Nil", "i8")));
    assert_eq!(i16::try_from(&Value::Nil), Err(not_supported("Nil", "i16")));
    assert_eq!(i32::try_from(&Value::Nil), Err(not_supported("Nil", "i32")));
    assert_eq!(i64::try_from(&Value::Nil), Err(not_supported("Nil", "i64")));
    assert_eq!(Float32::try_from(&Value::Nil), Err(not_supported("Nil", "f32")));
    assert_eq!(Float64::try_from(&Value::Nil), Err(not_supported("Nil", "f64")));
    assert_eq!(Vec::<u8>::try_from(&Value::Nil), Err(not_supported("Nil", "Vec<u8>")));
    assert_eq!(String::try_from(&Value::Nil), Err(not_supported("Nil", "String")));
    assert_eq!(<&'static str>::try_from(&Value::Nil), Err(not_supported("Nil", "&'static str")));
    assert_eq!(Uuid::try_from(&Value::Nil), Err(not_supported("Nil", "Uuid")));
    assert_eq!(NaiveDate::try_from(&Value::Nil), Err(not_supported("Nil", "NaiveDate")));
    assert_eq!(UtcDateTime::try_from(&Value::Nil), Err(not_supported("Nil", "DateTime<Utc>")));
}

#[test]
fn each_request_accepts_its_listed_variants_only() {
    let all = one_of_each();
    let accepted = |f: &dyn Fn(&Value) -> bool| -> Vec<&'static str> {
        all.iter().filter(|v| f(v)).map(|v| v.get_type_name()).collect()
    };
    assert_eq!(accepted(&|v| bool::try_from(v).is_ok()), vec!["bool"]);
    assert_eq!(accepted(&|v| i8::try_from(v).is_ok()), vec!["i8"]);
    assert_eq!(accepted(&|v| i16::try_from(v).is_ok()), vec!["i8", "i16"]);
    assert_eq!(accepted(&|v| i32::try_from(v).is_ok()), vec!["i8", "i16", "i32"]);
    assert_eq!(accepted(&|v| i64::try_from(v).is_ok()), vec!["i8", "i16", "i32", "i64"]);
    assert_eq!(accepted(&|v| Float32::try_from(v).is_ok()), vec!["f32"]);
    assert_eq!(accepted(&|v| Float64::try_from(v).is_ok()), vec!["f32", "f64"]);
    assert_eq!(accepted(&|v| Vec::<u8>::try_from(v).is_ok()), vec!["Vec<u8>"]);
    assert_eq!(accepted(&|v| String::try_from(v).is_ok()), vec!["String"]);
    assert_eq!(accepted(&|v| <&'static str>::try_from(v).is_ok()), vec!["&'static str"]);
    assert_eq!(accepted(&|v| Uuid::try_from(v).is_ok()), vec!["Uuid"]);
    assert_eq!(accepted(&|v| NaiveDate::try_from(v).is_ok()), vec!["NaiveDate"]);
    assert_eq!(accepted(&|v| UtcDateTime::try_from(v).is_ok()), vec!["DateTime"]);
}

#[test]
fn a_refusal_names_the_stored_type() {
    for v in one_of_each() {
        if let Err(ConvertError::NotSupported(actual, requested)) = bool::try_from(&v) {
            assert_eq!(actual, v.get_type_name());
            assert_eq!(requested, "bool");
        } else {
            assert_eq!(v, Value::Bool(true));
        }
    }
}

#[test]
fn error_constructor_and_clone() {
    let e = ConvertError::not_supported("Nil", "bool");
    assert_eq!(e, not_supported("Nil", "bool"));
    assert_eq!(e.clone(), e);
    assert_ne!(e, not_supported("bool", "Nil"));
}
