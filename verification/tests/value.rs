use chrono::offset::Utc;
use chrono::{DateTime, NaiveDate};
use dao::{Float32, Float64, UtcDateTime, Value};
use std::mem::size_of;
use uuid::Uuid;

#[test]
fn data_sizes() {
    assert_eq!(32, size_of::<Value>());
    assert_eq!(24, size_of::<Vec<u8>>());
    assert_eq!(24, size_of::<String>());
    assert_eq!(12, size_of::<DateTime<Utc>>());
    assert_eq!(4, size_of::<NaiveDate>());
    assert_eq!(16, size_of::<Uuid>());
}

#[test]
fn payload_sizes() {
    assert_eq!(12, size_of::<UtcDateTime>());
    assert_eq!(4, size_of::<Float32>());
    assert_eq!(8, size_of::<Float64>());
    assert_eq!(16, size_of::<&'static str>());
}

#[test]
#[allow(deprecated)]
fn test_types() {
    let _: Value = 127i8.into();
    let _: Value = 2222i16.into();
    let _: Value = 4444i32.into();
    let _: Value = 10000i64.into();
    let _v1: Value = Float32::from_bits(1.0f32.to_bits()).into();
    let _v2: Value = Float64::from_bits(100.0f64.to_bits()).into();
    let _v3: Value = UtcDateTime::from_naive_utc(Utc::now().naive_utc()).into();
    let _v7: Value = Utc::today().naive_utc().into();
    let _v4: Value = "hello world!".into();
    let _v5: Value = "hello world!".to_string().into();
    let _v6: Value = vec![1u8, 2, 255, 3].into();
}

#[test]
fn type_names() {
    let date = NaiveDate::from_ymd_opt(2019, 3, 14).unwrap();
    let stamp = UtcDateTime::from_naive_utc(date.and_hms_opt(1, 2, 3).unwrap());
    assert_eq!(Value::Nil.get_type_name(), "Nil");
    assert_eq!(Value::Bool(true).get_type_name(), "bool");
    assert_eq!(Value::Tinyint(1).get_type_name(), "i8");
    assert_eq!(Value::Smallint(1).get_type_name(), "i16");
    assert_eq!(Value::Int(1).get_type_name(), "i32");
    assert_eq!(Value::Bigint(1).get_type_name(), "i64");
    assert_eq!(Value::Float(Float32::from_bits(0)).get_type_name(), "f32");
    assert_eq!(Value::Double(Float64::from_bits(0)).get_type_name(), "f64");
    assert_eq!(Value::Blob(vec![]).get_type_name(), "Vec<u8>");
    assert_eq!(Value::Text(String::new()).get_type_name(), "String");
    assert_eq!(Value::Str("").get_type_name(), "&'static str");
    assert_eq!(Value::Uuid(Uuid::nil()).get_type_name(), "Uuid");
    assert_eq!(Value::Date(date).get_type_name(), "NaiveDate");
    assert_eq!(Value::Timestamp(stamp).get_type_name(), "DateTime");
}

#[test]
fn clone_keeps_variant_and_content() {
    let date = NaiveDate::from_ymd_opt(2019, 3, 14).unwrap();
    let stamp = UtcDateTime::from_naive_utc(date.and_hms_opt(1, 2, 3).unwrap());
    let all = vec![
        Value::Nil,
        Value::Bool(false),
        Value::Tinyint(-8),
        Value::Smallint(-16),
        Value::Int(-32),
        Value::Bigint(-64),
        Value::Float(Float32::from_bits(1.5f32.to_bits())),
        Value::Double(Float64::from_bits(2.5f64.to_bits())),
        Value::Blob(vec![0, 1, 255]),
        Value::Text("text".to_string()),
        Value::Str("static"),
        Value::Uuid(Uuid::from_u128(0x1234_5678_9abc_def0_1122_3344_5566_7788)),
        Value::Date(date),
        Value::Timestamp(stamp),
    ];
    for v in &all {
        assert_eq!(&v.clone(), v);
    }
    assert_ne!(Value::Text("a".to_string()), Value::Str("a"));
    assert_ne!(Value::Tinyint(1), Value::Smallint(1));
}

#[test]
fn equality_follows_the_payload() {
    let nan = Float32::from_bits(f32::NAN.to_bits());
    assert_ne!(Value::Float(nan), Value::Float(nan));
    let plus = Float64::from_bits(0.0f64.to_bits());
    let minus = Float64::from_bits((-0.0f64).to_bits());
    assert_eq!(Value::Double(plus), Value::Double(minus));
    assert_eq!(Value::Blob(vec![1, 2]), Value::Blob(vec![1, 2]));
    assert_ne!(Value::Blob(vec![1, 2]), Value::Blob(vec![1, 3]));
}

#[test]
fn timestamp_keeps_the_date_and_time() {
    let naive = NaiveDate::from_ymd_opt(2001, 9, 9).unwrap().and_hms_nano_opt(1, 46, 40, 7).unwrap();
    let stamp = UtcDateTime::from_naive_utc(naive);
    assert_eq!(stamp.naive_utc(), naive);
    assert_eq!(stamp.naive_utc().and_utc().timestamp(), 1_000_000_000);
    let other = UtcDateTime::from_naive_utc(naive);
    assert_eq!(stamp, other);
}
