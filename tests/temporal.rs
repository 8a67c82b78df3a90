use better_duck_core::bytes::encode_le;
use better_duck_core::decode::ColumnVector;
use better_duck_core::error::ConversionError;
use better_duck_core::temporal::{
    date_from_calendar, date_from_days, date_to_days, interval_from_parts, time_from_micros, time_to_micros,
    timestamp_from_micros, timestamp_to_micros, Date, Time, Timestamp,
};
use better_duck_core::value::{DuckValue, TypeTag};
use chrono::{Datelike, NaiveDate};

fn column(tag: TypeTag, data: Vec<u8>) -> ColumnVector {
    ColumnVector {
        type_tag: tag,
        data,
        validity: None,
        texts: Vec::new(),
        decimal_width: 0,
        decimal_scale: 0,
        array_size: 0,
        child: None,
    }
}

fn epoch_days(y: i32, m: u32, d: u32) -> i32 {
    NaiveDate::from_ymd_opt(y, m, d).unwrap().num_days_from_ce() - 719163
}

#[test]
fn test_duration_conversion() {
    // 1 hour, 1 minute, 1 second
    let micros: i64 = 3661 * 1_000_000;
    let mut data = encode_le(0, 4);
    data.extend(encode_le(0, 4));
    data.extend(encode_le(micros as u64, 8));
    let col = column(TypeTag::Interval, data);
    match DuckValue::from_duckdb_vec(&col, TypeTag::Interval, 0).unwrap() {
        DuckValue::Interval(i) => assert_eq!(i.micros, 3661 * 1_000_000),
        other => panic!("unexpected {:?}", other),
    }
}

#[test]
fn test_date_conversion() {
    let days = epoch_days(2023, 10, 1);
    let col = column(TypeTag::Date, encode_le(days as u32 as u64, 4));
    match DuckValue::from_duckdb_vec(&col, TypeTag::Date, 0).unwrap() {
        DuckValue::Date(d) => assert_eq!(d, Date { year: 2023, month: 10, day: 1 }),
        other => panic!("unexpected {:?}", other),
    }
}

#[test]
fn test_time_conversion() {
    let micros: i64 = ((12 * 60 + 30) * 60 + 45) * 1_000_000;
    let col = column(TypeTag::Time, encode_le(micros as u64, 8));
    match DuckValue::from_duckdb_vec(&col, TypeTag::Time, 0).unwrap() {
        DuckValue::Time(t) => assert_eq!(t, Time { hour: 12, minute: 30, second: 45, micro: 0 }),
        other => panic!("unexpected {:?}", other),
    }
}

#[test]
fn test_datetime_conversion() {
    let micros: i64 = epoch_days(2023, 10, 1) as i64 * 86_400_000_000
        + ((12 * 60 + 30) * 60 + 45) * 1_000_000;
    let col = column(TypeTag::Timestamp, encode_le(micros as u64, 8));
    match DuckValue::from_duckdb_vec(&col, TypeTag::Timestamp, 0).unwrap() {
        DuckValue::Timestamp(ts) => {
            assert_eq!(ts.date, Date { year: 2023, month: 10, day: 1 });
            assert_eq!(ts.time, Time { hour: 12, minute: 30, second: 45, micro: 0 });
        },
        other => panic!("unexpected {:?}", other),
    }
}

#[test]
fn epoch_and_days_before_it() {
    assert_eq!(date_from_days(0).unwrap(), Date { year: 1970, month: 1, day: 1 });
    assert_eq!(date_from_days(-1).unwrap(), Date { year: 1969, month: 12, day: 31 });
    let ts = timestamp_from_micros(-1).unwrap();
    assert_eq!(ts.date, Date { year: 1969, month: 12, day: 31 });
    assert_eq!(ts.time, Time { hour: 23, minute: 59, second: 59, micro: 999_999 });
}

#[test]
fn impossible_dates_and_times_are_conversion_errors() {
    assert!(matches!(date_from_days(i32::MAX), Err(ConversionError::Invalid(_))));
    assert!(matches!(date_from_days(200_000_000), Err(ConversionError::Invalid(_))));
    assert!(matches!(time_from_micros(-1), Err(ConversionError::Invalid(_))));
    assert!(matches!(time_from_micros(86_400_000_000), Err(ConversionError::Invalid(_))));
    assert!(matches!(timestamp_from_micros(i64::MIN), Err(ConversionError::Invalid(_))));
    let t = time_from_micros(86_399_999_999).unwrap();
    assert_eq!(t, Time { hour: 23, minute: 59, second: 59, micro: 999_999 });
}

#[test]
fn interval_counts_a_month_as_thirty_days() {
    assert_eq!(interval_from_parts(1, 2, 3).micros, 32 * 86_400_000_000 + 3);
    assert_eq!(interval_from_parts(-1, 0, 0).micros, -30 * 86_400_000_000);
    let big = interval_from_parts(i32::MAX, i32::MAX, i64::MAX).micros;
    assert_eq!(big, (i32::MAX as i128 * 31) * 86_400_000_000 + i64::MAX as i128);
}

#[test]
fn chrono_agrees_on_a_leap_day() {
    let d = date_from_days(epoch_days(2024, 2, 29)).unwrap();
    let c = NaiveDate::from_ymd_opt(2024, 2, 29).unwrap();
    assert_eq!((d.year, d.month, d.day), (c.year(), c.month(), c.day()));
}

#[test]
fn calendar_lookup_results_become_dates() {
    assert_eq!(date_from_calendar(Some((2000, 2, 29))).unwrap(), Date { year: 2000, month: 2, day: 29 });
    assert!(matches!(date_from_calendar(None), Err(ConversionError::Invalid(_))));
}

#[test]
fn encoders_invert_the_decoders() {
    let d = Date { year: 2023, month: 10, day: 1 };
    let days = date_to_days(d).unwrap();
    assert_eq!(days, epoch_days(2023, 10, 1));
    assert_eq!(date_from_days(days).unwrap(), d);
    assert_eq!(date_to_days(Date { year: 1970, month: 1, day: 1 }), Some(0));
    assert_eq!(date_to_days(Date { year: 2023, month: 2, day: 30 }), None);
    let t = Time { hour: 12, minute: 30, second: 45, micro: 7 };
    let m = time_to_micros(t).unwrap();
    assert_eq!(m, ((12 * 60 + 30) * 60 + 45) * 1_000_000 + 7);
    assert_eq!(time_from_micros(m).unwrap(), t);
    assert_eq!(time_to_micros(Time { hour: 24, minute: 0, second: 0, micro: 0 }), None);
    let ts = Timestamp { date: Date { year: 1969, month: 12, day: 31 }, time: Time { hour: 23, minute: 59, second: 59, micro: 999_999 } };
    assert_eq!(timestamp_to_micros(ts), Some(-1));
    let back = timestamp_from_micros(timestamp_to_micros(ts).unwrap()).unwrap();
    assert_eq!((back.date, back.time), (ts.date, ts.time));
}
