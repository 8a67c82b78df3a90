//! Dates, times, timestamps and intervals decoded from the engine's epoch-relative integers.
use vstd::prelude::*;

use crate::error::ConversionError;

use chrono::Datelike;

verus! {

/// Microseconds in a day.
pub const MICROS_PER_DAY: i64 = 86_400_000_000;

/// Days from 0001-01-01 (day 1 of the common era) to 1970-01-01.
pub const EPOCH_CE_DAYS: i32 = 719_163;

/// A calendar date.
#[derive(Clone, Copy, Debug, PartialEq, Eq, Structural)]
pub struct Date {
    pub year: i32,
    pub month: u32,
    pub day: u32,
}

/// A time of day, to the microsecond.
#[derive(Clone, Copy, Debug, PartialEq, Eq, Structural)]
pub struct Time {
    pub hour: u32,
    pub minute: u32,
    pub second: u32,
    pub micro: u32,
}

/// A date and a time of day.
#[derive(Clone, Copy, Debug, PartialEq, Eq, Structural)]
pub struct Timestamp {
    pub date: Date,
    pub time: Time,
}

/// A duration in microseconds, with a month counted as 30 days.
#[derive(Clone, Copy, Debug, PartialEq, Eq, Structural)]
pub struct Interval {
    pub micros: i128,
}

/// Year, month and day of the proleptic Gregorian calendar for a day number of the common
/// era (0001-01-01 is day 1), when the date lies in the supported range.
pub uninterp spec fn calendar_date(ce_days: i32) -> Option<(i32, u32, u32)>;

/// Relies on chrono's `NaiveDate::from_num_days_from_ce_opt` and its `year`, `month` and `day`:
/// the date depends on the day number alone.
#[verifier::external_body]
fn ymd_from_ce_days(ce_days: i32) -> (r: Option<(i32, u32, u32)>)
    ensures
        r == calendar_date(ce_days),
{
    chrono::NaiveDate::from_num_days_from_ce_opt(ce_days).map(|d| (d.year(), d.month(), d.day()))
}

/// The date `days` days after 1970-01-01, if it is a date of the calendar.
pub open spec fn date_of_epoch_days(days: int) -> Option<Date> {
    if days + EPOCH_CE_DAYS > i32::MAX || days + EPOCH_CE_DAYS < i32::MIN {
        None
    } else {
        match calendar_date((days + EPOCH_CE_DAYS) as i32) {
            Some(t) => Some(Date { year: t.0, month: t.1, day: t.2 }),
            None => None,
        }
    }
}

/// The time of day `m` microseconds after midnight.
pub open spec fn time_of_micros(m: int) -> Time {
    Time {
        hour: (m / 3_600_000_000) as u32,
        minute: ((m / 60_000_000) % 60) as u32,
        second: ((m / 1_000_000) % 60) as u32,
        micro: (m % 1_000_000) as u32,
    }
}

/// The flat length of an interval of months, days and microseconds.
pub open spec fn interval_micros(months: int, days: int, micros: int) -> int {
    (months * 30 + days) * MICROS_PER_DAY + micros
}

/// The date of a calendar lookup's result, or `Invalid` where the day is outside the calendar.
pub fn date_from_calendar(parts: Option<(i32, u32, u32)>) -> (r: Result<Date, ConversionError>)
    ensures
        parts is None ==> r matches Err(ConversionError::Invalid(_)),
        parts matches Some(t) ==> r == Ok::<Date, ConversionError>(Date { year: t.0, month: t.1, day: t.2 }),
{
    match parts {
        Some(t) => Ok(Date { year: t.0, month: t.1, day: t.2 }),
        None => Err(ConversionError::Invalid("Invalid date".to_owned())),
    }
}

/// Decodes a date stored as days since 1970-01-01.
pub fn date_from_days(days: i32) -> (r: Result<Date, ConversionError>)
    ensures
        r is Ok <==> date_of_epoch_days(days as int) is Some,
        r matches Ok(d) ==> date_of_epoch_days(days as int) == Some(d),
        r matches Err(e) ==> e is Invalid,
{
    if days > i32::MAX - EPOCH_CE_DAYS {
        return Err(ConversionError::Invalid("date out of range".to_owned()));
    }
    date_from_calendar(ymd_from_ce_days(days + EPOCH_CE_DAYS))
}

/// Decodes a time stored as microseconds since midnight.
pub fn time_from_micros(micros: i64) -> (r: Result<Time, ConversionError>)
    ensures
        r is Ok <==> 0 <= micros < MICROS_PER_DAY,
        r matches Ok(t) ==> t == time_of_micros(micros as int),
        r matches Err(e) ==> e is Invalid,
{
    if micros < 0 || micros >= MICROS_PER_DAY {
        return Err(ConversionError::Invalid("Invalid time".to_owned()));
    }
    let m = micros as u64;
    Ok(
        Time {
            hour: (m / 3_600_000_000) as u32,
            minute: ((m / 60_000_000) % 60) as u32,
            second: ((m / 1_000_000) % 60) as u32,
            micro: (m % 1_000_000) as u32,
        },
    )
}

/// The timestamp `micros` microseconds after 1970-01-01 00:00, if its date is in the calendar.
pub open spec fn timestamp_of_micros(micros: int) -> Option<Timestamp> {
    match date_of_epoch_days(micros / (MICROS_PER_DAY as int)) {
        Some(d) => Some(
            Timestamp { date: d, time: time_of_micros(micros % (MICROS_PER_DAY as int)) },
        ),
        None => None,
    }
}

/// Decodes a timestamp stored as microseconds since 1970-01-01 00:00.
pub fn timestamp_from_micros(micros: i64) -> (r: Result<Timestamp, ConversionError>)
    ensures
        r is Ok <==> timestamp_of_micros(micros as int) is Some,
        r matches Ok(t) ==> timestamp_of_micros(micros as int) == Some(t),
        r matches Err(e) ==> e is Invalid,
{
    // floor division, so that instants before 1970 fall on the day they belong to
    let (days, rem): (i64, i64) = if micros >= 0 {
        (micros / MICROS_PER_DAY, micros % MICROS_PER_DAY)
    } else {
        let m = -(micros + 1);
        let q = m / MICROS_PER_DAY;
        (-q - 1, MICROS_PER_DAY - 1 - m % MICROS_PER_DAY)
    };
    proof {
        let d = MICROS_PER_DAY as int;
        vstd::arithmetic::div_mod::lemma_fundamental_div_mod(micros as int, d);
        if micros < 0 {
            let m = -(micros + 1);
            vstd::arithmetic::div_mod::lemma_fundamental_div_mod(m as int, d);
            vstd::arithmetic::div_mod::lemma_fundamental_div_mod_converse(
                micros as int, d, days as int, rem as int);
        }
    }
    if days > i32::MAX as i64 || days < i32::MIN as i64 {
        return Err(ConversionError::Invalid("Invalid date".to_owned()));
    }
    let date = date_from_days(days as i32)?;
    let time = time_from_micros(rem)?;
    Ok(Timestamp { date, time })
}

/// Flattens an interval of months, days and microseconds, counting a month as 30 days.
pub fn interval_from_parts(months: i32, days: i32, micros: i64) -> (r: Interval)
    ensures
        r.micros as int == interval_micros(months as int, days as int, micros as int),
{
    let total_days = months as i128 * 30 + days as i128;
    proof {
        assert(total_days * 86_400_000_000 <= 0x1_0000_0000_0000 * 86_400_000_000) by (nonlinear_arith)
            requires total_days <= 0x1_0000_0000_0000;
        assert(total_days * 86_400_000_000 >= -0x1_0000_0000_0000 * 86_400_000_000) by (nonlinear_arith)
            requires total_days >= -0x1_0000_0000_0000;
    }
    Interval { micros: total_days * 86_400_000_000 + micros as i128 }
}

/// Relies on chrono's `NaiveDate::from_ymd_opt` and `Datelike::num_days_from_ce`: for a date
/// of the calendar, its day number of the common era, which `from_num_days_from_ce_opt` maps
/// back to the same year, month and day.
#[verifier::external_body]
fn ce_days_from_ymd(year: i32, month: u32, day: u32) -> (r: Option<i32>)
    ensures
        r matches Some(n) ==> calendar_date(n) == Some((year, month, day)),
{
    chrono::NaiveDate::from_ymd_opt(year, month, day).map(|d| d.num_days_from_ce())
}

/// Encodes a date as days since 1970-01-01; `None` where it is not a date of the calendar or
/// its day number does not fit. The number is one that `date_from_days` decodes to `d`.
pub fn date_to_days(d: Date) -> (r: Option<i32>)
    ensures
        r matches Some(n) ==> date_of_epoch_days(n as int) == Some(d),
{
    match ce_days_from_ymd(d.year, d.month, d.day) {
        Some(ce) => {
            if ce < i32::MIN + EPOCH_CE_DAYS {
                None
            } else {
                Some(ce - EPOCH_CE_DAYS)
            }
        },
        None => None,
    }
}

/// Whether a time's fields are those of a time of day.
pub open spec fn valid_time(t: Time) -> bool {
    t.hour < 24 && t.minute < 60 && t.second < 60 && t.micro < 1_000_000
}

/// Microseconds after midnight of a time of day.
pub open spec fn time_micros(t: Time) -> int {
    ((t.hour * 60 + t.minute) * 60 + t.second) * 1_000_000 + t.micro
}

/// A time of day encoded as microseconds after midnight decodes back to itself.
pub proof fn lemma_time_round_trip(t: Time)
    requires
        valid_time(t),
    ensures
        0 <= time_micros(t) < MICROS_PER_DAY,
        time_of_micros(time_micros(t)) == t,
{
    let h = t.hour as int;
    let mi = t.minute as int;
    let s = t.second as int;
    let u = t.micro as int;
    let m = time_micros(t);
    assert(0 <= m < 86_400_000_000) by (nonlinear_arith)
        requires
            m == ((h * 60 + mi) * 60 + s) * 1_000_000 + u,
            0 <= h < 24, 0 <= mi < 60, 0 <= s < 60, 0 <= u < 1_000_000,
    ;
    let q1 = (h * 60 + mi) * 60 + s;
    vstd::arithmetic::div_mod::lemma_fundamental_div_mod_converse(m, 1_000_000, q1, u);
    vstd::arithmetic::div_mod::lemma_fundamental_div_mod_converse(q1, 60, h * 60 + mi, s);
    assert(m == (h * 60 + mi) * 60_000_000 + (s * 1_000_000 + u)) by (nonlinear_arith)
        requires m == ((h * 60 + mi) * 60 + s) * 1_000_000 + u;
    vstd::arithmetic::div_mod::lemma_fundamental_div_mod_converse(
        m, 60_000_000, h * 60 + mi, s * 1_000_000 + u);
    vstd::arithmetic::div_mod::lemma_fundamental_div_mod_converse(h * 60 + mi, 60, h, mi);
    assert(m == h * 3_600_000_000 + (mi * 60_000_000 + s * 1_000_000 + u)) by (nonlinear_arith)
        requires m == ((h * 60 + mi) * 60 + s) * 1_000_000 + u;
    vstd::arithmetic::div_mod::lemma_fundamental_div_mod_converse(
        m, 3_600_000_000, h, mi * 60_000_000 + s * 1_000_000 + u);
}

/// Encodes a time of day as microseconds after midnight; `None` where a field is out of range.
pub fn time_to_micros(t: Time) -> (r: Option<i64>)
    ensures
        r is Some <==> valid_time(t),
        r matches Some(m) ==> m as int == time_micros(t) && 0 <= m < MICROS_PER_DAY && time_of_micros(
            m as int,
        ) == t,
{
    if t.hour >= 24 || t.minute >= 60 || t.second >= 60 || t.micro >= 1_000_000 {
        return None;
    }
    proof {
        lemma_time_round_trip(t);
    }
    Some(((t.hour as i64 * 60 + t.minute as i64) * 60 + t.second as i64) * 1_000_000 + t.micro as i64)
}

/// Encodes a timestamp as microseconds after 1970-01-01 00:00; `None` where its date or time
/// cannot be encoded or the count does not fit. The count is one that `timestamp_from_micros`
/// decodes to `ts`.
pub fn timestamp_to_micros(ts: Timestamp) -> (r: Option<i64>)
    ensures
        r matches Some(m) ==> timestamp_of_micros(m as int) == Some(ts),
{
    let days = match date_to_days(ts.date) {
        Some(d) => d,
        None => {
            return None;
        },
    };
    let tm = match time_to_micros(ts.time) {
        Some(m) => m,
        None => {
            return None;
        },
    };
    let total: i128 = days as i128 * 86_400_000_000 + tm as i128;
    if total < i64::MIN as i128 || total > i64::MAX as i128 {
        return None;
    }
    proof {
        vstd::arithmetic::div_mod::lemma_fundamental_div_mod_converse(
            total as int, MICROS_PER_DAY as int, days as int, tm as int);
    }
    Some(total as i64)
}

} // verus!
