//! The clock, behind trusted wrappers: the engines themselves take the
//! current instant and dates as plain arguments, so everything downstream
//! is verified for every value the clock could give.

use vstd::prelude::*;

verus! {

/// Relies on chrono::Utc::now and chrono::DateTime::timestamp: the current
/// instant, as seconds since the epoch. Nothing is assumed of the value.
#[verifier::external_body]
pub fn current_unix_seconds() -> (t: i64) {
    chrono::Utc::now().timestamp()
}

/// Relies on chrono::Utc::now and chrono::NaiveDate (whose `Default` is the
/// epoch date): the current calendar date in UTC, as days since the epoch.
/// Nothing is assumed of the value.
#[verifier::external_body]
pub fn current_utc_day() -> (d: i64) {
    chrono::Utc::now().date_naive().signed_duration_since(chrono::NaiveDate::default()).num_days()
}

/// Relies on chrono_tz::Tz::from_str and chrono::DateTime::with_timezone:
/// the current calendar date in the named timezone, as days since the
/// epoch, or nothing when the timezone name is unknown.
#[verifier::external_body]
pub fn current_day_in_zone(zone: &str) -> (d: Option<i64>) {
    match <chrono_tz::Tz as core::str::FromStr>::from_str(zone) {
        Ok(tz) => Some(
            chrono::Utc::now().with_timezone(&tz).date_naive().signed_duration_since(
                chrono::NaiveDate::default(),
            ).num_days(),
        ),
        Err(_) => None,
    }
}

} // verus!
