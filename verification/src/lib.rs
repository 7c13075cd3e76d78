//! Core engine of a media-consumption tracker.
//!
//! The library decides, from partial progress reports, whether a tracking
//! session starts, continues or closes; derives collection membership
//! including a "fully consumed" predicate for episodic media; diffs refreshed
//! metadata snapshots against stored ones; and folds event streams into
//! resumable per-user statistics. Storage, transport and provider I/O live
//! outside the library and hand it plain values.

use vstd::prelude::*;

pub mod activity;
pub mod catalog;
pub mod clock;
pub mod finished;
pub mod fitness;
pub mod hourbag;
pub mod import;
pub mod listing;
pub mod membership;
pub mod progress;
pub mod stats;
pub mod sync;
pub mod types;

verus! {

/// Number of hundredths that stand for a progress of one hundred percent.
pub const PROGRESS_FULL: i64 = 10000;

/// A fixed-point number with two decimal places, stored as a count of
/// hundredths. Progress percentages, manga chapter numbers and workout
/// weights are carried in this form.
#[derive(Clone, Copy, Debug, PartialEq, Eq, Structural, Hash)]
pub struct FixedValue {
    pub hundredths: i64,
}

impl FixedValue {
    /// The value `n.00`.
    pub fn from_int(n: i64) -> (r: FixedValue)
        requires
            -90_000_000_000_000_000 <= n <= 90_000_000_000_000_000,
        ensures
            r.hundredths == n * 100,
    {
        FixedValue { hundredths: n * 100 }
    }

    /// The largest integer at or below the value, for a non-negative value.
    pub fn floor_int(self) -> (r: i64)
        requires
            self.hundredths >= 0,
        ensures
            r == self.hundredths / 100,
    {
        self.hundredths / 100
    }
}

/// `a + b` clamped into the `u64` range.
pub open spec fn spec_sat_add_u64(a: u64, b: int) -> u64 {
    if a + b > u64::MAX {
        u64::MAX
    } else if a + b < 0 {
        0
    } else {
        (a + b) as u64
    }
}

/// Executable twin of [`spec_sat_add_u64`] for non-negative additions.
pub fn sat_add_u64(a: u64, b: u64) -> (r: u64)
    ensures
        r == spec_sat_add_u64(a, b as int),
{
    if a <= u64::MAX - b {
        a + b
    } else {
        u64::MAX
    }
}

/// `a + b` clamped into the `i64` range.
pub open spec fn spec_sat_add_i64(a: i64, b: int) -> i64 {
    if a + b > i64::MAX {
        i64::MAX
    } else if a + b < i64::MIN {
        i64::MIN
    } else {
        (a + b) as i64
    }
}

/// Executable twin of [`spec_sat_add_i64`].
pub fn sat_add_i64(a: i64, b: i64) -> (r: i64)
    ensures
        r == spec_sat_add_i64(a, b as int),
{
    if b >= 0 {
        if a <= i64::MAX - b {
            a + b
        } else {
            i64::MAX
        }
    } else {
        if a >= i64::MIN - b {
            a + b
        } else {
            i64::MIN
        }
    }
}

} // verus!
