//! The fixed file-timestamp source the SD-card examples hand to the
//! volume manager. The card stack only needs *some* timestamp for file
//! creation; without an external time reference the examples supply the
//! FAT epoch. The adapter that feeds this value to the SD-card driver
//! lives outside the verified crate.

use vstd::prelude::*;

verus! {

/// A file timestamp in the FAT representation: years counted from 1970,
/// month and day counted from zero.
#[derive(PartialEq, Eq, Structural, Clone, Copy, Debug)]
pub struct SdTimestamp {
    /// Add 1970 to get the calendar year.
    pub year_since_1970: u8,
    /// Add one to get the calendar month.
    pub zero_indexed_month: u8,
    /// Add one to get the calendar day.
    pub zero_indexed_day: u8,
    /// Hours past midnight.
    pub hours: u8,
    /// Minutes past the hour.
    pub minutes: u8,
    /// Seconds past the minute.
    pub seconds: u8,
}

/// A dummy timesource, which is mostly important for creating files: it
/// always reports the FAT epoch.
pub struct DummyTimesource();

impl DummyTimesource {
    /// The fixed timestamp: all fields zero.
    pub fn get_timestamp(&self) -> (ts: SdTimestamp)
        ensures
            ts == (SdTimestamp {
                year_since_1970: 0u8,
                zero_indexed_month: 0u8,
                zero_indexed_day: 0u8,
                hours: 0u8,
                minutes: 0u8,
                seconds: 0u8,
            }),
    {
        SdTimestamp {
            year_since_1970: 0,
            zero_indexed_month: 0,
            zero_indexed_day: 0,
            hours: 0,
            minutes: 0,
            seconds: 0,
        }
    }
}

impl Default for DummyTimesource {
    /// There is nothing to configure; every instance behaves alike.
    fn default() -> (source: DummyTimesource) {
        DummyTimesource()
    }
}

} // verus!
