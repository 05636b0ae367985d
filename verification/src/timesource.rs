//! The clock of a host without one.

use vstd::prelude::*;

verus! {

/// A point in time.
#[derive(Clone, Copy, PartialEq, Eq, Structural, Debug)]
pub struct Timestamp {
    pub year_since_1970: u8,
    pub zero_indexed_month: u8,
    pub zero_indexed_day: u8,
    pub hours: u8,
    pub minutes: u8,
    pub seconds: u8,
}

/// A clock that stands still.
#[derive(Clone, Copy, PartialEq, Eq, Structural, Debug)]
pub struct DummyTimesource;

impl DummyTimesource {
    /// The first second of 1970, at any time.
    pub fn get_timestamp(&self) -> (t: Timestamp)
        ensures
            t == (Timestamp {
                year_since_1970: 0,
                zero_indexed_month: 0,
                zero_indexed_day: 0,
                hours: 0,
                minutes: 0,
                seconds: 0,
            }),
    {
        Timestamp {
            year_since_1970: 0,
            zero_indexed_month: 0,
            zero_indexed_day: 0,
            hours: 0,
            minutes: 0,
            seconds: 0,
        }
    }
}

} // verus!
