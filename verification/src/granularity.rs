//! Candle granularities and their widths in seconds.

use vstd::prelude::*;

verus! {

/// The time-bucket width of a candle sequence.
#[derive(Clone, Copy, Debug, PartialEq, Eq, Structural)]
pub enum Granularity {
    OneMinute,
    FiveMinutes,
    FifteenMinutes,
    OneHour,
    SixHours,
    OneDay,
}

impl Granularity {
    /// Width of one candle, in seconds.
    pub open spec fn spec_seconds(self) -> nat {
        match self {
            Granularity::OneMinute => 60,
            Granularity::FiveMinutes => 300,
            Granularity::FifteenMinutes => 900,
            Granularity::OneHour => 3600,
            Granularity::SixHours => 21600,
            Granularity::OneDay => 86400,
        }
    }

    /// Width of one candle, in seconds, as the data provider expects it.
    pub fn seconds(self) -> (s: u64)
        ensures
            s == self.spec_seconds(),
    {
        match self {
            Granularity::OneMinute => 60,
            Granularity::FiveMinutes => 300,
            Granularity::FifteenMinutes => 900,
            Granularity::OneHour => 3600,
            Granularity::SixHours => 21600,
            Granularity::OneDay => 86400,
        }
    }

    /// The granularity whose candles are `seconds` wide, if there is one.
    pub fn from_seconds(seconds: u64) -> (g: Option<Granularity>)
        ensures
            match g {
                Some(g) => g.spec_seconds() == seconds,
                None => forall|h: Granularity| h.spec_seconds() != seconds,
            },
    {
        if seconds == 60 {
            Some(Granularity::OneMinute)
        } else if seconds == 300 {
            Some(Granularity::FiveMinutes)
        } else if seconds == 900 {
            Some(Granularity::FifteenMinutes)
        } else if seconds == 3600 {
            Some(Granularity::OneHour)
        } else if seconds == 21600 {
            Some(Granularity::SixHours)
        } else if seconds == 86400 {
            Some(Granularity::OneDay)
        } else {
            None
        }
    }
}

} // verus!
