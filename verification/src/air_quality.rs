//! The reading that a measurement cycle delivers.

use vstd::prelude::*;
use chrono::Local;

verus! {

/// A point in time together with the local offset it was observed under.
#[derive(Clone, Copy, Debug, PartialEq, Eq, Structural)]
pub struct Timestamp {
    /// Whole seconds since 1970-01-01T00:00:00Z, leap seconds not counted.
    pub seconds: i64,
    /// Nanoseconds since the last full second.
    pub nanos: u32,
    /// Seconds by which local civil time is ahead of UTC.
    pub offset: i32,
}

/// The numbers of one measurement cycle, before they are stamped.
#[derive(Clone, Copy, Debug, PartialEq, Eq, Structural)]
pub struct Reading {
    /// CO₂ equivalent in parts per million.
    pub co2: u16,
    /// Total volatile organic compounds in parts per billion.
    pub tvoc: u16,
    /// Raw signal of the hydrogen reference channel.
    pub h2: u16,
    /// Raw signal of the ethanol reference channel.
    pub etha: u16,
}

/// An air-quality reading with the local time at which it was taken.
#[derive(Clone, Copy, Debug)]
pub struct AirQuality {
    /// When the reading was taken, in local civil time.
    pub timestamp: Timestamp,
    /// CO₂ equivalent in parts per million.
    pub co2: u16,
    /// Total volatile organic compounds in parts per billion.
    pub tvoc: u16,
    /// Raw signal of the hydrogen reference channel.
    pub h2: u16,
    /// Raw signal of the ethanol reference channel.
    pub etha: u16,
}

/// Reads the clock through `chrono::Local::now` and takes the moment apart
/// into seconds, nanoseconds and local offset. Nothing is claimed of the
/// time that comes back.
#[verifier::external_body]
fn local_now() -> (now: Timestamp) {
    let now = Local::now();
    Timestamp {
        seconds: now.timestamp(),
        nanos: now.timestamp_subsec_nanos(),
        offset: now.offset().local_minus_utc(),
    }
}

impl AirQuality {
    /// The numbers of this reading without the timestamp.
    pub open spec fn reading(self) -> Reading {
        Reading { co2: self.co2, tvoc: self.tvoc, h2: self.h2, etha: self.etha }
    }

    /// A reading taken at `timestamp`.
    pub fn at(timestamp: Timestamp, reading: Reading) -> (r: AirQuality)
        ensures
            r.timestamp == timestamp,
            r.reading() == reading,
    {
        AirQuality {
            timestamp,
            co2: reading.co2,
            tvoc: reading.tvoc,
            h2: reading.h2,
            etha: reading.etha,
        }
    }

    /// Stamps `reading` with the current local time.
    pub fn stamp(reading: Reading) -> (r: AirQuality)
        ensures
            r.reading() == reading,
    {
        AirQuality::at(local_now(), reading)
    }
}

} // verus!
