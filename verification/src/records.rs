//! The decoded data model.
//!
//! The meter's files carry decimal-scaled quantities. The records keep each
//! one as the raw unsigned integer read from the file; the field name states
//! the unit, so `milli_kwh` holds thousandths of a kilowatt-hour and
//! `centi_hours` hundredths of an hour. Rendering as fractional numbers is a
//! presentation concern outside this crate.

use vstd::prelude::*;
use crate::timestamp::Timestamp;

verus! {

/// Why a decode failed. Errors are all-or-nothing: no partial record is
/// ever returned.
#[derive(Clone, Copy, Debug, PartialEq, Eq, Structural)]
pub enum DecodeError {
    /// The four sentinel bytes closing an `INFO` file were not all `0xFF`.
    MissingTerminator,
    /// The five raw date/time bytes do not form a real calendar date.
    InvalidDateTime,
}

/// The decoded 102-byte `INFO` snapshot.
#[derive(Debug)]
pub struct InfoRecord {
    /// Total power consumption, in thousandths of a kWh.
    pub total_power_consumption_milli_kwh: u32,
    /// Total recorded time, in hundredths of an hour.
    pub total_recorded_time_centi_hours: u32,
    /// Total on time, in hundredths of an hour.
    pub total_on_time_centi_hours: u32,
    /// Ten daily consumption entries, in thousandths of a kWh each.
    pub daily_milli_kwh: Vec<u32>,
    /// Ten daily recorded-time entries, in hundredths of an hour each.
    pub daily_recorded_centi_hours: Vec<u16>,
    /// Ten daily on-time entries, in hundredths of an hour each.
    pub daily_on_centi_hours: Vec<u16>,
    /// Raw device identity byte.
    pub unit_id: u8,
    /// First tariff rate, in thousandths (positional-digit decoded).
    pub tariff1_milli: u32,
    /// Second tariff rate, in thousandths (positional-digit decoded).
    pub tariff2_milli: u32,
    /// Moment the snapshot was taken.
    pub timestamp: Timestamp,
}

impl InfoRecord {
    /// Each daily history holds exactly one entry per day of the ten-day
    /// window.
    pub open spec fn wf(self) -> bool {
        &&& self.daily_milli_kwh@.len() == 10
        &&& self.daily_recorded_centi_hours@.len() == 10
        &&& self.daily_on_centi_hours@.len() == 10
    }
}

/// One electrical sample of a `DATA` time series.
#[derive(Clone, Copy, Debug, PartialEq, Eq, Structural)]
pub struct DataSample {
    /// Moment of this sample: the series start plus one minute per
    /// preceding sample.
    pub timestamp: Timestamp,
    /// Voltage, in tenths of a volt.
    pub voltage_deci_v: u16,
    /// Current, in hundredths of a milliampere.
    pub current_centi_ma: u16,
    /// Power factor, in hundredths of a percent.
    pub power_factor_centi_pct: u8,
}

/// The decoded variable-length `DATA` time series.
#[derive(Debug)]
pub struct DataRecord {
    /// Moment of the first sample.
    pub start_timestamp: Timestamp,
    /// The samples, in chronological order.
    pub samples: Vec<DataSample>,
}

} // verus!
