//! Decoder for the fixed-layout binary export files of an electricity meter.
//!
//! Two formats exist: a 102-byte `INFO` snapshot holding aggregate counters,
//! ten daily history entries, tariff rates and a timestamp, and a
//! variable-length `DATA` time series holding a start timestamp followed by
//! repeating 5-byte samples up to an all-`0xFF` sentinel. Both decoders are
//! pure functions over an in-memory byte buffer; all multi-byte integers are
//! big-endian, and scaled quantities are kept as raw unsigned integers whose
//! field names carry the scale.

pub mod bigendian;
pub mod classify;
pub mod data;
pub mod info;
pub mod records;
pub mod timestamp;
