//! Decoder for the 102-byte `INFO` snapshot.
//!
//! Fixed layout, all offsets in bytes: power consumption (3 bytes at 5),
//! recorded time (3 at 8), on time (3 at 11), ten daily consumption entries
//! (3 each from 14), ten daily recorded-time entries (2 each from 44), ten
//! daily on-time entries (2 each from 64), unit id (1 at 84), two tariffs
//! (4 each at 85 and 89, positional-digit decoded), the timestamp bytes
//! (hour, minute, month, day, year at 93..=97) and a closing sentinel of
//! four `0xFF` bytes at 98..=101.

use vstd::prelude::*;
use crate::bigendian::{be16, be24, positional4, read_be16, read_be24, read_positional4};
use crate::classify::has_info_magic;
use crate::records::{DecodeError, InfoRecord};
use crate::timestamp::Timestamp;

verus! {

/// The timestamp assembled from the five raw date/time bytes of an `INFO`
/// buffer: hour at 93, minute at 94, month at 95, day at 96 and two-digit
/// year at 97, the year counted from 2000.
pub open spec fn info_timestamp_fields(s: Seq<u8>) -> Timestamp {
    Timestamp {
        year: (2000 + s[97]) as u64,
        month: s[95],
        day: s[96],
        hour: s[93],
        minute: s[94],
    }
}

/// The four sentinel bytes at offsets 98..=101 are all `0xFF`.
pub open spec fn info_terminator_ok(s: Seq<u8>) -> bool {
    &&& s[98] == 0xff
    &&& s[99] == 0xff
    &&& s[100] == 0xff
    &&& s[101] == 0xff
}

/// `info` holds exactly the field values the 102-byte buffer `s` encodes.
pub open spec fn info_matches(s: Seq<u8>, info: InfoRecord) -> bool {
    &&& info.total_power_consumption_milli_kwh == be24(s, 5)
    &&& info.total_recorded_time_centi_hours == be24(s, 8)
    &&& info.total_on_time_centi_hours == be24(s, 11)
    &&& info.wf()
    &&& forall|d: int| 0 <= d < 10 ==> info.daily_milli_kwh@[d] == be24(s, 14 + 3 * d)
    &&& forall|d: int| 0 <= d < 10 ==> info.daily_recorded_centi_hours@[d] == be16(s, 44 + 2 * d)
    &&& forall|d: int| 0 <= d < 10 ==> info.daily_on_centi_hours@[d] == be16(s, 64 + 2 * d)
    &&& info.unit_id == s[84]
    &&& info.tariff1_milli == positional4(s, 85)
    &&& info.tariff2_milli == positional4(s, 89)
    &&& info.timestamp == info_timestamp_fields(s)
}

/// Decodes a 102-byte `INFO` snapshot.
///
/// Succeeds exactly when the five date/time bytes form a real calendar
/// date and the closing sentinel is present, and then returns every field
/// of the snapshot; otherwise no partial record is returned. An unreadable
/// date is reported before a missing sentinel.
pub fn decode_info(buffer: &[u8]) -> (r: Result<InfoRecord, DecodeError>)
    requires
        buffer@.len() == 102,
        has_info_magic(buffer@),
    ensures
        r is Ok <==> info_timestamp_fields(buffer@).valid() && info_terminator_ok(buffer@),
        r is Ok ==> info_matches(buffer@, r->Ok_0),
        !info_timestamp_fields(buffer@).valid() ==> r == Err::<InfoRecord, DecodeError>(
            DecodeError::InvalidDateTime,
        ),
        info_timestamp_fields(buffer@).valid() && !info_terminator_ok(buffer@) ==> r == Err::<
            InfoRecord,
            DecodeError,
        >(DecodeError::MissingTerminator),
{
    let total_power_consumption_milli_kwh = read_be24(buffer, 5);
    let total_recorded_time_centi_hours = read_be24(buffer, 8);
    let total_on_time_centi_hours = read_be24(buffer, 11);

    let mut daily_milli_kwh: Vec<u32> = Vec::new();
    let mut day: usize = 0;
    while day < 10
        invariant
            day <= 10,
            buffer@.len() == 102,
            daily_milli_kwh@.len() == day,
            forall|d: int| 0 <= d < day ==> daily_milli_kwh@[d] == be24(buffer@, 14 + 3 * d),
        decreases 10 - day,
    {
        let value = read_be24(buffer, 14 + 3 * day);
        daily_milli_kwh.push(value);
        day = day + 1;
    }

    let mut daily_recorded_centi_hours: Vec<u16> = Vec::new();
    day = 0;
    while day < 10
        invariant
            day <= 10,
            buffer@.len() == 102,
            daily_recorded_centi_hours@.len() == day,
            forall|d: int| 0 <= d < day ==> daily_recorded_centi_hours@[d] == be16(
                buffer@,
                44 + 2 * d,
            ),
        decreases 10 - day,
    {
        let value = read_be16(buffer, 44 + 2 * day);
        daily_recorded_centi_hours.push(value);
        day = day + 1;
    }

    let mut daily_on_centi_hours: Vec<u16> = Vec::new();
    day = 0;
    while day < 10
        invariant
            day <= 10,
            buffer@.len() == 102,
            daily_on_centi_hours@.len() == day,
            forall|d: int| 0 <= d < day ==> daily_on_centi_hours@[d] == be16(buffer@, 64 + 2 * d),
        decreases 10 - day,
    {
        let value = read_be16(buffer, 64 + 2 * day);
        daily_on_centi_hours.push(value);
        day = day + 1;
    }

    let unit_id = buffer[84];
    let tariff1_milli = read_positional4(buffer, 85);
    let tariff2_milli = read_positional4(buffer, 89);

    let year_byte = buffer[97];
    let timestamp = match Timestamp::from_fields(
        2000 + year_byte as u64,
        buffer[95],
        buffer[96],
        buffer[93],
        buffer[94],
    ) {
        Some(t) => t,
        None => {
            return Err(DecodeError::InvalidDateTime);
        },
    };

    if !(buffer[98] == 0xff && buffer[99] == 0xff && buffer[100] == 0xff && buffer[101] == 0xff) {
        return Err(DecodeError::MissingTerminator);
    }

    Ok(
        InfoRecord {
            total_power_consumption_milli_kwh,
            total_recorded_time_centi_hours,
            total_on_time_centi_hours,
            daily_milli_kwh,
            daily_recorded_centi_hours,
            daily_on_centi_hours,
            unit_id,
            tariff1_milli,
            tariff2_milli,
            timestamp,
        },
    )
}

} // verus!
