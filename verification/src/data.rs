//! Decoder for the variable-length `DATA` time series.
//!
//! The header carries five date/time bytes (month, day, two-digit year,
//! hour, minute at offsets 3..=7). From offset 8 the buffer holds 5-byte
//! samples: voltage (big-endian 16-bit, tenths of a volt), current
//! (big-endian 16-bit, hundredths of a milliampere) and power factor (one
//! byte, hundredths of a percent). The sample loop stops, without error,
//! at the first sample position whose next four bytes are all `0xFF`, or
//! when fewer than five bytes remain. Each sample is stamped one minute
//! after the one before it, starting at the header timestamp.

use vstd::prelude::*;
use crate::bigendian::{be16, read_be16};
use crate::classify::has_data_magic;
use crate::records::{DataRecord, DataSample, DecodeError};
use crate::timestamp::{plus_minutes, Timestamp};

verus! {

/// The timestamp assembled from the five raw header bytes of a `DATA`
/// buffer: month at 3, day at 4, two-digit year at 5 (counted from 2000),
/// hour at 6 and minute at 7.
pub open spec fn data_timestamp_fields(s: Seq<u8>) -> Timestamp {
    Timestamp {
        year: (2000 + s[5]) as u64,
        month: s[3],
        day: s[4],
        hour: s[6],
        minute: s[7],
    }
}

/// The four bytes at `pos` are all `0xFF`: the end-of-data sentinel.
pub open spec fn sentinel_at(s: Seq<u8>, pos: int) -> bool {
    &&& s[pos] == 0xff
    &&& s[pos + 1] == 0xff
    &&& s[pos + 2] == 0xff
    &&& s[pos + 3] == 0xff
}

/// How many samples the loop decodes when it starts at `pos`: one per
/// 5-byte step until fewer than five bytes remain or the sentinel is met.
pub open spec fn count_samples(s: Seq<u8>, pos: int) -> nat
    decreases s.len() - pos,
{
    if pos + 5 > s.len() {
        0
    } else if sentinel_at(s, pos) {
        0
    } else {
        1 + count_samples(s, pos + 5)
    }
}

/// `smp` holds exactly what the 5-byte block for sample `i` of `s`
/// encodes, stamped `i` minutes after `start`.
pub open spec fn sample_matches(s: Seq<u8>, start: Timestamp, i: int, smp: DataSample) -> bool {
    &&& smp.timestamp == plus_minutes(start, i as nat)
    &&& smp.voltage_deci_v == be16(s, 8 + 5 * i)
    &&& smp.current_centi_ma == be16(s, 8 + 5 * i + 2)
    &&& smp.power_factor_centi_pct == s[8 + 5 * i + 4]
}

/// `d` holds exactly the header timestamp and sample sequence that the
/// `DATA` buffer `s` encodes.
pub open spec fn data_matches(s: Seq<u8>, d: DataRecord) -> bool {
    &&& d.start_timestamp == data_timestamp_fields(s)
    &&& d.samples@.len() == count_samples(s, 8)
    &&& forall|i: int|
        0 <= i < d.samples@.len() ==> sample_matches(s, d.start_timestamp, i, d.samples@[i])
}

proof fn lemma_count_from_exhausted(s: Seq<u8>, pos: int)
    requires
        8 <= pos <= s.len(),
        (pos - 8) % 5 == 0,
        forall|p: int| pos <= p && p + 5 <= s.len() && (p - 8) % 5 == 0 ==> !sentinel_at(s, p),
    ensures
        count_samples(s, pos) == (s.len() - pos) / 5,
    decreases s.len() - pos,
{
    if pos + 5 > s.len() {
        assert((s.len() - pos) / 5 == 0);
    } else {
        assert(!sentinel_at(s, pos));
        assert(((pos + 5) - 8) % 5 == 0);
        lemma_count_from_exhausted(s, pos + 5);
        assert((s.len() - pos) / 5 == 1 + (s.len() - (pos + 5)) / 5);
    }
}

/// When no sample position carries the sentinel, the sample count is the
/// number of whole 5-byte blocks between offset 8 and the end of the
/// buffer: decoding stops only by buffer exhaustion. Sample positions are
/// the 5-byte-aligned offsets `8, 13, 18, ...` with five bytes left.
pub proof fn lemma_sample_count_no_terminator(s: Seq<u8>)
    requires
        s.len() >= 8,
        forall|p: int|
            8 <= p && p + 5 <= s.len() && (p - 8) % 5 == 0 ==> !#[trigger] sentinel_at(s, p),
    ensures
        count_samples(s, 8) == (s.len() - 8) / 5,
{
    lemma_count_from_exhausted(s, 8);
}

proof fn lemma_count_from_terminated(s: Seq<u8>, t: int, pos: int)
    requires
        8 <= pos <= t,
        (pos - 8) % 5 == 0,
        (t - 8) % 5 == 0,
        t + 5 <= s.len(),
        sentinel_at(s, t),
        forall|p: int| 8 <= p < t && (p - 8) % 5 == 0 ==> !#[trigger] sentinel_at(s, p),
    ensures
        count_samples(s, pos) == (t - pos) / 5,
    decreases t - pos,
{
    if pos == t {
    } else {
        assert(!sentinel_at(s, pos));
        assert(((pos + 5) - 8) % 5 == 0);
        lemma_count_from_terminated(s, t, pos + 5);
        assert((t - pos) / 5 == 1 + (t - (pos + 5)) / 5);
    }
}

/// When the first sentinel on a sample position stands at byte offset `t`,
/// the sample count is the distance from offset 8 to the terminator in
/// whole 5-byte blocks: `(t - 8) / 5`. Sample positions are the
/// 5-byte-aligned offsets `8, 13, 18, ...`.
pub proof fn lemma_sample_count_terminated(s: Seq<u8>, t: int)
    requires
        8 <= t,
        (t - 8) % 5 == 0,
        t + 5 <= s.len(),
        sentinel_at(s, t),
        forall|p: int| 8 <= p < t && (p - 8) % 5 == 0 ==> !#[trigger] sentinel_at(s, p),
    ensures
        count_samples(s, 8) == (t - 8) / 5,
{
    lemma_count_from_terminated(s, t, 8);
}

/// Decodes a `DATA` time series.
///
/// Succeeds exactly when the five header date/time bytes form a real
/// calendar date, and then returns the header timestamp and every sample
/// up to the sentinel or the end of the buffer, each stamped one minute
/// after its predecessor.
pub fn decode_data(buffer: &[u8]) -> (r: Result<DataRecord, DecodeError>)
    requires
        buffer@.len() >= 8,
        has_data_magic(buffer@),
    ensures
        r is Ok <==> data_timestamp_fields(buffer@).valid(),
        r is Ok ==> data_matches(buffer@, r->Ok_0),
        !data_timestamp_fields(buffer@).valid() ==> r == Err::<DataRecord, DecodeError>(
            DecodeError::InvalidDateTime,
        ),
{
    let year_byte = buffer[5];
    let start_timestamp = match Timestamp::from_fields(
        2000 + year_byte as u64,
        buffer[3],
        buffer[4],
        buffer[6],
        buffer[7],
    ) {
        Some(t) => t,
        None => {
            return Err(DecodeError::InvalidDateTime);
        },
    };

    let mut samples: Vec<DataSample> = Vec::new();
    let mut running = start_timestamp;
    let mut pos: usize = 8;
    while pos < buffer.len() - 4
        invariant
            buffer@.len() >= 8,
            pos as int == 8 + 5 * samples@.len(),
            pos <= buffer@.len(),
            start_timestamp == data_timestamp_fields(buffer@),
            start_timestamp.valid(),
            start_timestamp.year <= 2255,
            running == plus_minutes(start_timestamp, samples@.len()),
            running.valid(),
            running.year <= start_timestamp.year + samples@.len(),
            count_samples(buffer@, 8) == samples@.len() + count_samples(buffer@, pos as int),
            forall|j: int|
                0 <= j < samples@.len() ==> sample_matches(
                    buffer@,
                    start_timestamp,
                    j,
                    samples@[j],
                ),
        ensures
            count_samples(buffer@, pos as int) == 0,
            count_samples(buffer@, 8) == samples@.len(),
            running == plus_minutes(start_timestamp, samples@.len()),
            forall|j: int|
                0 <= j < samples@.len() ==> sample_matches(
                    buffer@,
                    start_timestamp,
                    j,
                    samples@[j],
                ),
        decreases buffer@.len() - pos,
    {
        if buffer[pos] == 0xff && buffer[pos + 1] == 0xff && buffer[pos + 2] == 0xff && buffer[pos
            + 3] == 0xff {
            break ;
        }
        let voltage_deci_v = read_be16(buffer, pos);
        let current_centi_ma = read_be16(buffer, pos + 2);
        let power_factor_centi_pct = buffer[pos + 4];
        samples.push(
            DataSample { timestamp: running, voltage_deci_v, current_centi_ma, power_factor_centi_pct },
        );
        running = running.add_one_minute();
        pos = pos + 5;
    }
    Ok(DataRecord { start_timestamp, samples })
}

} // verus!
