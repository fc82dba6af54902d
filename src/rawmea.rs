//! Binary records of the device: a `#0` marker, a fixed metadata header whose
//! last two bytes count the 30-byte readings that follow, and for saved
//! records a name ended by a carriage return.
//!
//! Every floating value is kept as the IEEE-754 bit pattern that the device
//! sent (see `wire::double_bits`).
use vstd::prelude::*;

use crate::error::DecodeError;
use crate::text::{lossy_utf8, lossy_text};
use crate::wire::{
    first_cr, no_cr_from, double_bits, i16_le, u16_le, find_cr, read_double_bits, read_i16_le,
    read_u16_le,
};

verus! {

pub const BIN_MARKER_LEN: usize = 2;

pub const MEA_METADATA_LEN: usize = 34;

pub const SAVED_MEA_METADATA_LEN: usize = 38;

pub const SAVED_MINMAX_METADATA_LEN: usize = 54;

pub const SAVED_RECORDING_METADATA_LEN: usize = 78;

pub const READING_LEN: usize = 30;

/// Marker, start and end time, three span readings, sample count, one fixed
/// reading and three codes.
pub const SAVED_RECORD_READINGS_LEN: usize = 146;

pub const EOL_LEN: usize = 1;

/// The frame starts with the `#0` marker.
pub open spec fn has_marker(b: Seq<u8>) -> bool {
    b.len() >= 2 && b[0] == 35 && b[1] == 48
}

/// Where the readings of a record end, for a header ending at `header_end`.
pub open spec fn readings_end(b: Seq<u8>, header_end: int) -> int {
    header_end + READING_LEN * u16_le(b, header_end - 2)
}

/// One reading as it stands in the 30 bytes at `i`.
pub open spec fn reading_at(b: Seq<u8>, i: int) -> RawReading {
    RawReading {
        reading_id: u16_le(b, i),
        value: double_bits(b, i + 2),
        unit: u16_le(b, i + 10),
        unit_multiplier: i16_le(b, i + 12),
        decimals: i16_le(b, i + 14),
        display_digits: i16_le(b, i + 16),
        state: u16_le(b, i + 18),
        attribute: u16_le(b, i + 20),
        ts: double_bits(b, i + 22),
    }
}

/// The `n` readings stored back to back from `start`.
pub open spec fn readings_at(b: Seq<u8>, start: int, n: int) -> Seq<RawReading> {
    Seq::new(n as nat, |k: int| reading_at(b, start + READING_LEN * k))
}

/// `n` is the length of a named record whose header ends at `header_end`:
/// everything up to and including the first carriage return after the
/// readings.
pub open spec fn named_frame_len(b: Seq<u8>, header_end: int, n: int) -> bool {
    b.len() >= header_end && first_cr(b, readings_end(b, header_end), n - 1)
}

/// Not enough bytes are there yet to tell the length of a named record.
pub open spec fn named_frame_incomplete(b: Seq<u8>, header_end: int) -> bool {
    b.len() < header_end || no_cr_from(b, readings_end(b, header_end))
}

/// The name of a named record, given the position of its carriage return.
pub open spec fn name_at(b: Seq<u8>, header_end: int, cr: int) -> Seq<char> {
    lossy_text(b.subrange(readings_end(b, header_end), cr))
}

/// One 30-byte reading.
#[derive(Debug, Clone, Copy, PartialEq, Eq)]
pub struct RawReading {
    pub reading_id: u16,
    /// Bit pattern of the reading's value.
    pub value: u64,
    pub unit: u16,
    pub unit_multiplier: i16,
    pub decimals: i16,
    pub display_digits: i16,
    pub state: u16,
    pub attribute: u16,
    /// Bit pattern of the time of the reading, in seconds since the epoch.
    pub ts: u64,
}

impl RawReading {
    /// Decodes a reading from the first 30 bytes of `value`.
    pub fn parse(value: &[u8]) -> (r: Result<RawReading, DecodeError>)
        ensures
            value@.len() < READING_LEN ==> r == Err::<RawReading, DecodeError>(
                DecodeError::Truncated,
            ),
            value@.len() >= READING_LEN ==> r == Ok::<RawReading, DecodeError>(
                reading_at(value@, 0),
            ),
    {
        if value.len() < READING_LEN {
            Err(DecodeError::Truncated)
        } else {
            Ok(RawReading::parse_at(value, 0))
        }
    }

    /// Decodes the reading stored at `i`.
    pub fn parse_at(b: &[u8], i: usize) -> (r: RawReading)
        requires
            i + READING_LEN <= b@.len(),
        ensures
            r == reading_at(b@, i as int),
    {
        let _n = b.len();
        RawReading {
            reading_id: read_u16_le(b, i),
            value: read_double_bits(b, i + 2),
            unit: read_u16_le(b, i + 10),
            unit_multiplier: read_i16_le(b, i + 12),
            decimals: read_i16_le(b, i + 14),
            display_digits: read_i16_le(b, i + 16),
            state: read_u16_le(b, i + 18),
            attribute: read_u16_le(b, i + 20),
            ts: read_double_bits(b, i + 22),
        }
    }
}

/// Decodes `n` readings stored back to back from `start`.
pub fn read_readings(b: &[u8], start: usize, n: u16) -> (r: Vec<RawReading>)
    requires
        start + READING_LEN * n <= b@.len(),
    ensures
        r@ == readings_at(b@, start as int, n as int),
{
    let mut out: Vec<RawReading> = Vec::new();
    let mut k: u16 = 0;
    let mut off: usize = start;
    let len = b.len();
    while k < n
        invariant
            len == b@.len(),
            k <= n,
            start + READING_LEN * n <= b@.len(),
            off == start + READING_LEN * k,
            out@ =~= readings_at(b@, start as int, k as int),
        decreases n - k,
    {
        let reading = RawReading::parse_at(b, off);
        out.push(reading);
        k = k + 1;
        off = off + READING_LEN;
    }
    out
}

/// Length probe shared by the named record kinds.
fn probe_named(buf: &[u8], header_end: usize) -> (r: Option<usize>)
    requires
        header_end >= 2,
        header_end + READING_LEN * 65535 <= usize::MAX,
    ensures
        match r {
            Some(n) => named_frame_len(buf@, header_end as int, n as int),
            None => named_frame_incomplete(buf@, header_end as int),
        },
{
    if buf.len() >= header_end {
        let readings = read_u16_le(buf, header_end - 2);
        let total = header_end + READING_LEN * readings as usize;
        if buf.len() > total {
            match find_cr(buf, total) {
                Some(idx) => {
                    return Some(idx + EOL_LEN);
                },
                None => {},
            }
        }
    }
    None
}

/// Reads the name that follows the readings of a named record.
pub fn read_saved_name(b: &[u8], header_end: usize) -> (r: Option<(String, usize)>)
    requires
        header_end >= 2,
        readings_end(b@, header_end as int) <= b@.len(),
    ensures
        match r {
            Some((name, cr)) => first_cr(b@, readings_end(b@, header_end as int), cr as int)
                && name@ == name_at(b@, header_end as int, cr as int),
            None => no_cr_from(b@, readings_end(b@, header_end as int)),
        },
{
    let _n = b.len();
    let total = header_end + READING_LEN * read_u16_le(b, header_end - 2) as usize;
    match find_cr(b, total) {
        Some(cr) => {
            let name = lossy_utf8(&b[total..cr]);
            Some((name, cr))
        },
        None => None,
    }
}

/// The live measurement record, without a name.
#[derive(Debug, Clone)]
pub struct RawMeasurement {
    pub pri_function: u16,
    pub sec_function: u16,
    pub auto_range: u16,
    pub unit: u16,
    /// Bit pattern of the range maximum.
    pub range_max: u64,
    pub unit_multiplier: i16,
    pub bolt: u16,
    /// Bit pattern of the device clock time; zero when the device has none.
    pub ts: u64,
    pub modes: u16,
    pub un1: u16,
    pub readings: Vec<RawReading>,
}

pub open spec fn measurement_header_end() -> int {
    (BIN_MARKER_LEN + MEA_METADATA_LEN) as int
}

/// `n` is the length of the live measurement record at the start of `b`:
/// header, readings and one closing byte.
pub open spec fn measurement_frame_len(b: Seq<u8>, n: int) -> bool {
    b.len() >= measurement_header_end() && n == readings_end(b, measurement_header_end()) + EOL_LEN
        && b.len() >= n
}

/// `m` holds the fields of the live measurement record `b`.
#[verifier::opaque]
pub open spec fn is_measurement_of(m: RawMeasurement, b: Seq<u8>) -> bool {
    &&& m.pri_function == u16_le(b, 2)
    &&& m.sec_function == u16_le(b, 4)
    &&& m.auto_range == u16_le(b, 6)
    &&& m.unit == u16_le(b, 8)
    &&& m.range_max == double_bits(b, 10)
    &&& m.unit_multiplier == i16_le(b, 18)
    &&& m.bolt == u16_le(b, 20)
    &&& m.ts == double_bits(b, 22)
    &&& m.modes == u16_le(b, 30)
    &&& m.un1 == u16_le(b, 32)
    &&& m.readings@ == readings_at(b, 36, u16_le(b, 34) as int)
}

/// The outcome of decoding a fixed-header record: too short, wrong marker,
/// or decoded by `ok`.
pub open spec fn fixed_parse_result<T>(
    b: Seq<u8>,
    header_end: int,
    r: Result<T, DecodeError>,
    ok: spec_fn(T) -> bool,
) -> bool {
    if b.len() < header_end {
        r == Err::<T, DecodeError>(DecodeError::Truncated)
    } else if !has_marker(b) {
        r == Err::<T, DecodeError>(DecodeError::BadMarker)
    } else if b.len() < readings_end(b, header_end) {
        r == Err::<T, DecodeError>(DecodeError::Truncated)
    } else {
        r is Ok && ok(r->Ok_0)
    }
}

/// The outcome of decoding a named record: as for a fixed-header record, and
/// also too short while no carriage return follows the readings.
pub open spec fn named_parse_result<T>(
    b: Seq<u8>,
    header_end: int,
    r: Result<T, DecodeError>,
    ok: spec_fn(T, int) -> bool,
) -> bool {
    if b.len() < header_end {
        r == Err::<T, DecodeError>(DecodeError::Truncated)
    } else if !has_marker(b) {
        r == Err::<T, DecodeError>(DecodeError::BadMarker)
    } else if b.len() < readings_end(b, header_end) || no_cr_from(b, readings_end(b, header_end)) {
        r == Err::<T, DecodeError>(DecodeError::Truncated)
    } else {
        r is Ok && exists|cr: int| first_cr(b, readings_end(b, header_end), cr) && ok(r->Ok_0, cr)
    }
}

fn marker_ok(b: &[u8]) -> (r: bool)
    requires
        b@.len() >= 2,
    ensures
        r == has_marker(b@),
{
    b[0] == 35 && b[1] == 48
}

impl RawMeasurement {
    /// Length probe: the length of the record at the start of `buf` once
    /// enough bytes are there to tell it.
    pub fn can_parse(buf: &[u8]) -> (r: Option<usize>)
        ensures
            match r {
                Some(n) => measurement_frame_len(buf@, n as int),
                None => !exists|n: int| measurement_frame_len(buf@, n),
            },
    {
        let header_end = BIN_MARKER_LEN + MEA_METADATA_LEN;
        if buf.len() >= header_end {
            let readings = read_u16_le(buf, header_end - 2);
            let total = header_end + READING_LEN * readings as usize + EOL_LEN;
            if buf.len() >= total {
                return Some(total);
            }
        }
        None
    }

    /// Decodes a live measurement record.
    pub fn parse(value: &[u8]) -> (r: Result<RawMeasurement, DecodeError>)
        ensures
            fixed_parse_result(
                value@,
                measurement_header_end(),
                r,
                |m: RawMeasurement| is_measurement_of(m, value@),
            ),
    {
        reveal(is_measurement_of);
        if value.len() < BIN_MARKER_LEN + MEA_METADATA_LEN {
            return Err(DecodeError::Truncated);
        }
        if !marker_ok(value) {
            return Err(DecodeError::BadMarker);
        }
        let count = read_u16_le(value, 34);
        if value.len() < 36 + READING_LEN * count as usize {
            return Err(DecodeError::Truncated);
        }
        let m = RawMeasurement {
            pri_function: read_u16_le(value, 2),
            sec_function: read_u16_le(value, 4),
            auto_range: read_u16_le(value, 6),
            unit: read_u16_le(value, 8),
            range_max: read_double_bits(value, 10),
            unit_multiplier: read_i16_le(value, 18),
            bolt: read_u16_le(value, 20),
            ts: read_double_bits(value, 22),
            modes: read_u16_le(value, 30),
            un1: read_u16_le(value, 32),
            readings: read_readings(value, 36, count),
        };
        Ok(m)
    }
}


/// A saved measurement: header of 38 bytes, readings and a name.
#[derive(Debug, Clone)]
pub struct RawSavedMeasurement {
    pub seq_no: u16,
    pub un1: u16,
    pub pri_function: u16,
    pub sec_function: u16,
    pub auto_range: u16,
    pub unit: u16,
    /// Bit pattern of the range maximum.
    pub range_max: u64,
    pub unit_multiplier: i16,
    pub bolt: u16,
    pub un2: u16,
    pub un3: u16,
    pub un4: u16,
    pub un5: u16,
    pub modes: u16,
    pub un6: u16,
    pub readings: Vec<RawReading>,
    pub name: String,
}

pub open spec fn saved_measurement_header_end() -> int {
    (BIN_MARKER_LEN + SAVED_MEA_METADATA_LEN) as int
}

/// `m` holds the fields of the saved measurement record `b`, whose name ends
/// at the carriage return at `cr`.
#[verifier::opaque]
pub open spec fn is_saved_measurement_of(m: RawSavedMeasurement, b: Seq<u8>, cr: int) -> bool {
    &&& m.seq_no == u16_le(b, 2)
    &&& m.un1 == u16_le(b, 4)
    &&& m.pri_function == u16_le(b, 6)
    &&& m.sec_function == u16_le(b, 8)
    &&& m.auto_range == u16_le(b, 10)
    &&& m.unit == u16_le(b, 12)
    &&& m.range_max == double_bits(b, 14)
    &&& m.unit_multiplier == i16_le(b, 22)
    &&& m.bolt == u16_le(b, 24)
    &&& m.un2 == u16_le(b, 26)
    &&& m.un3 == u16_le(b, 28)
    &&& m.un4 == u16_le(b, 30)
    &&& m.un5 == u16_le(b, 32)
    &&& m.modes == u16_le(b, 34)
    &&& m.un6 == u16_le(b, 36)
    &&& m.readings@ == readings_at(b, 40, u16_le(b, 38) as int)
    &&& m.name@ == name_at(b, 40, cr)
}

impl RawSavedMeasurement {
    /// Length probe: the length of the record at the start of `buf`, name
    /// and carriage return included, once enough bytes are there to tell it.
    pub fn can_parse(buf: &[u8]) -> (r: Option<usize>)
        ensures
            match r {
                Some(n) => named_frame_len(buf@, saved_measurement_header_end(), n as int),
                None => named_frame_incomplete(buf@, saved_measurement_header_end()),
            },
    {
        probe_named(buf, BIN_MARKER_LEN + SAVED_MEA_METADATA_LEN)
    }

    /// Decodes a saved measurement record.
    pub fn parse(value: &[u8]) -> (r: Result<RawSavedMeasurement, DecodeError>)
        ensures
            named_parse_result(
                value@,
                saved_measurement_header_end(),
                r,
                |m: RawSavedMeasurement, cr: int| is_saved_measurement_of(m, value@, cr),
            ),
    {
        if value.len() < 40 {
            return Err(DecodeError::Truncated);
        }
        if !marker_ok(value) {
            return Err(DecodeError::BadMarker);
        }
        let count = read_u16_le(value, 38);
        if value.len() < 40 + READING_LEN * count as usize {
            return Err(DecodeError::Truncated);
        }
        let (name, cr) = match read_saved_name(value, 40) {
            Some(found) => found,
            None => {
                return Err(DecodeError::Truncated);
            },
        };
        let m = RawSavedMeasurement {
            seq_no: read_u16_le(value, 2),
            un1: read_u16_le(value, 4),
            pri_function: read_u16_le(value, 6),
            sec_function: read_u16_le(value, 8),
            auto_range: read_u16_le(value, 10),
            unit: read_u16_le(value, 12),
            range_max: read_double_bits(value, 14),
            unit_multiplier: read_i16_le(value, 22),
            bolt: read_u16_le(value, 24),
            un2: read_u16_le(value, 26),
            un3: read_u16_le(value, 28),
            un4: read_u16_le(value, 30),
            un5: read_u16_le(value, 32),
            modes: read_u16_le(value, 34),
            un6: read_u16_le(value, 36),
            readings: read_readings(value, 40, count),
            name,
        };
        assert(is_saved_measurement_of(m, value@, cr as int)) by {
            reveal(is_saved_measurement_of);
        }
        Ok(m)
    }
}

/// A saved min/max or peak session: header of 54 bytes, readings and a
/// name.
#[derive(Debug, Clone)]
pub struct RawSavedMinMaxMeasurement {
    pub seq_no: u16,
    pub un1: u16,
    /// Bit pattern of the first time stamp.
    pub ts1: u64,
    /// Bit pattern of the second time stamp.
    pub ts2: u64,
    pub pri_function: u16,
    pub sec_function: u16,
    pub auto_range: u16,
    pub unit: u16,
    /// Bit pattern of the range maximum.
    pub range_max: u64,
    pub unit_multiplier: i16,
    pub bolt: u16,
    /// Bit pattern of the third time stamp.
    pub ts3: u64,
    pub modes: u16,
    pub un2: u16,
    pub readings: Vec<RawReading>,
    pub name: String,
}

/// A saved peak session has the layout of a min/max session.
pub type RawSavedPeakMeasurement = RawSavedMinMaxMeasurement;

pub open spec fn saved_minmax_header_end() -> int {
    (BIN_MARKER_LEN + SAVED_MINMAX_METADATA_LEN) as int
}

/// `m` holds the fields of the min/max (or peak) record `b`, whose name
/// ends at the carriage return at `cr`.
#[verifier::opaque]
pub open spec fn is_saved_minmax_of(m: RawSavedMinMaxMeasurement, b: Seq<u8>, cr: int) -> bool {
    &&& m.seq_no == u16_le(b, 2)
    &&& m.un1 == u16_le(b, 4)
    &&& m.ts1 == double_bits(b, 6)
    &&& m.ts2 == double_bits(b, 14)
    &&& m.pri_function == u16_le(b, 22)
    &&& m.sec_function == u16_le(b, 24)
    &&& m.auto_range == u16_le(b, 26)
    &&& m.unit == u16_le(b, 28)
    &&& m.range_max == double_bits(b, 30)
    &&& m.unit_multiplier == i16_le(b, 38)
    &&& m.bolt == u16_le(b, 40)
    &&& m.ts3 == double_bits(b, 42)
    &&& m.modes == u16_le(b, 50)
    &&& m.un2 == u16_le(b, 52)
    &&& m.readings@ == readings_at(b, 56, u16_le(b, 54) as int)
    &&& m.name@ == name_at(b, 56, cr)
}

impl RawSavedMinMaxMeasurement {
    /// Length probe: the length of the record at the start of `buf`, name
    /// and carriage return included, once enough bytes are there to tell it.
    pub fn can_parse(buf: &[u8]) -> (r: Option<usize>)
        ensures
            match r {
                Some(n) => named_frame_len(buf@, saved_minmax_header_end(), n as int),
                None => named_frame_incomplete(buf@, saved_minmax_header_end()),
            },
    {
        probe_named(buf, BIN_MARKER_LEN + SAVED_MINMAX_METADATA_LEN)
    }

    /// Decodes a min/max or peak record.
    pub fn parse(value: &[u8]) -> (r: Result<RawSavedMinMaxMeasurement, DecodeError>)
        ensures
            named_parse_result(
                value@,
                saved_minmax_header_end(),
                r,
                |m: RawSavedMinMaxMeasurement, cr: int| is_saved_minmax_of(m, value@, cr),
            ),
    {
        if value.len() < 56 {
            return Err(DecodeError::Truncated);
        }
        if !marker_ok(value) {
            return Err(DecodeError::BadMarker);
        }
        let count = read_u16_le(value, 54);
        if value.len() < 56 + READING_LEN * count as usize {
            return Err(DecodeError::Truncated);
        }
        let (name, cr) = match read_saved_name(value, 56) {
            Some(found) => found,
            None => {
                return Err(DecodeError::Truncated);
            },
        };
        let m = RawSavedMinMaxMeasurement {
            seq_no: read_u16_le(value, 2),
            un1: read_u16_le(value, 4),
            ts1: read_double_bits(value, 6),
            ts2: read_double_bits(value, 14),
            pri_function: read_u16_le(value, 22),
            sec_function: read_u16_le(value, 24),
            auto_range: read_u16_le(value, 26),
            unit: read_u16_le(value, 28),
            range_max: read_double_bits(value, 30),
            unit_multiplier: read_i16_le(value, 38),
            bolt: read_u16_le(value, 40),
            ts3: read_double_bits(value, 42),
            modes: read_u16_le(value, 50),
            un2: read_u16_le(value, 52),
            readings: read_readings(value, 56, count),
            name,
        };
        assert(is_saved_minmax_of(m, value@, cr as int)) by {
            reveal(is_saved_minmax_of);
        }
        Ok(m)
    }
}

/// A saved recording session: header of 78 bytes, readings and a name. Its
/// reading index and sample count address the session's samples.
#[derive(Debug, Clone)]
pub struct RawSavedRecordingSessionInfo {
    pub seq_no: u16,
    pub un1: u16,
    /// Bit pattern of the start time.
    pub start_ts: u64,
    /// Bit pattern of the end time.
    pub end_ts: u64,
    /// Bit pattern of the sample interval.
    pub sample_interval: u64,
    /// Bit pattern of the event threshold.
    pub event_threshold: u64,
    pub reading_index: u16,
    pub un2: u16,
    pub num_samples: u16,
    pub un3: u16,
    pub pri_function: u16,
    pub sec_function: u16,
    pub auto_range: u16,
    pub unit: u16,
    /// Bit pattern of the range maximum.
    pub range_max: u64,
    pub unit_multiplier: i16,
    pub bolt: u16,
    pub un4: u16,
    pub un5: u16,
    pub un6: u16,
    pub un7: u16,
    pub modes: u16,
    pub un8: u16,
    pub readings: Vec<RawReading>,
    pub name: String,
}

pub open spec fn saved_recording_header_end() -> int {
    (BIN_MARKER_LEN + SAVED_RECORDING_METADATA_LEN) as int
}

/// `m` holds the fields of the recording session record `b`, whose name
/// ends at the carriage return at `cr`.
#[verifier::opaque]
pub open spec fn is_saved_recording_of(m: RawSavedRecordingSessionInfo, b: Seq<u8>, cr: int) -> bool {
    &&& m.seq_no == u16_le(b, 2)
    &&& m.un1 == u16_le(b, 4)
    &&& m.start_ts == double_bits(b, 6)
    &&& m.end_ts == double_bits(b, 14)
    &&& m.sample_interval == double_bits(b, 22)
    &&& m.event_threshold == double_bits(b, 30)
    &&& m.reading_index == u16_le(b, 38)
    &&& m.un2 == u16_le(b, 40)
    &&& m.num_samples == u16_le(b, 42)
    &&& m.un3 == u16_le(b, 44)
    &&& m.pri_function == u16_le(b, 46)
    &&& m.sec_function == u16_le(b, 48)
    &&& m.auto_range == u16_le(b, 50)
    &&& m.unit == u16_le(b, 52)
    &&& m.range_max == double_bits(b, 54)
    &&& m.unit_multiplier == i16_le(b, 62)
    &&& m.bolt == u16_le(b, 64)
    &&& m.un4 == u16_le(b, 66)
    &&& m.un5 == u16_le(b, 68)
    &&& m.un6 == u16_le(b, 70)
    &&& m.un7 == u16_le(b, 72)
    &&& m.modes == u16_le(b, 74)
    &&& m.un8 == u16_le(b, 76)
    &&& m.readings@ == readings_at(b, 80, u16_le(b, 78) as int)
    &&& m.name@ == name_at(b, 80, cr)
}

impl RawSavedRecordingSessionInfo {
    /// Length probe: the length of the record at the start of `buf`, name
    /// and carriage return included, once enough bytes are there to tell it.
    pub fn can_parse(buf: &[u8]) -> (r: Option<usize>)
        ensures
            match r {
                Some(n) => named_frame_len(buf@, saved_recording_header_end(), n as int),
                None => named_frame_incomplete(buf@, saved_recording_header_end()),
            },
    {
        probe_named(buf, BIN_MARKER_LEN + SAVED_RECORDING_METADATA_LEN)
    }

    /// Decodes a recording session record.
    pub fn parse(value: &[u8]) -> (r: Result<RawSavedRecordingSessionInfo, DecodeError>)
        ensures
            named_parse_result(
                value@,
                saved_recording_header_end(),
                r,
                |m: RawSavedRecordingSessionInfo, cr: int| is_saved_recording_of(m, value@, cr),
            ),
    {
        if value.len() < 80 {
            return Err(DecodeError::Truncated);
        }
        if !marker_ok(value) {
            return Err(DecodeError::BadMarker);
        }
        let count = read_u16_le(value, 78);
        if value.len() < 80 + READING_LEN * count as usize {
            return Err(DecodeError::Truncated);
        }
        let (name, cr) = match read_saved_name(value, 80) {
            Some(found) => found,
            None => {
                return Err(DecodeError::Truncated);
            },
        };
        let m = RawSavedRecordingSessionInfo {
            seq_no: read_u16_le(value, 2),
            un1: read_u16_le(value, 4),
            start_ts: read_double_bits(value, 6),
            end_ts: read_double_bits(value, 14),
            sample_interval: read_double_bits(value, 22),
            event_threshold: read_double_bits(value, 30),
            reading_index: read_u16_le(value, 38),
            un2: read_u16_le(value, 40),
            num_samples: read_u16_le(value, 42),
            un3: read_u16_le(value, 44),
            pri_function: read_u16_le(value, 46),
            sec_function: read_u16_le(value, 48),
            auto_range: read_u16_le(value, 50),
            unit: read_u16_le(value, 52),
            range_max: read_double_bits(value, 54),
            unit_multiplier: read_i16_le(value, 62),
            bolt: read_u16_le(value, 64),
            un4: read_u16_le(value, 66),
            un5: read_u16_le(value, 68),
            un6: read_u16_le(value, 70),
            un7: read_u16_le(value, 72),
            modes: read_u16_le(value, 74),
            un8: read_u16_le(value, 76),
            readings: read_readings(value, 80, count),
            name,
        };
        assert(is_saved_recording_of(m, value@, cr as int)) by {
            reveal(is_saved_recording_of);
        }
        Ok(m)
    }
}

/// One page of a recording session's samples: a fixed 149-byte frame.
#[derive(Debug, Clone, Copy)]
pub struct RawSessionRecordReadings {
    /// Bit pattern of the start time.
    pub start_ts: u64,
    /// Bit pattern of the end time.
    pub end_ts: u64,
    /// Maximum, minimum and running sum of the span.
    pub span_readings: [RawReading; 3],
    /// Count of samples accumulated in this page.
    pub sampling: u16,
    pub un2: u16,
    pub fixed_reading: RawReading,
    pub record_type: u16,
    pub stable: u16,
    pub transient_state: u16,
}

/// Length of a session record readings frame, marker and closing byte
/// included.
pub open spec fn session_readings_frame_len() -> int {
    (BIN_MARKER_LEN + SAVED_RECORD_READINGS_LEN + EOL_LEN) as int
}

/// `m` holds the fields of the session record readings frame `b`.
#[verifier::opaque]
pub open spec fn is_session_readings_of(m: RawSessionRecordReadings, b: Seq<u8>) -> bool {
    &&& m.start_ts == double_bits(b, 2)
    &&& m.end_ts == double_bits(b, 10)
    &&& m.span_readings@ == readings_at(b, 18, 3)
    &&& m.sampling == u16_le(b, 108)
    &&& m.un2 == u16_le(b, 110)
    &&& m.fixed_reading == reading_at(b, 112)
    &&& m.record_type == u16_le(b, 142)
    &&& m.stable == u16_le(b, 144)
    &&& m.transient_state == u16_le(b, 146)
}

impl RawSessionRecordReadings {
    /// Length probe: the frame has a fixed length, known once it has all
    /// arrived.
    pub fn can_parse(buf: &[u8]) -> (r: Option<usize>)
        ensures
            r == (if buf@.len() >= session_readings_frame_len() {
                Some(session_readings_frame_len() as usize)
            } else {
                None
            }),
    {
        let total = BIN_MARKER_LEN + SAVED_RECORD_READINGS_LEN + EOL_LEN;
        if buf.len() >= total {
            Some(total)
        } else {
            None
        }
    }

    /// Decodes a session record readings frame; its closing byte is not
    /// needed.
    pub fn parse(value: &[u8]) -> (r: Result<RawSessionRecordReadings, DecodeError>)
        ensures
            value@.len() < 148 ==> r == Err::<RawSessionRecordReadings, DecodeError>(
                DecodeError::Truncated,
            ),
            value@.len() >= 148 && !has_marker(value@) ==> r == Err::<
                RawSessionRecordReadings,
                DecodeError,
            >(DecodeError::BadMarker),
            value@.len() >= 148 && has_marker(value@) ==> r is Ok && is_session_readings_of(
                r->Ok_0,
                value@,
            ),
    {
        reveal(is_session_readings_of);
        if value.len() < 148 {
            return Err(DecodeError::Truncated);
        }
        if !marker_ok(value) {
            return Err(DecodeError::BadMarker);
        }
        let span = [
            RawReading::parse_at(value, 18),
            RawReading::parse_at(value, 48),
            RawReading::parse_at(value, 78),
        ];
        assert(span@ =~= readings_at(value@, 18, 3));
        Ok(
            RawSessionRecordReadings {
                start_ts: read_double_bits(value, 2),
                end_ts: read_double_bits(value, 10),
                span_readings: span,
                sampling: read_u16_le(value, 108),
                un2: read_u16_le(value, 110),
                fixed_reading: RawReading::parse_at(value, 112),
                record_type: read_u16_le(value, 142),
                stable: read_u16_le(value, 144),
                transient_state: read_u16_le(value, 146),
            },
        )
    }
}

} // verus!
