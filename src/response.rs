//! Responses of the device and the decoders of their ASCII payloads.
use vstd::prelude::*;
use vstd::utf8::{decode_utf8, valid_utf8};

use std::collections::HashMap;

use crate::command::{DateFormat, DezibelReference, DigitCount, Language, NumericFormat, TimeFormat};
use crate::error::DecodeError;
use crate::rawmea::{
    RawMeasurement, RawSavedMeasurement, RawSavedMinMaxMeasurement, RawSavedPeakMeasurement,
    RawSavedRecordingSessionInfo, RawSessionRecordReadings,
};
use crate::text::{convert_string, parse_unsigned, split_commas, split_fields, unsigned_text, views_of};

verus! {

broadcast use vstd::std_specs::hash::group_hash_axioms;

/// A value map: numeric code to symbolic name.
pub type ValueMap = HashMap<u16, String>;

/// One decoded frame: the status digit and, for success, the payload that
/// the outstanding command implied.
#[derive(Debug, Clone)]
pub enum Response {
    /// Status `0`.
    Success(Option<ResponsePayload>),
    /// Status `1`.
    SyntaxError,
    /// Status `2`.
    ExecutionError,
    /// Status `5`.
    NoData,
}

/// The payload of a successful response. Durations are whole seconds.
#[derive(Debug, Clone)]
pub enum ResponsePayload {
    Id(Ident),
    ValueMap(ValueMap),
    BacklightTimeout(u64),
    DevicePowerOff(u64),
    Operator(String),
    Company(String),
    Site(String),
    Contact(String),
    Clock(u64),
    Beeper(bool),
    Smoothing(bool),
    SaveName(String),
    MemoryStat(MemoryStat),
    MeasurementBinary(RawMeasurement),
    SavedMeasurement(RawSavedMeasurement),
    MinMaxSessionInfo(RawSavedMinMaxMeasurement),
    PeakSessionInfo(RawSavedPeakMeasurement),
    RecordedSessionInfo(RawSavedRecordingSessionInfo),
    SessionRecordReading(RawSessionRecordReadings),
    CustomDbm(u16),
    DigitCount(DigitCount),
    AutoHoldEventThreshold(u8),
    RecordingEventThreshold(u8),
    Language(Language),
    DateFormat(DateFormat),
    TimeFormat(TimeFormat),
    NumericFormat(NumericFormat),
    DbmRef(DezibelReference),
    TempOffset(i16),
}

/// Identification of the device.
#[derive(Debug, Clone)]
pub struct Ident {
    pub model: String,
    pub firmware: String,
    pub serial: String,
}

/// How many records of each kind the device's memory holds.
#[derive(Debug, Clone, Copy, PartialEq, Eq, Structural)]
pub struct MemoryStat {
    pub recordings: usize,
    pub min_max: usize,
    pub peak: usize,
    pub measurement: usize,
}

/// `id` holds the three comma-separated fields of `text`.
pub open spec fn is_ident_of(id: Ident, text: Seq<char>) -> bool {
    let f = split_commas(text);
    &&& f.len() == 3
    &&& id.model@ == f[0]
    &&& id.firmware@ == f[1]
    &&& id.serial@ == f[2]
}

/// What an identification payload decodes to.
pub open spec fn ident_result(line: Seq<u8>, r: Result<Ident, DecodeError>) -> bool {
    if !valid_utf8(line) {
        r == Err::<Ident, DecodeError>(DecodeError::InvalidUtf8)
    } else if split_commas(decode_utf8(line)).len() != 3 {
        r == Err::<Ident, DecodeError>(DecodeError::InvalidIdent)
    } else {
        r is Ok && is_ident_of(r->Ok_0, decode_utf8(line))
    }
}

/// What a memory statistics payload decodes to: four comma-separated
/// counts.
pub open spec fn memory_stat_of(line: Seq<u8>) -> Result<MemoryStat, DecodeError> {
    if !valid_utf8(line) {
        Err(DecodeError::InvalidUtf8)
    } else {
        let f = split_commas(decode_utf8(line));
        if f.len() != 4 {
            Err(DecodeError::InvalidMemoryStat)
        } else if unsigned_text(f[0], usize::MAX as int) is None || unsigned_text(
            f[1],
            usize::MAX as int,
        ) is None || unsigned_text(f[2], usize::MAX as int) is None || unsigned_text(
            f[3],
            usize::MAX as int,
        ) is None {
            Err(DecodeError::InvalidNumber)
        } else {
            Ok(
                MemoryStat {
                    recordings: unsigned_text(f[0], usize::MAX as int)->Some_0 as usize,
                    min_max: unsigned_text(f[1], usize::MAX as int)->Some_0 as usize,
                    peak: unsigned_text(f[2], usize::MAX as int)->Some_0 as usize,
                    measurement: unsigned_text(f[3], usize::MAX as int)->Some_0 as usize,
                },
            )
        }
    }
}

fn parse_usize(s: &String) -> (r: Result<usize, DecodeError>)
    ensures
        match r {
            Ok(v) => unsigned_text(s@, usize::MAX as int) == Some(v as int),
            Err(e) => e == DecodeError::InvalidNumber && unsigned_text(
                s@,
                usize::MAX as int,
            ) is None,
        },
{
    match parse_unsigned(s.as_str(), usize::MAX as u64) {
        Some(v) => Ok(v as usize),
        None => Err(DecodeError::InvalidNumber),
    }
}

impl Ident {
    /// Decodes an identification payload: model, firmware and serial
    /// number, separated by commas.
    pub fn from_payload(payload: &[u8]) -> (r: Result<Ident, DecodeError>)
        ensures
            ident_result(payload@, r),
    {
        let text = match convert_string(payload) {
            Some(t) => t,
            None => {
                return Err(DecodeError::InvalidUtf8);
            },
        };
        let mut fields = split_fields(text.as_str());
        if fields.len() != 3 {
            return Err(DecodeError::InvalidIdent);
        }
        assert(fields@[2]@ == views_of(fields@)[2]);
        assert(fields@[1]@ == views_of(fields@)[1]);
        assert(fields@[0]@ == views_of(fields@)[0]);
        let serial = fields.pop().unwrap();
        let firmware = fields.pop().unwrap();
        let model = fields.pop().unwrap();
        Ok(Ident { model, firmware, serial })
    }
}

impl MemoryStat {
    /// Decodes a memory statistics payload: the counts of recordings, min/max
    /// sessions, peak sessions and measurements.
    pub fn from_payload(payload: &[u8]) -> (r: Result<MemoryStat, DecodeError>)
        ensures
            r == memory_stat_of(payload@),
    {
        let text = match convert_string(payload) {
            Some(t) => t,
            None => {
                return Err(DecodeError::InvalidUtf8);
            },
        };
        let fields = split_fields(text.as_str());
        if fields.len() != 4 {
            return Err(DecodeError::InvalidMemoryStat);
        }
        assert(fields@[0]@ == views_of(fields@)[0]);
        assert(fields@[1]@ == views_of(fields@)[1]);
        assert(fields@[2]@ == views_of(fields@)[2]);
        assert(fields@[3]@ == views_of(fields@)[3]);
        let recordings = parse_usize(&fields[0]);
        let min_max = parse_usize(&fields[1]);
        let peak = parse_usize(&fields[2]);
        let measurement = parse_usize(&fields[3]);
        match (recordings, min_max, peak, measurement) {
            (Ok(recordings), Ok(min_max), Ok(peak), Ok(measurement)) => Ok(
                MemoryStat { recordings, min_max, peak, measurement },
            ),
            _ => Err(DecodeError::InvalidNumber),
        }
    }
}

/// Number of code/name pairs after the leading count; an odd field left
/// over is ignored.
pub open spec fn pair_count(f: Seq<Seq<char>>) -> int {
    (f.len() - 1) / 2
}

/// The code of pair `i`.
pub open spec fn pair_code(f: Seq<Seq<char>>, i: int) -> Option<int> {
    unsigned_text(f[1 + 2 * i], 65535)
}

/// Every one of the first `k` pairs has a valid code.
pub open spec fn codes_valid(f: Seq<Seq<char>>, k: int) -> bool {
    forall|i: int| 0 <= i < k ==> (#[trigger] pair_code(f, i)) is Some
}

/// The table that the first `k` pairs give, later pairs overriding earlier
/// ones.
pub open spec fn table_of(f: Seq<Seq<char>>, k: int) -> Map<u16, Seq<char>>
    decreases k,
{
    if k <= 0 {
        Map::empty()
    } else {
        table_of(f, k - 1).insert(pair_code(f, k - 1)->Some_0 as u16, f[2 * k])
    }
}

/// `m` holds exactly the codes of `t`, each with its name.
pub open spec fn table_matches(m: ValueMap, t: Map<u16, Seq<char>>) -> bool {
    &&& m@.dom() == t.dom()
    &&& forall|c: u16| #[trigger] t.contains_key(c) ==> m@[c]@ == t[c]
}

/// What a map-table payload `<count>,<code>,<name>,...` decodes to; the
/// leading count must equal the number of entries.
pub open spec fn map_table_result(line: Seq<u8>, r: Result<ValueMap, DecodeError>) -> bool {
    if !valid_utf8(line) {
        r == Err::<ValueMap, DecodeError>(DecodeError::InvalidUtf8)
    } else {
        let f = split_commas(decode_utf8(line));
        let count = unsigned_text(f[0], usize::MAX as int);
        let t = table_of(f, pair_count(f));
        if count is None || !codes_valid(f, pair_count(f)) {
            r == Err::<ValueMap, DecodeError>(DecodeError::InvalidNumber)
        } else if count->Some_0 != t.dom().len() {
            r == Err::<ValueMap, DecodeError>(DecodeError::MapCountMismatch)
        } else {
            r is Ok && table_matches(r->Ok_0, t)
        }
    }
}

proof fn lemma_table_finite(f: Seq<Seq<char>>, k: int)
    ensures
        table_of(f, k).dom().finite(),
    decreases k,
{
    if k > 0 {
        lemma_table_finite(f, k - 1);
    }
}

/// Decodes a map-table payload into a value map.
pub fn parse_value_map(payload: &[u8]) -> (r: Result<ValueMap, DecodeError>)
    ensures
        map_table_result(payload@, r),
{
    let text = match convert_string(payload) {
        Some(t) => t,
        None => {
            return Err(DecodeError::InvalidUtf8);
        },
    };
    let fields = split_fields(text.as_str());
    let ghost f = split_commas(text@);
    proof {
        crate::text::lemma_split_commas_nonempty(text@);
    }
    assert(fields@.len() == f.len());
    assert(fields@[0]@ == f[0]);
    let count = match parse_usize(&fields[0]) {
        Ok(c) => c,
        Err(e) => {
            return Err(e);
        },
    };
    let flen = fields.len();
    let pairs = (flen - 1) / 2;
    let mut map: ValueMap = HashMap::new();
    let mut i: usize = 0;
    while i < pairs
        invariant
            valid_utf8(payload@),
            f == split_commas(decode_utf8(payload@)),
            unsigned_text(f[0], usize::MAX as int) == Some(count as int),
            views_of(fields@) == f,
            fields@.len() == f.len(),
            flen == fields@.len(),
            f.len() >= 1,
            pairs == pair_count(f),
            i <= pairs,
            codes_valid(f, i as int),
            table_matches(map, table_of(f, i as int)),
        decreases pairs - i,
    {
        assert(2 + 2 * i <= f.len() - 1) by {
            assert(2 * pairs <= f.len() - 1);
        }
        let ci = 1 + 2 * i;
        let ni = ci + 1;
        assert(fields@[ci as int]@ == f[1 + 2 * i]);
        assert(fields@[ni as int]@ == f[2 + 2 * i]);
        let code = match parse_unsigned(fields[ci].as_str(), 65535) {
            Some(c) => c as u16,
            None => {
                assert(!codes_valid(f, pairs as int)) by {
                    assert(pair_code(f, i as int) is None);
                }
                return Err(DecodeError::InvalidNumber);
            },
        };
        let name = fields[ni].clone();
        map.insert(code, name);
        proof {
            assert forall|j: int| 0 <= j < i + 1 implies (#[trigger] pair_code(f, j)) is Some by {
                if j < i {
                    assert(codes_valid(f, i as int));
                }
            }
            let t = table_of(f, i + 1);
            assert(t == table_of(f, i as int).insert(code, f[2 * (i + 1)]));
            assert(map@.dom() =~= t.dom());
        }
        i = i + 1;
    }
    proof {
        lemma_table_finite(f, pairs as int);
    }
    if count != map.len() {
        return Err(DecodeError::MapCountMismatch);
    }
    Ok(map)
}

/// The map-table payload `line` is well formed but its leading count
/// differs from the number of entries it gives.
pub open spec fn map_count_mismatch(line: Seq<u8>) -> bool {
    let f = split_commas(decode_utf8(line));
    &&& valid_utf8(line)
    &&& unsigned_text(f[0], usize::MAX as int) is Some
    &&& codes_valid(f, pair_count(f))
    &&& unsigned_text(f[0], usize::MAX as int)->Some_0 != table_of(f, pair_count(f)).dom().len()
}

/// A map table is accepted only when its leading count equals the number
/// of entries it holds: one whose count disagrees is rejected.
pub proof fn lemma_map_count_checked(line: Seq<u8>, r: Result<ValueMap, DecodeError>)
    requires
        map_table_result(line, r),
    ensures
        r is Ok ==> valid_utf8(line) && unsigned_text(
            split_commas(decode_utf8(line))[0],
            usize::MAX as int,
        ) == Some(r->Ok_0@.len() as int),
        valid_utf8(line) && unsigned_text(split_commas(decode_utf8(line))[0], usize::MAX as int)
            is Some && codes_valid(
            split_commas(decode_utf8(line)),
            pair_count(split_commas(decode_utf8(line))),
        ) && unsigned_text(split_commas(decode_utf8(line))[0], usize::MAX as int)->Some_0
            != table_of(
            split_commas(decode_utf8(line)),
            pair_count(split_commas(decode_utf8(line))),
        ).dom().len() ==> r == Err::<ValueMap, DecodeError>(DecodeError::MapCountMismatch),
{
    if r is Ok {
        let f = split_commas(decode_utf8(line));
        let t = table_of(f, pair_count(f));
        assert(r->Ok_0@.dom() == t.dom());
    }
}

} // verus!
