//! The framing state machine: commands out as ASCII lines, responses in as
//! frames decoded according to the one outstanding command.
use vstd::prelude::*;

use crate::command::{
    clear_word, command_line, date_format_word, dbm_ref_word, digit_count_word, language_word,
    numeric_format_word, on_off_word, quoted, time_format_word, ClearMemory, Command,
    DateFormat, DezibelReference, DigitCount, Language, NumericFormat, TimeFormat,
};
use crate::error::DecodeError;
use crate::rawmea::{
    fixed_parse_result, is_measurement_of, is_saved_measurement_of, is_saved_minmax_of,
    is_saved_recording_of, is_session_readings_of, has_marker, measurement_frame_len,
    measurement_header_end, named_frame_incomplete, readings_end, named_frame_len, named_parse_result,
    saved_measurement_header_end, saved_minmax_header_end, saved_recording_header_end,
    session_readings_frame_len, RawMeasurement, RawSavedMeasurement, RawSavedMinMaxMeasurement,
    RawSavedRecordingSessionInfo, RawSessionRecordReadings,
};
use crate::response::{
    ident_result, map_count_mismatch, map_table_result, memory_stat_of, parse_value_map, Ident, MemoryStat, Response,
    ResponsePayload,
};
use crate::text::{
    convert_string, parse_i16, parse_unsigned, push_decimal, push_signed, push_str, str_eq,
    strip_string, stripped, unsigned_text, i16_text,
};
use crate::wire::{find_cr, first_cr, no_cr_from, CR};
use vstd::utf8::{decode_utf8, valid_utf8};

verus! {

/// The framing state: which command, if any, awaits its response.
pub struct ProtocolCodec {
    pub last_cmd: Option<Command>,
}

fn clear_text(m: ClearMemory) -> (r: &'static str)
    ensures
        r@ == clear_word(m),
{
    match m {
        ClearMemory::All => "ALL",
        ClearMemory::Measurements => "MEASUREMENT",
        ClearMemory::MinMax => "MIN_MAX",
        ClearMemory::Peak => "PEAK",
        ClearMemory::Recordings => "RECORDED",
    }
}

fn on_off_text(b: bool) -> (r: &'static str)
    ensures
        r@ == on_off_word(b),
{
    if b {
        "ON"
    } else {
        "OFF"
    }
}

fn digit_count_text(d: DigitCount) -> (r: &'static str)
    ensures
        r@ == digit_count_word(d),
{
    match d {
        DigitCount::Digit4 => "4",
        DigitCount::Digit5 => "5",
    }
}

fn language_text(l: Language) -> (r: &'static str)
    ensures
        r@ == language_word(l),
{
    match l {
        Language::German => "GERMAN",
        Language::English => "ENGLISH",
        Language::French => "FRENCH",
        Language::Italian => "ITALIAN",
        Language::Spanish => "SPANISH",
        Language::Japanese => "JAPANESE",
        Language::Chinese => "CHINESE",
    }
}

fn date_format_text(f: DateFormat) -> (r: &'static str)
    ensures
        r@ == date_format_word(f),
{
    match f {
        DateFormat::DD_MM => "DD_MM",
        DateFormat::MM_DD => "MM_DD",
    }
}

fn time_format_text(f: TimeFormat) -> (r: &'static str)
    ensures
        r@ == time_format_word(f),
{
    match f {
        TimeFormat::Time12 => "12",
        TimeFormat::Time24 => "24",
    }
}

fn numeric_format_text(f: NumericFormat) -> (r: &'static str)
    ensures
        r@ == numeric_format_word(f),
{
    match f {
        NumericFormat::Point => "POINT",
        NumericFormat::Comma => "COMMA",
    }
}

fn dbm_ref_text(d: DezibelReference) -> (r: &'static str)
    ensures
        r@ == dbm_ref_word(d),
{
    match d {
        DezibelReference::Ref4 => "4",
        DezibelReference::Ref8 => "8",
        DezibelReference::Ref16 => "16",
        DezibelReference::Ref25 => "25",
        DezibelReference::Ref32 => "32",
        DezibelReference::Ref50 => "50",
        DezibelReference::Ref75 => "75",
        DezibelReference::Ref600 => "600",
        DezibelReference::Ref1000 => "1000",
        DezibelReference::Custom => "0",
    }
}

/// Appends `s` between single quotes.
fn push_quoted(dst: &mut Vec<u8>, s: &str)
    ensures
        final(dst)@ == old(dst)@ + quoted(s@),
{
    push_str(dst, "'");
    push_str(dst, s);
    push_str(dst, "'");
    assert(dst@ =~= old(dst)@ + quoted(s@));
}

/// Appends the command line of `cmd`, without the carriage return.
fn write_command(cmd: &Command, dst: &mut Vec<u8>)
    ensures
        final(dst)@ =~= old(dst)@ + command_line(*cmd),
{
    match cmd {
        Command::Id => push_str(dst, "id"),
        Command::QueryMap(name) => {
            push_str(dst, "qemap ");
            push_str(dst, name.as_str());
        },
        Command::SetBacklightTimeout(secs) => {
            push_str(dst, "mp ablto,");
            push_decimal(dst, *secs);
        },
        Command::GetBacklightTimeout => push_str(dst, "qmp ablto"),
        Command::SetDevicePowerOff(secs) => {
            push_str(dst, "mp apoffto,");
            push_decimal(dst, *secs);
        },
        Command::GetDevicePowerOff => push_str(dst, "qmp apoffto"),
        Command::GetOperator => push_str(dst, "qmpq operator"),
        Command::SetOperator(s) => {
            push_str(dst, "mpq operator,");
            push_quoted(dst, s.as_str());
        },
        Command::GetCompany => push_str(dst, "qmpq company"),
        Command::SetCompany(s) => {
            push_str(dst, "mpq company,");
            push_quoted(dst, s.as_str());
        },
        Command::GetSite => push_str(dst, "qmpq site"),
        Command::SetSite(s) => {
            push_str(dst, "mpq site,");
            push_quoted(dst, s.as_str());
        },
        Command::GetContact => push_str(dst, "qmpq contact"),
        Command::SetContact(s) => {
            push_str(dst, "mpq contact,");
            push_str(dst, s.as_str());
        },
        Command::GetClock => push_str(dst, "qmp clock"),
        Command::SetClock(c) => {
            push_str(dst, "mp clock,");
            push_decimal(dst, *c);
        },
        Command::GetSaveName(slot) => {
            push_str(dst, "qsavname ");
            push_decimal(dst, *slot as u64);
        },
        Command::SetSaveName(slot, name) => {
            push_str(dst, "savname ");
            push_decimal(dst, *slot as u64);
            push_str(dst, ",");
            push_quoted(dst, name.as_str());
        },
        Command::GetMemoryStat => push_str(dst, "qsls"),
        Command::GetMeasurementBinary => push_str(dst, "qddb"),
        Command::QuerySavedMeasurement(i) => {
            push_str(dst, "qsmr ");
            push_decimal(dst, *i as u64);
        },
        Command::QueryMinMaxSessionInfo(i) => {
            push_str(dst, "qmmsi ");
            push_decimal(dst, *i as u64);
        },
        Command::QueryPeakSessionInfo(i) => {
            push_str(dst, "qpsi ");
            push_decimal(dst, *i as u64);
        },
        Command::QueryRecordedSessionInfo(i) => {
            push_str(dst, "qrsi ");
            push_decimal(dst, *i as u64);
        },
        Command::QuerySessionRecordReadings(r, s) => {
            push_str(dst, "qsrr ");
            push_decimal(dst, *r as u64);
            push_str(dst, ",");
            push_decimal(dst, *s as u64);
        },
        Command::Clear(m) => {
            push_str(dst, "csd ");
            push_str(dst, clear_text(*m));
        },
        Command::ResetDevice => push_str(dst, "rmp"),
        Command::GetBeeper => push_str(dst, "qmp beeper"),
        Command::SetBeeper(b) => {
            push_str(dst, "mp beeper,");
            push_str(dst, on_off_text(*b));
        },
        Command::GetSmoothing => push_str(dst, "qmp acsmooth"),
        Command::SetSmoothing(b) => {
            push_str(dst, "mp acsmooth,");
            push_str(dst, on_off_text(*b));
        },
        Command::GetCustomDbm => push_str(dst, "qmp cusDBm"),
        Command::SetCustomDbm(v) => {
            push_str(dst, "mp cusDBm,");
            push_decimal(dst, *v as u64);
        },
        Command::GetDigitCount => push_str(dst, "qmp digits"),
        Command::SetDigitCount(d) => {
            push_str(dst, "mp digits,");
            push_str(dst, digit_count_text(*d));
        },
        Command::GetAutoHoldEventThreshold => push_str(dst, "qmp ahEventTh"),
        Command::SetAutoHoldEventThreshold(t) => {
            push_str(dst, "mp ahEventTh,");
            push_decimal(dst, *t as u64);
        },
        Command::GetRecordingEventThreshold => push_str(dst, "qmp recEventTh"),
        Command::SetRecordingEventThreshold(t) => {
            push_str(dst, "mp recEventTh,");
            push_decimal(dst, *t as u64);
        },
        Command::GetLanguage => push_str(dst, "qmp lang"),
        Command::SetLanguage(l) => {
            push_str(dst, "mp lang,");
            push_str(dst, language_text(*l));
        },
        Command::GetDateFormat => push_str(dst, "qmp dateFmt"),
        Command::SetDateFormat(f) => {
            push_str(dst, "mp dateFmt,");
            push_str(dst, date_format_text(*f));
        },
        Command::GetTimeFormat => push_str(dst, "qmp timeFmt"),
        Command::SetTimeFormat(f) => {
            push_str(dst, "mp timeFmt,");
            push_str(dst, time_format_text(*f));
        },
        Command::GetNumFormat => push_str(dst, "qmp numFmt"),
        Command::SetNumFormat(f) => {
            push_str(dst, "mp numFmt,");
            push_str(dst, numeric_format_text(*f));
        },
        Command::GetDbmRef => push_str(dst, "qmp dBmRef"),
        Command::SetDbmRef(d) => {
            push_str(dst, "mp dBmRef,");
            push_str(dst, dbm_ref_text(*d));
        },
        Command::GetTempOffset => push_str(dst, "qmp tempOs"),
        Command::SetTempOffset(o) => {
            push_str(dst, "mp tempOs,");
            push_signed(dst, *o);
        },
    }
}

impl ProtocolCodec {
    /// A codec with no command outstanding.
    pub fn new() -> (r: ProtocolCodec)
        ensures
            r.last_cmd is None,
    {
        ProtocolCodec { last_cmd: None }
    }

    /// Appends the wire line of `item` (its command line and a carriage
    /// return) and records `item` as the outstanding command.
    pub fn encode(&mut self, item: Command, dst: &mut Vec<u8>)
        ensures
            final(dst)@ == old(dst)@ + command_line(item).push(CR),
            final(self).last_cmd == Some(item),
    {
        write_command(&item, dst);
        dst.push(CR);
        assert(dst@ =~= old(dst)@ + command_line(item).push(CR));
        self.last_cmd = Some(item);
    }
}

/// What a successful response to a command carries.
#[derive(Debug, Clone, Copy, PartialEq, Eq, Structural)]
pub enum PayloadShape {
    /// Nothing after the status line.
    NoPayload,
    /// One ASCII line ended by a carriage return.
    Line,
    /// A binary record.
    Record,
}

pub open spec fn payload_shape(cmd: Command) -> PayloadShape {
    match cmd {
        Command::SetBacklightTimeout(_)
        | Command::SetDevicePowerOff(_)
        | Command::SetOperator(_)
        | Command::SetCompany(_)
        | Command::SetSite(_)
        | Command::SetContact(_)
        | Command::SetSaveName(_, _)
        | Command::SetBeeper(_)
        | Command::SetSmoothing(_)
        | Command::Clear(_)
        | Command::ResetDevice
        | Command::SetCustomDbm(_)
        | Command::SetDigitCount(_)
        | Command::SetAutoHoldEventThreshold(_)
        | Command::SetRecordingEventThreshold(_)
        | Command::SetLanguage(_)
        | Command::SetDateFormat(_)
        | Command::SetTimeFormat(_)
        | Command::SetNumFormat(_)
        | Command::SetDbmRef(_)
        | Command::SetTempOffset(_)
        | Command::SetClock(_) => PayloadShape::NoPayload,
        Command::GetMeasurementBinary
        | Command::QuerySavedMeasurement(_)
        | Command::QueryMinMaxSessionInfo(_)
        | Command::QueryPeakSessionInfo(_)
        | Command::QueryRecordedSessionInfo(_)
        | Command::QuerySessionRecordReadings(_, _) => PayloadShape::Record,
        _ => PayloadShape::Line,
    }
}

/// The payload shape that a command's success response carries.
pub fn shape_of(cmd: &Command) -> (r: PayloadShape)
    ensures
        r == payload_shape(*cmd),
{
    match cmd {
        Command::SetBacklightTimeout(_)
        | Command::SetDevicePowerOff(_)
        | Command::SetOperator(_)
        | Command::SetCompany(_)
        | Command::SetSite(_)
        | Command::SetContact(_)
        | Command::SetSaveName(_, _)
        | Command::SetBeeper(_)
        | Command::SetSmoothing(_)
        | Command::Clear(_)
        | Command::ResetDevice
        | Command::SetCustomDbm(_)
        | Command::SetDigitCount(_)
        | Command::SetAutoHoldEventThreshold(_)
        | Command::SetRecordingEventThreshold(_)
        | Command::SetLanguage(_)
        | Command::SetDateFormat(_)
        | Command::SetTimeFormat(_)
        | Command::SetNumFormat(_)
        | Command::SetDbmRef(_)
        | Command::SetTempOffset(_)
        | Command::SetClock(_) => PayloadShape::NoPayload,
        Command::GetMeasurementBinary
        | Command::QuerySavedMeasurement(_)
        | Command::QueryMinMaxSessionInfo(_)
        | Command::QueryPeakSessionInfo(_)
        | Command::QueryRecordedSessionInfo(_)
        | Command::QuerySessionRecordReadings(_, _) => PayloadShape::Record,
        _ => PayloadShape::Line,
    }
}

/// The text of an ASCII payload line, which must be valid UTF-8.
pub open spec fn line_text(line: Seq<u8>) -> Result<Seq<char>, DecodeError> {
    if valid_utf8(line) {
        Ok(decode_utf8(line))
    } else {
        Err(DecodeError::InvalidUtf8)
    }
}

/// The number an ASCII payload line holds, parsed as an unsigned type whose
/// largest value is `max`.
pub open spec fn line_number(line: Seq<u8>, max: int) -> Result<int, DecodeError> {
    match line_text(line) {
        Ok(t) => match unsigned_text(t, max) {
            Some(v) => Ok(v),
            None => Err(DecodeError::InvalidNumber),
        },
        Err(e) => Err(e),
    }
}

/// The payload that a number line gives through `f`.
pub open spec fn number_payload(
    line: Seq<u8>,
    max: int,
    f: spec_fn(int) -> Result<ResponsePayload, DecodeError>,
) -> Result<ResponsePayload, DecodeError> {
    match line_number(line, max) {
        Ok(v) => f(v),
        Err(e) => Err(e),
    }
}

/// The payload that a word line gives through `f`.
pub open spec fn word_payload(
    line: Seq<u8>,
    f: spec_fn(Seq<char>) -> Result<ResponsePayload, DecodeError>,
) -> Result<ResponsePayload, DecodeError> {
    match line_text(line) {
        Ok(t) => f(t),
        Err(e) => Err(e),
    }
}

/// A text line decodes to `pr`, a payload whose text is `ok` of the line.
pub open spec fn text_payload(
    line: Seq<u8>,
    pr: Result<ResponsePayload, DecodeError>,
    ok: spec_fn(ResponsePayload, Seq<char>) -> bool,
) -> bool {
    match line_text(line) {
        Ok(t) => pr is Ok && ok(pr->Ok_0, t),
        Err(e) => pr == Err::<ResponsePayload, DecodeError>(e),
    }
}

pub open spec fn digit_count_of(v: int) -> Result<ResponsePayload, DecodeError> {
    if v == 4 {
        Ok(ResponsePayload::DigitCount(DigitCount::Digit4))
    } else if v == 5 {
        Ok(ResponsePayload::DigitCount(DigitCount::Digit5))
    } else {
        Err(DecodeError::UnknownSetting)
    }
}

pub open spec fn time_format_of(v: int) -> Result<ResponsePayload, DecodeError> {
    if v == 12 {
        Ok(ResponsePayload::TimeFormat(TimeFormat::Time12))
    } else if v == 24 {
        Ok(ResponsePayload::TimeFormat(TimeFormat::Time24))
    } else {
        Err(DecodeError::UnknownSetting)
    }
}

/// The dBm reference a number denotes; `0` is the custom reference.
pub open spec fn dbm_ref_of(v: int) -> Result<ResponsePayload, DecodeError> {
    if v == 0 {
        Ok(ResponsePayload::DbmRef(DezibelReference::Custom))
    } else if v == 4 {
        Ok(ResponsePayload::DbmRef(DezibelReference::Ref4))
    } else if v == 8 {
        Ok(ResponsePayload::DbmRef(DezibelReference::Ref8))
    } else if v == 16 {
        Ok(ResponsePayload::DbmRef(DezibelReference::Ref16))
    } else if v == 25 {
        Ok(ResponsePayload::DbmRef(DezibelReference::Ref25))
    } else if v == 32 {
        Ok(ResponsePayload::DbmRef(DezibelReference::Ref32))
    } else if v == 50 {
        Ok(ResponsePayload::DbmRef(DezibelReference::Ref50))
    } else if v == 75 {
        Ok(ResponsePayload::DbmRef(DezibelReference::Ref75))
    } else if v == 600 {
        Ok(ResponsePayload::DbmRef(DezibelReference::Ref600))
    } else if v == 1000 {
        Ok(ResponsePayload::DbmRef(DezibelReference::Ref1000))
    } else {
        Err(DecodeError::UnknownSetting)
    }
}

pub open spec fn language_of(t: Seq<char>) -> Result<ResponsePayload, DecodeError> {
    if t == "GERMAN"@ {
        Ok(ResponsePayload::Language(Language::German))
    } else if t == "ENGLISH"@ {
        Ok(ResponsePayload::Language(Language::English))
    } else if t == "SPANISH"@ {
        Ok(ResponsePayload::Language(Language::Spanish))
    } else if t == "ITALIAN"@ {
        Ok(ResponsePayload::Language(Language::Italian))
    } else if t == "FRENCH"@ {
        Ok(ResponsePayload::Language(Language::French))
    } else if t == "JAPANESE"@ {
        Ok(ResponsePayload::Language(Language::Japanese))
    } else if t == "CHINESE"@ {
        Ok(ResponsePayload::Language(Language::Chinese))
    } else {
        Err(DecodeError::UnknownSetting)
    }
}

pub open spec fn date_format_of(t: Seq<char>) -> Result<ResponsePayload, DecodeError> {
    if t == "MM_DD"@ {
        Ok(ResponsePayload::DateFormat(DateFormat::MM_DD))
    } else if t == "DD_MM"@ {
        Ok(ResponsePayload::DateFormat(DateFormat::DD_MM))
    } else {
        Err(DecodeError::UnknownSetting)
    }
}

pub open spec fn numeric_format_of(t: Seq<char>) -> Result<ResponsePayload, DecodeError> {
    if t == "COMMA"@ {
        Ok(ResponsePayload::NumericFormat(NumericFormat::Comma))
    } else if t == "POINT"@ {
        Ok(ResponsePayload::NumericFormat(NumericFormat::Point))
    } else {
        Err(DecodeError::UnknownSetting)
    }
}

/// The temperature offset a line holds: a signed decimal number.
pub open spec fn temp_offset_of(line: Seq<u8>) -> Result<ResponsePayload, DecodeError> {
    match line_text(line) {
        Ok(t) => match i16_text(t) {
            Some(v) => Ok(ResponsePayload::TempOffset(v as i16)),
            None => Err(DecodeError::InvalidNumber),
        },
        Err(e) => Err(e),
    }
}

/// `pr` is what the ASCII payload `line` decodes to for `cmd`.
pub open spec fn line_payload(
    cmd: Command,
    line: Seq<u8>,
    pr: Result<ResponsePayload, DecodeError>,
) -> bool {
    match cmd {
        Command::Id => match pr {
            Ok(p) => p is Id && ident_result(line, Ok(p->Id_0)),
            Err(e) => ident_result(line, Err(e)),
        },
        Command::QueryMap(_) => match pr {
            Ok(p) => p is ValueMap && map_table_result(line, Ok(p->ValueMap_0)),
            Err(e) => map_table_result(line, Err(e)),
        },
        Command::GetMemoryStat => pr == match memory_stat_of(line) {
            Ok(m) => Ok(ResponsePayload::MemoryStat(m)),
            Err(e) => Err(e),
        },
        Command::GetBacklightTimeout => pr == number_payload(
            line,
            u64::MAX as int,
            |v: int| Ok(ResponsePayload::BacklightTimeout(v as u64)),
        ),
        Command::GetDevicePowerOff => pr == number_payload(
            line,
            u64::MAX as int,
            |v: int| Ok(ResponsePayload::DevicePowerOff(v as u64)),
        ),
        Command::GetClock => pr == number_payload(
            line,
            u64::MAX as int,
            |v: int| Ok(ResponsePayload::Clock(v as u64)),
        ),
        Command::GetCustomDbm => pr == number_payload(
            line,
            u16::MAX as int,
            |v: int| Ok(ResponsePayload::CustomDbm(v as u16)),
        ),
        Command::GetAutoHoldEventThreshold => pr == number_payload(
            line,
            u8::MAX as int,
            |v: int| Ok(ResponsePayload::AutoHoldEventThreshold(v as u8)),
        ),
        Command::GetRecordingEventThreshold => pr == number_payload(
            line,
            u8::MAX as int,
            |v: int| Ok(ResponsePayload::RecordingEventThreshold(v as u8)),
        ),
        Command::GetDigitCount => pr == number_payload(line, u8::MAX as int, |v| digit_count_of(v)),
        Command::GetTimeFormat => pr == number_payload(line, u8::MAX as int, |v| time_format_of(v)),
        Command::GetDbmRef => pr == number_payload(line, u16::MAX as int, |v| dbm_ref_of(v)),
        Command::GetTempOffset => pr == temp_offset_of(line),
        Command::GetLanguage => pr == word_payload(line, |t| language_of(t)),
        Command::GetDateFormat => pr == word_payload(line, |t| date_format_of(t)),
        Command::GetNumFormat => pr == word_payload(line, |t| numeric_format_of(t)),
        Command::GetBeeper => pr == word_payload(
            line,
            |t: Seq<char>| Ok(ResponsePayload::Beeper(t == "ON"@)),
        ),
        Command::GetSmoothing => pr == word_payload(
            line,
            |t: Seq<char>| Ok(ResponsePayload::Smoothing(t == "ON"@)),
        ),
        Command::GetOperator => text_payload(
            line,
            pr,
            |p: ResponsePayload, t: Seq<char>| p is Operator && p->Operator_0@ == stripped(t),
        ),
        Command::GetCompany => text_payload(
            line,
            pr,
            |p: ResponsePayload, t: Seq<char>| p is Company && p->Company_0@ == stripped(t),
        ),
        Command::GetSite => text_payload(
            line,
            pr,
            |p: ResponsePayload, t: Seq<char>| p is Site && p->Site_0@ == stripped(t),
        ),
        Command::GetContact => text_payload(
            line,
            pr,
            |p: ResponsePayload, t: Seq<char>| p is Contact && p->Contact_0@ == stripped(t),
        ),
        Command::GetSaveName(_) => text_payload(
            line,
            pr,
            |p: ResponsePayload, t: Seq<char>| p is SaveName && p->SaveName_0@ == t,
        ),
        _ => false,
    }
}

fn text_of(line: &[u8]) -> (r: Result<String, DecodeError>)
    ensures
        match r {
            Ok(s) => line_text(line@) == Ok::<Seq<char>, DecodeError>(s@),
            Err(e) => line_text(line@) == Err::<Seq<char>, DecodeError>(e),
        },
{
    match convert_string(line) {
        Some(s) => Ok(s),
        None => Err(DecodeError::InvalidUtf8),
    }
}

fn number_of(line: &[u8], max: u64) -> (r: Result<u64, DecodeError>)
    ensures
        match r {
            Ok(v) => line_number(line@, max as int) == Ok::<int, DecodeError>(v as int),
            Err(e) => line_number(line@, max as int) == Err::<int, DecodeError>(e),
        },
{
    let text = text_of(line)?;
    match parse_unsigned(text.as_str(), max) {
        Some(v) => Ok(v),
        None => Err(DecodeError::InvalidNumber),
    }
}

/// Decodes the ASCII payload line of a response to `cmd`.
pub fn decode_line(cmd: &Command, line: &[u8]) -> (pr: Result<ResponsePayload, DecodeError>)
    requires
        payload_shape(*cmd) == PayloadShape::Line,
    ensures
        line_payload(*cmd, line@, pr),
{
    match cmd {
        Command::Id => match Ident::from_payload(line) {
            Ok(id) => Ok(ResponsePayload::Id(id)),
            Err(e) => Err(e),
        },
        Command::QueryMap(_) => match parse_value_map(line) {
            Ok(m) => Ok(ResponsePayload::ValueMap(m)),
            Err(e) => Err(e),
        },
        Command::GetMemoryStat => match MemoryStat::from_payload(line) {
            Ok(m) => Ok(ResponsePayload::MemoryStat(m)),
            Err(e) => Err(e),
        },
        Command::GetBacklightTimeout => Ok(
            ResponsePayload::BacklightTimeout(number_of(line, u64::MAX)?),
        ),
        Command::GetDevicePowerOff => Ok(
            ResponsePayload::DevicePowerOff(number_of(line, u64::MAX)?),
        ),
        Command::GetClock => Ok(ResponsePayload::Clock(number_of(line, u64::MAX)?)),
        Command::GetCustomDbm => Ok(
            ResponsePayload::CustomDbm(number_of(line, u16::MAX as u64)? as u16),
        ),
        Command::GetAutoHoldEventThreshold => Ok(
            ResponsePayload::AutoHoldEventThreshold(number_of(line, u8::MAX as u64)? as u8),
        ),
        Command::GetRecordingEventThreshold => Ok(
            ResponsePayload::RecordingEventThreshold(number_of(line, u8::MAX as u64)? as u8),
        ),
        Command::GetDigitCount => {
            let v = number_of(line, u8::MAX as u64)?;
            if v == 4 {
                Ok(ResponsePayload::DigitCount(DigitCount::Digit4))
            } else if v == 5 {
                Ok(ResponsePayload::DigitCount(DigitCount::Digit5))
            } else {
                Err(DecodeError::UnknownSetting)
            }
        },
        Command::GetTimeFormat => {
            let v = number_of(line, u8::MAX as u64)?;
            if v == 12 {
                Ok(ResponsePayload::TimeFormat(TimeFormat::Time12))
            } else if v == 24 {
                Ok(ResponsePayload::TimeFormat(TimeFormat::Time24))
            } else {
                Err(DecodeError::UnknownSetting)
            }
        },
        Command::GetDbmRef => {
            let v = number_of(line, u16::MAX as u64)?;
            let d = if v == 0 {
                DezibelReference::Custom
            } else if v == 4 {
                DezibelReference::Ref4
            } else if v == 8 {
                DezibelReference::Ref8
            } else if v == 16 {
                DezibelReference::Ref16
            } else if v == 25 {
                DezibelReference::Ref25
            } else if v == 32 {
                DezibelReference::Ref32
            } else if v == 50 {
                DezibelReference::Ref50
            } else if v == 75 {
                DezibelReference::Ref75
            } else if v == 600 {
                DezibelReference::Ref600
            } else if v == 1000 {
                DezibelReference::Ref1000
            } else {
                return Err(DecodeError::UnknownSetting);
            };
            Ok(ResponsePayload::DbmRef(d))
        },
        Command::GetTempOffset => {
            let text = text_of(line)?;
            match parse_i16(text.as_str()) {
                Some(v) => Ok(ResponsePayload::TempOffset(v)),
                None => Err(DecodeError::InvalidNumber),
            }
        },
        Command::GetLanguage => {
            let text = text_of(line)?;
            let t = text.as_str();
            let l = if str_eq(t, "GERMAN") {
                Language::German
            } else if str_eq(t, "ENGLISH") {
                Language::English
            } else if str_eq(t, "SPANISH") {
                Language::Spanish
            } else if str_eq(t, "ITALIAN") {
                Language::Italian
            } else if str_eq(t, "FRENCH") {
                Language::French
            } else if str_eq(t, "JAPANESE") {
                Language::Japanese
            } else if str_eq(t, "CHINESE") {
                Language::Chinese
            } else {
                return Err(DecodeError::UnknownSetting);
            };
            Ok(ResponsePayload::Language(l))
        },
        Command::GetDateFormat => {
            let text = text_of(line)?;
            if str_eq(text.as_str(), "MM_DD") {
                Ok(ResponsePayload::DateFormat(DateFormat::MM_DD))
            } else if str_eq(text.as_str(), "DD_MM") {
                Ok(ResponsePayload::DateFormat(DateFormat::DD_MM))
            } else {
                Err(DecodeError::UnknownSetting)
            }
        },
        Command::GetNumFormat => {
            let text = text_of(line)?;
            if str_eq(text.as_str(), "COMMA") {
                Ok(ResponsePayload::NumericFormat(NumericFormat::Comma))
            } else if str_eq(text.as_str(), "POINT") {
                Ok(ResponsePayload::NumericFormat(NumericFormat::Point))
            } else {
                Err(DecodeError::UnknownSetting)
            }
        },
        Command::GetBeeper => {
            let text = text_of(line)?;
            Ok(ResponsePayload::Beeper(str_eq(text.as_str(), "ON")))
        },
        Command::GetSmoothing => {
            let text = text_of(line)?;
            Ok(ResponsePayload::Smoothing(str_eq(text.as_str(), "ON")))
        },
        Command::GetOperator => {
            let text = text_of(line)?;
            Ok(ResponsePayload::Operator(strip_string(text.as_str())))
        },
        Command::GetCompany => {
            let text = text_of(line)?;
            Ok(ResponsePayload::Company(strip_string(text.as_str())))
        },
        Command::GetSite => {
            let text = text_of(line)?;
            Ok(ResponsePayload::Site(strip_string(text.as_str())))
        },
        Command::GetContact => {
            let text = text_of(line)?;
            Ok(ResponsePayload::Contact(strip_string(text.as_str())))
        },
        Command::GetSaveName(_) => {
            let text = text_of(line)?;
            Ok(ResponsePayload::SaveName(text))
        },
        _ => {
            assert(false);
            Err(DecodeError::UnknownSetting)
        },
    }
}

/// Two first carriage returns from the same start are the same one.
pub proof fn lemma_first_cr_unique(b: Seq<u8>, start: int, j1: int, j2: int)
    requires
        first_cr(b, start, j1),
        first_cr(b, start, j2),
    ensures
        j1 == j2,
{
    if j1 < j2 {
        assert(b[j1] != CR);
    } else if j2 < j1 {
        assert(b[j2] != CR);
    }
}

/// Length of a named record at the start of `frame`, once known.
pub open spec fn named_len(frame: Seq<u8>, header_end: int) -> Option<int> {
    if named_frame_incomplete(frame, header_end) {
        None
    } else {
        Some(choose|n: int| named_frame_len(frame, header_end, n))
    }
}

/// Length of the binary record that answers `cmd`, at the start of
/// `frame`, once enough bytes are there to tell it.
pub open spec fn record_frame_len(cmd: Command, frame: Seq<u8>) -> Option<int> {
    match cmd {
        Command::GetMeasurementBinary => if exists|n: int| measurement_frame_len(frame, n) {
            Some(choose|n: int| measurement_frame_len(frame, n))
        } else {
            None
        },
        Command::QuerySavedMeasurement(_) => named_len(frame, saved_measurement_header_end()),
        Command::QueryMinMaxSessionInfo(_) => named_len(frame, saved_minmax_header_end()),
        Command::QueryPeakSessionInfo(_) => named_len(frame, saved_minmax_header_end()),
        Command::QueryRecordedSessionInfo(_) => named_len(frame, saved_recording_header_end()),
        Command::QuerySessionRecordReadings(_, _) => if frame.len()
            >= session_readings_frame_len() {
            Some(session_readings_frame_len())
        } else {
            None
        },
        _ => None,
    }
}

/// `pr` is what the binary record `bytes` decodes to for `cmd`.
pub open spec fn record_payload(
    cmd: Command,
    bytes: Seq<u8>,
    pr: Result<ResponsePayload, DecodeError>,
) -> bool {
    match cmd {
        Command::GetMeasurementBinary => match pr {
            Ok(p) => p is MeasurementBinary && fixed_parse_result(
                bytes,
                measurement_header_end(),
                Ok::<RawMeasurement, DecodeError>(p->MeasurementBinary_0),
                |m: RawMeasurement| is_measurement_of(m, bytes),
            ),
            Err(e) => fixed_parse_result(
                bytes,
                measurement_header_end(),
                Err::<RawMeasurement, DecodeError>(e),
                |m: RawMeasurement| is_measurement_of(m, bytes),
            ),
        },
        Command::QuerySavedMeasurement(_) => match pr {
            Ok(p) => p is SavedMeasurement && named_parse_result(
                bytes,
                saved_measurement_header_end(),
                Ok::<RawSavedMeasurement, DecodeError>(p->SavedMeasurement_0),
                |m: RawSavedMeasurement, cr: int| is_saved_measurement_of(m, bytes, cr),
            ),
            Err(e) => named_parse_result(
                bytes,
                saved_measurement_header_end(),
                Err::<RawSavedMeasurement, DecodeError>(e),
                |m: RawSavedMeasurement, cr: int| is_saved_measurement_of(m, bytes, cr),
            ),
        },
        Command::QueryMinMaxSessionInfo(_) => match pr {
            Ok(p) => p is MinMaxSessionInfo && named_parse_result(
                bytes,
                saved_minmax_header_end(),
                Ok::<RawSavedMinMaxMeasurement, DecodeError>(p->MinMaxSessionInfo_0),
                |m: RawSavedMinMaxMeasurement, cr: int| is_saved_minmax_of(m, bytes, cr),
            ),
            Err(e) => named_parse_result(
                bytes,
                saved_minmax_header_end(),
                Err::<RawSavedMinMaxMeasurement, DecodeError>(e),
                |m: RawSavedMinMaxMeasurement, cr: int| is_saved_minmax_of(m, bytes, cr),
            ),
        },
        Command::QueryPeakSessionInfo(_) => match pr {
            Ok(p) => p is PeakSessionInfo && named_parse_result(
                bytes,
                saved_minmax_header_end(),
                Ok::<RawSavedMinMaxMeasurement, DecodeError>(p->PeakSessionInfo_0),
                |m: RawSavedMinMaxMeasurement, cr: int| is_saved_minmax_of(m, bytes, cr),
            ),
            Err(e) => named_parse_result(
                bytes,
                saved_minmax_header_end(),
                Err::<RawSavedMinMaxMeasurement, DecodeError>(e),
                |m: RawSavedMinMaxMeasurement, cr: int| is_saved_minmax_of(m, bytes, cr),
            ),
        },
        Command::QueryRecordedSessionInfo(_) => match pr {
            Ok(p) => p is RecordedSessionInfo && named_parse_result(
                bytes,
                saved_recording_header_end(),
                Ok::<RawSavedRecordingSessionInfo, DecodeError>(p->RecordedSessionInfo_0),
                |m: RawSavedRecordingSessionInfo, cr: int| is_saved_recording_of(m, bytes, cr),
            ),
            Err(e) => named_parse_result(
                bytes,
                saved_recording_header_end(),
                Err::<RawSavedRecordingSessionInfo, DecodeError>(e),
                |m: RawSavedRecordingSessionInfo, cr: int| is_saved_recording_of(m, bytes, cr),
            ),
        },
        Command::QuerySessionRecordReadings(_, _) => if !has_marker(bytes) {
            pr == Err::<ResponsePayload, DecodeError>(DecodeError::BadMarker)
        } else {
            pr is Ok && pr->Ok_0 is SessionRecordReading && is_session_readings_of(
                pr->Ok_0->SessionRecordReading_0,
                bytes,
            )
        },
        _ => false,
    }
}

/// A decode result that emits the payload decoded by `ok` as a frame of
/// `n` bytes, or fails as `ok` says.
pub open spec fn lifted(
    r: Result<Option<(Response, usize)>, DecodeError>,
    n: int,
    ok: spec_fn(Result<ResponsePayload, DecodeError>) -> bool,
) -> bool {
    match r {
        Err(e) => ok(Err(e)),
        Ok(Some((resp, m))) => m == n && resp is Success && resp->Success_0 is Some && ok(
            Ok(resp->Success_0->Some_0),
        ),
        Ok(None) => false,
    }
}

/// Length of the frame in `b` that answers `cmd` with status `0`, status
/// line included, once enough bytes are there to tell it.
pub open spec fn success_frame_len(cmd: Command, b: Seq<u8>) -> Option<int> {
    match payload_shape(cmd) {
        PayloadShape::NoPayload => Some(2),
        PayloadShape::Line => if no_cr_from(b, 2) {
            None
        } else {
            Some((choose|j: int| first_cr(b, 2, j)) + 1)
        },
        PayloadShape::Record => match record_frame_len(cmd, b.subrange(2, b.len() as int)) {
            Some(n) => Some(n + 2),
            None => None,
        },
    }
}

/// Length of the complete frame at the start of `b`, when `last` is the
/// outstanding command; `None` while the frame is incomplete or can never
/// be one.
pub open spec fn response_frame_len(last: Option<Command>, b: Seq<u8>) -> Option<int> {
    if b.len() < 2 || b[1] != CR {
        None
    } else if b[0] == 49 || b[0] == 50 || b[0] == 53 {
        Some(2)
    } else if b[0] == 48 && last is Some {
        success_frame_len(last->Some_0, b)
    } else {
        None
    }
}

/// What decoding `b` yields for a successful response to `cmd` whose frame
/// is `n` bytes long.
pub open spec fn success_outcome(
    cmd: Command,
    b: Seq<u8>,
    n: int,
    r: Result<Option<(Response, usize)>, DecodeError>,
) -> bool {
    match payload_shape(cmd) {
        PayloadShape::NoPayload => r == Ok::<Option<(Response, usize)>, DecodeError>(
            Some((Response::Success(None), 2usize)),
        ),
        PayloadShape::Line => lifted(r, n, |pr| line_payload(cmd, b.subrange(2, n - 1), pr)),
        PayloadShape::Record => lifted(r, n, |pr| record_payload(cmd, b.subrange(2, n), pr)),
    }
}

/// What decoding the buffered bytes `b` yields while `last` is outstanding:
/// nothing yet, one frame and its length, or a fatal error.
pub open spec fn decode_result(
    last: Option<Command>,
    b: Seq<u8>,
    r: Result<Option<(Response, usize)>, DecodeError>,
) -> bool {
    if b.len() < 2 {
        r == Ok::<Option<(Response, usize)>, DecodeError>(None)
    } else if b[1] != CR {
        r == Err::<Option<(Response, usize)>, DecodeError>(DecodeError::MissingStatusTerminator)
    } else if b[0] == 49 {
        r == Ok::<Option<(Response, usize)>, DecodeError>(Some((Response::SyntaxError, 2usize)))
    } else if b[0] == 50 {
        r == Ok::<Option<(Response, usize)>, DecodeError>(Some((Response::ExecutionError, 2usize)))
    } else if b[0] == 53 {
        r == Ok::<Option<(Response, usize)>, DecodeError>(Some((Response::NoData, 2usize)))
    } else if b[0] != 48 {
        r == Err::<Option<(Response, usize)>, DecodeError>(DecodeError::UnknownStatus(b[0]))
    } else {
        match last {
            None => r == Err::<Option<(Response, usize)>, DecodeError>(
                DecodeError::NoCommandOutstanding,
            ),
            Some(cmd) => match success_frame_len(cmd, b) {
                None => r == Ok::<Option<(Response, usize)>, DecodeError>(None),
                Some(n) => success_outcome(cmd, b, n, r),
            },
        }
    }
}

fn emit(p: ResponsePayload, n: usize) -> (r: Result<Option<(Response, usize)>, DecodeError>)
    ensures
        r == Ok::<Option<(Response, usize)>, DecodeError>(Some((Response::Success(Some(p)), n))),
{
    Ok(Some((Response::Success(Some(p)), n)))
}

/// The decode result for a record frame of `cmd` behind the status line of
/// `b`.
pub open spec fn record_result(
    cmd: Command,
    b: Seq<u8>,
    r: Result<Option<(Response, usize)>, DecodeError>,
) -> bool {
    match record_frame_len(cmd, b.subrange(2, b.len() as int)) {
        None => r == Ok::<Option<(Response, usize)>, DecodeError>(None),
        Some(n) => lifted(r, n + 2, |pr| record_payload(cmd, b.subrange(2, n + 2), pr)),
    }
}

fn decode_measurement(cmd: &Command, b: &[u8]) -> (r: Result<Option<(Response, usize)>, DecodeError>)
    requires
        *cmd is GetMeasurementBinary,
        b@.len() >= 2,
    ensures
        record_result(*cmd, b@, r),
{
    let frame = &b[2..b.len()];
    assert(frame@ == b@.subrange(2, b@.len() as int));
    match RawMeasurement::can_parse(frame) {
        None => Ok(None),
        Some(n) => {
            assert(frame@.subrange(0, n as int) =~= b@.subrange(2, n + 2));
            match RawMeasurement::parse(&frame[0..n]) {
                Ok(m) => emit(ResponsePayload::MeasurementBinary(m), n + 2),
                Err(e) => Err(e),
            }
        },
    }
}

fn decode_session_readings(cmd: &Command, b: &[u8]) -> (r: Result<Option<(Response, usize)>, DecodeError>)
    requires
        *cmd is QuerySessionRecordReadings,
        b@.len() >= 2,
    ensures
        record_result(*cmd, b@, r),
{
    let frame = &b[2..b.len()];
    assert(frame@ == b@.subrange(2, b@.len() as int));
    match RawSessionRecordReadings::can_parse(frame) {
        None => Ok(None),
        Some(n) => {
            assert(frame@.subrange(0, n as int) =~= b@.subrange(2, n + 2));
            match RawSessionRecordReadings::parse(&frame[0..n]) {
                Ok(m) => emit(ResponsePayload::SessionRecordReading(m), n + 2),
                Err(e) => Err(e),
            }
        },
    }
}

fn decode_saved_measurement(cmd: &Command, b: &[u8]) -> (r: Result<Option<(Response, usize)>, DecodeError>)
    requires
        *cmd is QuerySavedMeasurement,
        b@.len() >= 2,
    ensures
        record_result(*cmd, b@, r),
{
    let frame = &b[2..b.len()];
    assert(frame@ == b@.subrange(2, b@.len() as int));
    match RawSavedMeasurement::can_parse(frame) {
        None => Ok(None),
        Some(n) => {
            proof {
                let c = choose|k: int| named_frame_len(frame@, saved_measurement_header_end(), k);
                lemma_first_cr_unique(
                    frame@,
                    readings_end(frame@, saved_measurement_header_end()),
                    c - 1,
                    n - 1,
                );
            }
            assert(frame@.subrange(0, n as int) =~= b@.subrange(2, n + 2));
            match RawSavedMeasurement::parse(&frame[0..n]) {
                Ok(m) => emit(ResponsePayload::SavedMeasurement(m), n + 2),
                Err(e) => Err(e),
            }
        },
    }
}

fn decode_saved_minmax(cmd: &Command, b: &[u8]) -> (r: Result<Option<(Response, usize)>, DecodeError>)
    requires
        *cmd is QueryMinMaxSessionInfo,
        b@.len() >= 2,
    ensures
        record_result(*cmd, b@, r),
{
    let frame = &b[2..b.len()];
    assert(frame@ == b@.subrange(2, b@.len() as int));
    match RawSavedMinMaxMeasurement::can_parse(frame) {
        None => Ok(None),
        Some(n) => {
            proof {
                let c = choose|k: int| named_frame_len(frame@, saved_minmax_header_end(), k);
                lemma_first_cr_unique(
                    frame@,
                    readings_end(frame@, saved_minmax_header_end()),
                    c - 1,
                    n - 1,
                );
            }
            assert(frame@.subrange(0, n as int) =~= b@.subrange(2, n + 2));
            match RawSavedMinMaxMeasurement::parse(&frame[0..n]) {
                Ok(m) => emit(ResponsePayload::MinMaxSessionInfo(m), n + 2),
                Err(e) => Err(e),
            }
        },
    }
}

fn decode_saved_peak(cmd: &Command, b: &[u8]) -> (r: Result<Option<(Response, usize)>, DecodeError>)
    requires
        *cmd is QueryPeakSessionInfo,
        b@.len() >= 2,
    ensures
        record_result(*cmd, b@, r),
{
    let frame = &b[2..b.len()];
    assert(frame@ == b@.subrange(2, b@.len() as int));
    match RawSavedMinMaxMeasurement::can_parse(frame) {
        None => Ok(None),
        Some(n) => {
            proof {
                let c = choose|k: int| named_frame_len(frame@, saved_minmax_header_end(), k);
                lemma_first_cr_unique(
                    frame@,
                    readings_end(frame@, saved_minmax_header_end()),
                    c - 1,
                    n - 1,
                );
            }
            assert(frame@.subrange(0, n as int) =~= b@.subrange(2, n + 2));
            match RawSavedMinMaxMeasurement::parse(&frame[0..n]) {
                Ok(m) => emit(ResponsePayload::PeakSessionInfo(m), n + 2),
                Err(e) => Err(e),
            }
        },
    }
}

fn decode_saved_recording(cmd: &Command, b: &[u8]) -> (r: Result<Option<(Response, usize)>, DecodeError>)
    requires
        *cmd is QueryRecordedSessionInfo,
        b@.len() >= 2,
    ensures
        record_result(*cmd, b@, r),
{
    let frame = &b[2..b.len()];
    assert(frame@ == b@.subrange(2, b@.len() as int));
    match RawSavedRecordingSessionInfo::can_parse(frame) {
        None => Ok(None),
        Some(n) => {
            proof {
                let c = choose|k: int| named_frame_len(frame@, saved_recording_header_end(), k);
                lemma_first_cr_unique(
                    frame@,
                    readings_end(frame@, saved_recording_header_end()),
                    c - 1,
                    n - 1,
                );
            }
            assert(frame@.subrange(0, n as int) =~= b@.subrange(2, n + 2));
            match RawSavedRecordingSessionInfo::parse(&frame[0..n]) {
                Ok(m) => emit(ResponsePayload::RecordedSessionInfo(m), n + 2),
                Err(e) => Err(e),
            }
        },
    }
}

/// Decodes the binary record that answers `cmd`, behind the status line.
fn decode_record(cmd: &Command, b: &[u8]) -> (r: Result<Option<(Response, usize)>, DecodeError>)
    requires
        payload_shape(*cmd) == PayloadShape::Record,
        b@.len() >= 2,
    ensures
        record_result(*cmd, b@, r),
{
    match cmd {
        Command::GetMeasurementBinary => decode_measurement(cmd, b),
        Command::QuerySavedMeasurement(_) => decode_saved_measurement(cmd, b),
        Command::QueryMinMaxSessionInfo(_) => decode_saved_minmax(cmd, b),
        Command::QueryPeakSessionInfo(_) => decode_saved_peak(cmd, b),
        Command::QueryRecordedSessionInfo(_) => decode_saved_recording(cmd, b),
        Command::QuerySessionRecordReadings(_, _) => decode_session_readings(cmd, b),
        _ => {
            assert(false);
            Ok(None)
        },
    }
}

impl ProtocolCodec {
    /// Decodes the frame at the start of `src`, if it has fully arrived.
    /// Yields the response and the number of bytes it took; the caller
    /// removes them. A complete frame ends the outstanding command.
    pub fn decode(&mut self, src: &[u8]) -> (r: Result<Option<(Response, usize)>, DecodeError>)
        ensures
            decode_result(old(self).last_cmd, src@, r),
            r matches Ok(Some(_)) ==> final(self).last_cmd is None,
            !(r matches Ok(Some(_))) ==> final(self).last_cmd == old(self).last_cmd,
    {
        if src.len() < 2 {
            return Ok(None);
        }
        if src[1] != CR {
            return Err(DecodeError::MissingStatusTerminator);
        }
        let status = src[0];
        let r = if status == 49 {
            Ok(Some((Response::SyntaxError, 2)))
        } else if status == 50 {
            Ok(Some((Response::ExecutionError, 2)))
        } else if status == 53 {
            Ok(Some((Response::NoData, 2)))
        } else if status != 48 {
            return Err(DecodeError::UnknownStatus(status));
        } else {
            match &self.last_cmd {
                None => {
                    return Err(DecodeError::NoCommandOutstanding);
                },
                Some(cmd) => match shape_of(cmd) {
                    PayloadShape::NoPayload => Ok(Some((Response::Success(None), 2))),
                    PayloadShape::Line => match find_cr(src, 2) {
                        None => Ok(None),
                        Some(j) => {
                            proof {
                                let c = choose|k: int| first_cr(src@, 2, k);
                                lemma_first_cr_unique(src@, 2, c, j as int);
                            }
                            assert(src@.subrange(2, j as int) == src@.subrange(2, j + 1 - 1));
                            match decode_line(cmd, &src[2..j]) {
                                Ok(p) => emit(p, j + 1),
                                Err(e) => Err(e),
                            }
                        },
                    },
                    PayloadShape::Record => decode_record(cmd, src),
                },
            }
        };
        if let Ok(Some(_)) = r {
            self.last_cmd = None;
        }
        r
    }
}

/// A carriage return somewhere from `start` on means there is a first one.
pub proof fn lemma_first_cr_exists(b: Seq<u8>, start: int)
    requires
        0 <= start,
        !no_cr_from(b, start),
    ensures
        exists|j: int| #[trigger] first_cr(b, start, j),
    decreases b.len() - start,
{
    if start < b.len() && b[start] == CR {
        assert(first_cr(b, start, start));
    } else {
        assert(!no_cr_from(b, start + 1));
        lemma_first_cr_exists(b, start + 1);
        let j = choose|j: int| #[trigger] first_cr(b, start + 1, j);
        assert(first_cr(b, start, j));
    }
}

proof fn lemma_named_monotonic(f: Seq<u8>, h: int, extra: Seq<u8>)
    requires
        2 <= h,
        named_len(f, h) is Some,
    ensures
        named_frame_len(f, h, named_len(f, h)->Some_0),
        named_len(f, h)->Some_0 <= f.len(),
        forall|k: int|
            0 <= k < named_len(f, h)->Some_0 ==> #[trigger] named_len(f.subrange(0, k), h) is None,
        named_len(f + extra, h) == named_len(f, h),
{
    let re = readings_end(f, h);
    lemma_first_cr_exists(f, re);
    let j = choose|j: int| first_cr(f, re, j);
    assert(named_frame_len(f, h, j + 1));
    let m = named_len(f, h)->Some_0;
    lemma_first_cr_unique(f, re, m - 1, j);
    assert forall|k: int| 0 <= k < m implies #[trigger] named_len(f.subrange(0, k), h) is None by {
        let p = f.subrange(0, k);
        if k >= h {
            assert(p[h - 2] == f[h - 2] && p[h - 1] == f[h - 1]);
            assert(readings_end(p, h) == re);
            assert forall|i: int| re <= i < p.len() implies p[i] != CR by {
                assert(p[i] == f[i]);
            }
        }
    }
    let g = f + extra;
    assert(g[h - 2] == f[h - 2] && g[h - 1] == f[h - 1]);
    assert(readings_end(g, h) == re);
    assert(first_cr(g, re, j)) by {
        assert forall|i: int| re <= i < j implies g[i] != CR by {
            assert(g[i] == f[i]);
        }
    }
    assert(!no_cr_from(g, re));
    assert(named_frame_len(g, h, j + 1));
    let c = choose|n: int| named_frame_len(g, h, n);
    lemma_first_cr_unique(g, re, c - 1, j);
}

proof fn lemma_record_monotonic(cmd: Command, f: Seq<u8>, extra: Seq<u8>)
    requires
        record_frame_len(cmd, f) is Some,
    ensures
        0 <= record_frame_len(cmd, f)->Some_0 <= f.len(),
        forall|k: int|
            0 <= k < record_frame_len(cmd, f)->Some_0 ==> #[trigger] record_frame_len(
                cmd,
                f.subrange(0, k),
            ) is None,
        record_frame_len(cmd, f + extra) == record_frame_len(cmd, f),
{
    let m = record_frame_len(cmd, f)->Some_0;
    match cmd {
        Command::GetMeasurementBinary => {
            let h = measurement_header_end();
            let re = readings_end(f, h);
            assert(measurement_frame_len(f, m));
            assert forall|k: int| 0 <= k < m implies #[trigger] record_frame_len(
                cmd,
                f.subrange(0, k),
            ) is None by {
                let p = f.subrange(0, k);
                if k >= h {
                    assert(p[h - 2] == f[h - 2] && p[h - 1] == f[h - 1]);
                    assert(readings_end(p, h) == re);
                }
                assert(!exists|n: int| measurement_frame_len(p, n));
            }
            let g = f + extra;
            assert(g[h - 2] == f[h - 2] && g[h - 1] == f[h - 1]);
            assert(readings_end(g, h) == re);
            assert(measurement_frame_len(g, m));
        },
        Command::QuerySavedMeasurement(_) => {
            lemma_named_monotonic(f, saved_measurement_header_end(), extra);
        },
        Command::QueryMinMaxSessionInfo(_) => {
            lemma_named_monotonic(f, saved_minmax_header_end(), extra);
        },
        Command::QueryPeakSessionInfo(_) => {
            lemma_named_monotonic(f, saved_minmax_header_end(), extra);
        },
        Command::QueryRecordedSessionInfo(_) => {
            lemma_named_monotonic(f, saved_recording_header_end(), extra);
        },
        _ => {},
    }
}

/// Framing is monotonic in the bytes that have arrived: once the frame at
/// the start of `b` has a length, every shorter prefix of `b` has none yet,
/// the length fits in `b`, and further bytes after it do not change it.
pub proof fn lemma_frame_len_monotonic(last: Option<Command>, b: Seq<u8>, extra: Seq<u8>)
    requires
        response_frame_len(last, b) is Some,
    ensures
        2 <= response_frame_len(last, b)->Some_0 <= b.len(),
        forall|k: int|
            0 <= k < response_frame_len(last, b)->Some_0 ==> #[trigger] response_frame_len(
                last,
                b.subrange(0, k),
            ) is None,
        response_frame_len(last, b + extra) == response_frame_len(last, b),
{
    let n = response_frame_len(last, b)->Some_0;
    let g = b + extra;
    assert(g[0] == b[0] && g[1] == b[1]);
    if b[0] == 48 && !(b[0] == 49 || b[0] == 50 || b[0] == 53) {
        let cmd = last->Some_0;
        match payload_shape(cmd) {
            PayloadShape::NoPayload => {
                assert forall|k: int| 0 <= k < n implies #[trigger] response_frame_len(
                    last,
                    b.subrange(0, k),
                ) is None by {}
            },
            PayloadShape::Line => {
                lemma_first_cr_exists(b, 2);
                let j = choose|j: int| first_cr(b, 2, j);
                assert forall|k: int| 0 <= k < n implies #[trigger] response_frame_len(
                    last,
                    b.subrange(0, k),
                ) is None by {
                    let p = b.subrange(0, k);
                    if k >= 2 {
                        assert(p[0] == b[0] && p[1] == b[1]);
                        assert forall|i: int| 2 <= i < p.len() implies p[i] != CR by {
                            assert(p[i] == b[i]);
                        }
                    }
                }
                assert(first_cr(g, 2, j)) by {
                    assert forall|i: int| 2 <= i < j implies g[i] != CR by {
                        assert(g[i] == b[i]);
                    }
                }
                assert(!no_cr_from(g, 2));
                let c = choose|c: int| first_cr(g, 2, c);
                lemma_first_cr_unique(g, 2, c, j);
            },
            PayloadShape::Record => {
                let f = b.subrange(2, b.len() as int);
                lemma_record_monotonic(cmd, f, extra);
                assert(g.subrange(2, g.len() as int) =~= f + extra);
                assert forall|k: int| 0 <= k < n implies #[trigger] response_frame_len(
                    last,
                    b.subrange(0, k),
                ) is None by {
                    let p = b.subrange(0, k);
                    if k >= 2 {
                        assert(p[0] == b[0] && p[1] == b[1]);
                        assert(p.subrange(2, k) =~= f.subrange(0, k - 2));
                    }
                }
            },
        }
    } else {
        assert forall|k: int| 0 <= k < n implies #[trigger] response_frame_len(
            last,
            b.subrange(0, k),
        ) is None by {}
    }
}

/// A decoded frame has the length that framing gives it, and fits in the
/// buffered bytes.
pub proof fn lemma_consumed_fits(
    last: Option<Command>,
    b: Seq<u8>,
    resp: Response,
    n: usize,
)
    requires
        decode_result(last, b, Ok(Some((resp, n)))),
    ensures
        response_frame_len(last, b) == Some(n as int),
        2 <= n <= b.len(),
{
    if response_frame_len(last, b) is Some {
        lemma_frame_len_monotonic(last, b, Seq::empty());
    }
}

/// Each status digit decodes on its own: a two-byte status line `1`, `2`
/// or `5` gives the matching rejection or no-data response without looking
/// further, and `0` gives success without payload to a command that expects
/// none.
pub proof fn lemma_status_digits(
    last: Option<Command>,
    b: Seq<u8>,
    r: Result<Option<(Response, usize)>, DecodeError>,
)
    requires
        decode_result(last, b, r),
        b.len() == 2,
        b[1] == CR,
    ensures
        b[0] == 49 ==> r == Ok::<Option<(Response, usize)>, DecodeError>(
            Some((Response::SyntaxError, 2usize)),
        ),
        b[0] == 50 ==> r == Ok::<Option<(Response, usize)>, DecodeError>(
            Some((Response::ExecutionError, 2usize)),
        ),
        b[0] == 53 ==> r == Ok::<Option<(Response, usize)>, DecodeError>(
            Some((Response::NoData, 2usize)),
        ),
        b[0] == 48 && last is Some && payload_shape(last->Some_0) == PayloadShape::NoPayload ==> r
            == Ok::<Option<(Response, usize)>, DecodeError>(Some((Response::Success(None), 2usize))),
{
}

/// Bytes that arrive after a complete frame do not change what is consumed:
/// decoding the frame followed by any further bytes takes exactly the
/// frame's length, leaving the rest for the next response.
pub proof fn lemma_extra_bytes_untouched(
    last: Option<Command>,
    b: Seq<u8>,
    extra: Seq<u8>,
    resp: Response,
    n: usize,
)
    requires
        response_frame_len(last, b) is Some,
        decode_result(last, b + extra, Ok(Some((resp, n)))),
    ensures
        n == response_frame_len(last, b)->Some_0,
{
    lemma_frame_len_monotonic(last, b, extra);
    lemma_consumed_fits(last, b + extra, resp, n);
}

/// A complete map-table response whose leading count disagrees with the
/// number of entries it holds is rejected by the decoder.
pub proof fn lemma_map_table_count_rejected(
    name: String,
    b: Seq<u8>,
    j: int,
    r: Result<Option<(Response, usize)>, DecodeError>,
)
    requires
        decode_result(Some(Command::QueryMap(name)), b, r),
        b.len() >= 2,
        b[0] == 48,
        b[1] == CR,
        first_cr(b, 2, j),
        map_count_mismatch(b.subrange(2, j)),
    ensures
        r == Err::<Option<(Response, usize)>, DecodeError>(DecodeError::MapCountMismatch),
{
    let cmd = Command::QueryMap(name);
    assert(!no_cr_from(b, 2));
    let c = choose|c: int| first_cr(b, 2, c);
    lemma_first_cr_unique(b, 2, c, j);
    assert(success_frame_len(cmd, b) == Some(j + 1));
    assert(b.subrange(2, j + 1 - 1) == b.subrange(2, j));
}

} // verus!
