//! The commands the host can send, and the ASCII line each one becomes.
use vstd::prelude::*;

use crate::text::{decimal_digits, signed_digits, utf8};

verus! {

/// Which part of the saved memory a clear command empties.
#[derive(Debug, Clone, Copy, PartialEq, Eq, Structural)]
pub enum ClearMemory {
    All,
    Measurements,
    MinMax,
    Peak,
    Recordings,
}

/// Reference impedance for dBm readings, in ohms.
#[derive(Debug, Clone, Copy, PartialEq, Eq, Structural)]
pub enum DezibelReference {
    Ref4,
    Ref8,
    Ref16,
    Ref25,
    Ref32,
    Ref50,
    Ref75,
    Ref600,
    Ref1000,
    Custom,
}

#[derive(Debug, Clone, Copy, PartialEq, Eq, Structural)]
pub enum DigitCount {
    Digit4,
    Digit5,
}

#[derive(Debug, Clone, Copy, PartialEq, Eq, Structural)]
pub enum Language {
    German,
    English,
    French,
    Italian,
    Spanish,
    Japanese,
    Chinese,
}

#[allow(non_camel_case_types)]
#[derive(Debug, Clone, Copy, PartialEq, Eq, Structural)]
pub enum DateFormat {
    DD_MM,
    MM_DD,
}

#[derive(Debug, Clone, Copy, PartialEq, Eq, Structural)]
pub enum TimeFormat {
    Time12,
    Time24,
}

#[derive(Debug, Clone, Copy, PartialEq, Eq, Structural)]
pub enum NumericFormat {
    Point,
    Comma,
}

/// One request to the device. Durations are whole seconds, as the wire
/// carries them.
#[derive(Debug, Clone)]
pub enum Command {
    Id,
    QueryMap(String),
    SetBacklightTimeout(u64),
    GetBacklightTimeout,
    SetDevicePowerOff(u64),
    GetDevicePowerOff,
    GetOperator,
    SetOperator(String),
    GetCompany,
    SetCompany(String),
    GetSite,
    SetSite(String),
    GetContact,
    SetContact(String),
    GetBeeper,
    SetBeeper(bool),
    GetSmoothing,
    SetSmoothing(bool),
    GetClock,
    SetClock(u64),
    GetSaveName(u16),
    SetSaveName(u16, String),
    GetMemoryStat,
    GetMeasurementBinary,
    QuerySavedMeasurement(usize),
    QueryMinMaxSessionInfo(usize),
    QueryPeakSessionInfo(usize),
    QueryRecordedSessionInfo(usize),
    QuerySessionRecordReadings(usize, usize),
    Clear(ClearMemory),
    ResetDevice,
    GetCustomDbm,
    SetCustomDbm(u16),
    GetDigitCount,
    SetDigitCount(DigitCount),
    GetAutoHoldEventThreshold,
    SetAutoHoldEventThreshold(u8),
    GetRecordingEventThreshold,
    SetRecordingEventThreshold(u8),
    GetLanguage,
    SetLanguage(Language),
    GetDateFormat,
    SetDateFormat(DateFormat),
    GetTimeFormat,
    SetTimeFormat(TimeFormat),
    GetNumFormat,
    SetNumFormat(NumericFormat),
    GetDbmRef,
    SetDbmRef(DezibelReference),
    GetTempOffset,
    SetTempOffset(i16),
}

pub open spec fn clear_word(m: ClearMemory) -> Seq<char> {
    match m {
        ClearMemory::All => "ALL"@,
        ClearMemory::Measurements => "MEASUREMENT"@,
        ClearMemory::MinMax => "MIN_MAX"@,
        ClearMemory::Peak => "PEAK"@,
        ClearMemory::Recordings => "RECORDED"@,
    }
}

pub open spec fn on_off_word(b: bool) -> Seq<char> {
    if b {
        "ON"@
    } else {
        "OFF"@
    }
}

pub open spec fn digit_count_word(d: DigitCount) -> Seq<char> {
    match d {
        DigitCount::Digit4 => "4"@,
        DigitCount::Digit5 => "5"@,
    }
}

pub open spec fn language_word(l: Language) -> Seq<char> {
    match l {
        Language::German => "GERMAN"@,
        Language::English => "ENGLISH"@,
        Language::French => "FRENCH"@,
        Language::Italian => "ITALIAN"@,
        Language::Spanish => "SPANISH"@,
        Language::Japanese => "JAPANESE"@,
        Language::Chinese => "CHINESE"@,
    }
}

pub open spec fn date_format_word(f: DateFormat) -> Seq<char> {
    match f {
        DateFormat::DD_MM => "DD_MM"@,
        DateFormat::MM_DD => "MM_DD"@,
    }
}

pub open spec fn time_format_word(f: TimeFormat) -> Seq<char> {
    match f {
        TimeFormat::Time12 => "12"@,
        TimeFormat::Time24 => "24"@,
    }
}

pub open spec fn numeric_format_word(f: NumericFormat) -> Seq<char> {
    match f {
        NumericFormat::Point => "POINT"@,
        NumericFormat::Comma => "COMMA"@,
    }
}

/// The parameter of a dBm reference setting; `0` selects the custom value.
pub open spec fn dbm_ref_word(d: DezibelReference) -> Seq<char> {
    match d {
        DezibelReference::Ref4 => "4"@,
        DezibelReference::Ref8 => "8"@,
        DezibelReference::Ref16 => "16"@,
        DezibelReference::Ref25 => "25"@,
        DezibelReference::Ref32 => "32"@,
        DezibelReference::Ref50 => "50"@,
        DezibelReference::Ref75 => "75"@,
        DezibelReference::Ref600 => "600"@,
        DezibelReference::Ref1000 => "1000"@,
        DezibelReference::Custom => "0"@,
    }
}

/// The quoted form in which text settings travel.
pub open spec fn quoted(s: Seq<char>) -> Seq<u8> {
    utf8("'"@) + utf8(s) + utf8("'"@)
}

/// The command line of `cmd`, without its closing carriage return: the
/// mnemonic, then a space or comma and the parameters.
pub open spec fn command_line(cmd: Command) -> Seq<u8> {
    match cmd {
        Command::Id => utf8("id"@),
        Command::QueryMap(name) => utf8("qemap "@) + utf8(name@),
        Command::SetBacklightTimeout(secs) => utf8("mp ablto,"@) + decimal_digits(secs as nat),
        Command::GetBacklightTimeout => utf8("qmp ablto"@),
        Command::SetDevicePowerOff(secs) => utf8("mp apoffto,"@) + decimal_digits(secs as nat),
        Command::GetDevicePowerOff => utf8("qmp apoffto"@),
        Command::GetOperator => utf8("qmpq operator"@),
        Command::SetOperator(s) => utf8("mpq operator,"@) + quoted(s@),
        Command::GetCompany => utf8("qmpq company"@),
        Command::SetCompany(s) => utf8("mpq company,"@) + quoted(s@),
        Command::GetSite => utf8("qmpq site"@),
        Command::SetSite(s) => utf8("mpq site,"@) + quoted(s@),
        Command::GetContact => utf8("qmpq contact"@),
        Command::SetContact(s) => utf8("mpq contact,"@) + utf8(s@),
        Command::GetClock => utf8("qmp clock"@),
        Command::SetClock(c) => utf8("mp clock,"@) + decimal_digits(c as nat),
        Command::GetSaveName(slot) => utf8("qsavname "@) + decimal_digits(slot as nat),
        Command::SetSaveName(slot, name) => utf8("savname "@) + decimal_digits(slot as nat) + utf8(
            ","@,
        ) + quoted(name@),
        Command::GetMemoryStat => utf8("qsls"@),
        Command::GetMeasurementBinary => utf8("qddb"@),
        Command::QuerySavedMeasurement(i) => utf8("qsmr "@) + decimal_digits(i as nat),
        Command::QueryMinMaxSessionInfo(i) => utf8("qmmsi "@) + decimal_digits(i as nat),
        Command::QueryPeakSessionInfo(i) => utf8("qpsi "@) + decimal_digits(i as nat),
        Command::QueryRecordedSessionInfo(i) => utf8("qrsi "@) + decimal_digits(i as nat),
        Command::QuerySessionRecordReadings(r, s) => utf8("qsrr "@) + decimal_digits(r as nat)
            + utf8(","@) + decimal_digits(s as nat),
        Command::Clear(m) => utf8("csd "@) + utf8(clear_word(m)),
        Command::ResetDevice => utf8("rmp"@),
        Command::GetBeeper => utf8("qmp beeper"@),
        Command::SetBeeper(b) => utf8("mp beeper,"@) + utf8(on_off_word(b)),
        Command::GetSmoothing => utf8("qmp acsmooth"@),
        Command::SetSmoothing(b) => utf8("mp acsmooth,"@) + utf8(on_off_word(b)),
        Command::GetCustomDbm => utf8("qmp cusDBm"@),
        Command::SetCustomDbm(v) => utf8("mp cusDBm,"@) + decimal_digits(v as nat),
        Command::GetDigitCount => utf8("qmp digits"@),
        Command::SetDigitCount(d) => utf8("mp digits,"@) + utf8(digit_count_word(d)),
        Command::GetAutoHoldEventThreshold => utf8("qmp ahEventTh"@),
        Command::SetAutoHoldEventThreshold(t) => utf8("mp ahEventTh,"@) + decimal_digits(t as nat),
        Command::GetRecordingEventThreshold => utf8("qmp recEventTh"@),
        Command::SetRecordingEventThreshold(t) => utf8("mp recEventTh,"@) + decimal_digits(
            t as nat,
        ),
        Command::GetLanguage => utf8("qmp lang"@),
        Command::SetLanguage(l) => utf8("mp lang,"@) + utf8(language_word(l)),
        Command::GetDateFormat => utf8("qmp dateFmt"@),
        Command::SetDateFormat(f) => utf8("mp dateFmt,"@) + utf8(date_format_word(f)),
        Command::GetTimeFormat => utf8("qmp timeFmt"@),
        Command::SetTimeFormat(f) => utf8("mp timeFmt,"@) + utf8(time_format_word(f)),
        Command::GetNumFormat => utf8("qmp numFmt"@),
        Command::SetNumFormat(f) => utf8("mp numFmt,"@) + utf8(numeric_format_word(f)),
        Command::GetDbmRef => utf8("qmp dBmRef"@),
        Command::SetDbmRef(d) => utf8("mp dBmRef,"@) + utf8(dbm_ref_word(d)),
        Command::GetTempOffset => utf8("qmp tempOs"@),
        Command::SetTempOffset(o) => utf8("mp tempOs,"@) + signed_digits(o as int),
    }
}

/// How a dBm reference is shown to a person.
pub open spec fn dbm_ref_label(v: DezibelReference) -> Seq<char> {
    match v {
        DezibelReference::Ref4 => "4"@,
        DezibelReference::Ref8 => "8"@,
        DezibelReference::Ref16 => "16"@,
        DezibelReference::Ref25 => "25"@,
        DezibelReference::Ref32 => "32"@,
        DezibelReference::Ref50 => "50"@,
        DezibelReference::Ref75 => "75"@,
        DezibelReference::Ref600 => "600"@,
        DezibelReference::Ref1000 => "1000"@,
        DezibelReference::Custom => "CUSTOM"@,
    }
}

impl DezibelReference {
    /// How the reference is shown to a person.
    pub fn label(&self) -> (r: &'static str)
        ensures
            r@ == dbm_ref_label(*self),
    {
        match self {
            DezibelReference::Ref4 => "4",
            DezibelReference::Ref8 => "8",
            DezibelReference::Ref16 => "16",
            DezibelReference::Ref25 => "25",
            DezibelReference::Ref32 => "32",
            DezibelReference::Ref50 => "50",
            DezibelReference::Ref75 => "75",
            DezibelReference::Ref600 => "600",
            DezibelReference::Ref1000 => "1000",
            DezibelReference::Custom => "CUSTOM",
        }
    }
}

} // verus!
