//! Translation of the raw numeric codes of the records into domain values,
//! through the value maps that the device hands out.
use vstd::prelude::*;

use std::collections::HashMap;

use crate::error::TranslateError;
use crate::rawmea::{
    RawMeasurement, RawReading, RawSavedMeasurement, RawSavedMinMaxMeasurement,
    RawSavedRecordingSessionInfo, RawSessionRecordReadings,
};
use crate::response::ValueMap;
use crate::text::str_eq;
use vstd::string::{StrSliceExecFns, StringExecFns};

verus! {

broadcast use vstd::std_specs::hash::group_hash_axioms;

/// The value maps of one device, one per domain.
#[derive(Debug, Clone)]
pub struct ValueMaps {
    pub primfunction: ValueMap,
    pub secfunction: ValueMap,
    pub autorange: ValueMap,
    pub unit: ValueMap,
    pub bolt: ValueMap,
    pub mode: ValueMap,
    pub state: ValueMap,
    pub attribute: ValueMap,
    pub recordtype: ValueMap,
    pub isstableflag: ValueMap,
    pub transientstate: ValueMap,
}

/// The names under which the device hands out its value maps.
pub open spec fn map_names() -> Seq<Seq<char>> {
    seq![
        "primfunction"@,
        "secfunction"@,
        "autorange"@,
        "unit"@,
        "bolt"@,
        "mode"@,
        "state"@,
        "attribute"@,
        "recordtype"@,
        "isstableflag"@,
        "transientstate"@,
    ]
}

/// The names under which the device hands out its value maps, in the order
/// in which they are fetched.
pub fn value_map_names() -> (r: Vec<&'static str>)
    ensures
        r@.map_values(|s: &'static str| s@) == map_names(),
{
    let r = vec![
        "primfunction",
        "secfunction",
        "autorange",
        "unit",
        "bolt",
        "mode",
        "state",
        "attribute",
        "recordtype",
        "isstableflag",
        "transientstate",
    ];
    assert(r@.map_values(|s: &'static str| s@) =~= map_names());
    r
}

impl ValueMaps {
    /// Value maps that are all empty.
    pub fn new() -> (r: ValueMaps)
        ensures
            r.primfunction@ == Map::<u16, String>::empty(),
            r.secfunction@ == Map::<u16, String>::empty(),
            r.autorange@ == Map::<u16, String>::empty(),
            r.unit@ == Map::<u16, String>::empty(),
            r.bolt@ == Map::<u16, String>::empty(),
            r.mode@ == Map::<u16, String>::empty(),
            r.state@ == Map::<u16, String>::empty(),
            r.attribute@ == Map::<u16, String>::empty(),
            r.recordtype@ == Map::<u16, String>::empty(),
            r.isstableflag@ == Map::<u16, String>::empty(),
            r.transientstate@ == Map::<u16, String>::empty(),
    {
        ValueMaps {
            primfunction: HashMap::new(),
            secfunction: HashMap::new(),
            autorange: HashMap::new(),
            unit: HashMap::new(),
            bolt: HashMap::new(),
            mode: HashMap::new(),
            state: HashMap::new(),
            attribute: HashMap::new(),
            recordtype: HashMap::new(),
            isstableflag: HashMap::new(),
            transientstate: HashMap::new(),
        }
    }

    /// Stores `map` as the value map called `name`; false, and nothing
    /// stored, when no value map has that name.
    pub fn set(&mut self, name: &str, map: ValueMap) -> (r: bool)
        ensures
            if name@ == "primfunction"@ {
                r && *final(self) == (ValueMaps { primfunction: map, ..*old(self) })
            } else if name@ == "secfunction"@ {
                r && *final(self) == (ValueMaps { secfunction: map, ..*old(self) })
            } else if name@ == "autorange"@ {
                r && *final(self) == (ValueMaps { autorange: map, ..*old(self) })
            } else if name@ == "unit"@ {
                r && *final(self) == (ValueMaps { unit: map, ..*old(self) })
            } else if name@ == "bolt"@ {
                r && *final(self) == (ValueMaps { bolt: map, ..*old(self) })
            } else if name@ == "mode"@ {
                r && *final(self) == (ValueMaps { mode: map, ..*old(self) })
            } else if name@ == "state"@ {
                r && *final(self) == (ValueMaps { state: map, ..*old(self) })
            } else if name@ == "attribute"@ {
                r && *final(self) == (ValueMaps { attribute: map, ..*old(self) })
            } else if name@ == "recordtype"@ {
                r && *final(self) == (ValueMaps { recordtype: map, ..*old(self) })
            } else if name@ == "isstableflag"@ {
                r && *final(self) == (ValueMaps { isstableflag: map, ..*old(self) })
            } else if name@ == "transientstate"@ {
                r && *final(self) == (ValueMaps { transientstate: map, ..*old(self) })
            } else {
                !r && *final(self) == *old(self)
            },
    {
        if str_eq(name, "primfunction") {
            self.primfunction = map;
        } else if str_eq(name, "secfunction") {
            self.secfunction = map;
        } else if str_eq(name, "autorange") {
            self.autorange = map;
        } else if str_eq(name, "unit") {
            self.unit = map;
        } else if str_eq(name, "bolt") {
            self.bolt = map;
        } else if str_eq(name, "mode") {
            self.mode = map;
        } else if str_eq(name, "state") {
            self.state = map;
        } else if str_eq(name, "attribute") {
            self.attribute = map;
        } else if str_eq(name, "recordtype") {
            self.recordtype = map;
        } else if str_eq(name, "isstableflag") {
            self.isstableflag = map;
        } else if str_eq(name, "transientstate") {
            self.transientstate = map;
        } else {
            return false;
        }
        true
    }
}

/// What translating `code` through the value map `m` gives, when `named`
/// tells which value each name stands for.
pub open spec fn translated<T>(
    m: Map<u16, String>,
    code: u16,
    named: spec_fn(Seq<char>) -> Option<T>,
) -> Result<T, TranslateError> {
    if !m.contains_key(code) {
        Err(TranslateError::UnknownCode(code))
    } else {
        match named(m[code]@) {
            Some(v) => Ok(v),
            None => Err(TranslateError::UnknownName(code)),
        }
    }
}

fn lookup(m: &ValueMap, code: u16) -> (r: Option<&String>)
    ensures
        match r {
            Some(s) => m@.contains_key(code) && *s == m@[code],
            None => !m@.contains_key(code),
        },
{
    m.get(&code)
}

/// The measuring function selected on the rotary switch.
#[allow(non_camel_case_types)]
#[derive(Debug, Clone, Copy, PartialEq, Eq, Structural)]
pub enum PrimaryFunction {
    V_DC,
    TEMPERATURE,
    A_DC,
    V_DC_OVER_AC,
    V_AC_OVER_DC,
    CAL_ACDC_AC_COMP,
    CAL_V_AC_LOZ,
    LIMBO,
    V_AC_LOZ,
    OHMS_LOW,
    CAL_RMS,
    CAL_TEMPERATURE,
    CAPACITANCE,
    OHMS,
    MA_AC,
    V_AC_PLUS_DC,
    MV_AC_PLUS_DC,
    MA_DC_OVER_AC,
    CAL_AD_GAIN_X2,
    CAL_DC_AMP_X5,
    MV_DC_OVER_AC,
    A_AC,
    CONTINUITY,
    MV_AC,
    MV_DC,
    A_DC_OVER_AC,
    CONDUCTANCE,
    V_AC,
    CAL_AD_GAIN_X1,
    CAL_DC_AMP_X10,
    UA_AC_PLUS_DC,
    UA_DC_OVER_AC,
    CAL_NINV_AC_AMP,
    CAL_ISRC_500NA,
    UA_DC,
    UA_AC_OVER_DC,
    A_AC_OVER_DC,
    CAL_FILT_AMP,
    MA_AC_OVER_DC,
    MA_AC_PLUS_DC,
    CAL_MV_AC_PEAK,
    UA_AC,
    MV_AC_OVER_DC,
    CAL_V_DC_LOZ,
    MA_DC,
    DIODE_TEST,
    CAL_COMP_TRIM_MV_DC,
    CAL_V_AC_PEAK,
    A_AC_PLUS_DC,
}

/// The PrimaryFunction that the name `t` of the `primfunction` value map stands for.
pub open spec fn primary_function_named(t: Seq<char>) -> Option<PrimaryFunction> {
    if t == "V_DC"@ {
        Some(PrimaryFunction::V_DC)
    } else if t == "TEMPERATURE"@ {
        Some(PrimaryFunction::TEMPERATURE)
    } else if t == "A_DC"@ {
        Some(PrimaryFunction::A_DC)
    } else if t == "V_DC_OVER_AC"@ {
        Some(PrimaryFunction::V_DC_OVER_AC)
    } else if t == "V_AC_OVER_DC"@ {
        Some(PrimaryFunction::V_AC_OVER_DC)
    } else if t == "CAL_ACDC_AC_COMP"@ {
        Some(PrimaryFunction::CAL_ACDC_AC_COMP)
    } else if t == "CAL_V_AC_LOZ"@ {
        Some(PrimaryFunction::CAL_V_AC_LOZ)
    } else if t == "LIMBO"@ {
        Some(PrimaryFunction::LIMBO)
    } else if t == "V_AC_LOZ"@ {
        Some(PrimaryFunction::V_AC_LOZ)
    } else if t == "OHMS_LOW"@ {
        Some(PrimaryFunction::OHMS_LOW)
    } else if t == "CAL_RMS"@ {
        Some(PrimaryFunction::CAL_RMS)
    } else if t == "CAL_TEMPERATURE"@ {
        Some(PrimaryFunction::CAL_TEMPERATURE)
    } else if t == "CAPACITANCE"@ {
        Some(PrimaryFunction::CAPACITANCE)
    } else if t == "OHMS"@ {
        Some(PrimaryFunction::OHMS)
    } else if t == "MA_AC"@ {
        Some(PrimaryFunction::MA_AC)
    } else if t == "V_AC_PLUS_DC"@ {
        Some(PrimaryFunction::V_AC_PLUS_DC)
    } else if t == "MV_AC_PLUS_DC"@ {
        Some(PrimaryFunction::MV_AC_PLUS_DC)
    } else if t == "MA_DC_OVER_AC"@ {
        Some(PrimaryFunction::MA_DC_OVER_AC)
    } else if t == "CAL_AD_GAIN_X2"@ {
        Some(PrimaryFunction::CAL_AD_GAIN_X2)
    } else if t == "CAL_DC_AMP_X5"@ {
        Some(PrimaryFunction::CAL_DC_AMP_X5)
    } else if t == "MV_DC_OVER_AC"@ {
        Some(PrimaryFunction::MV_DC_OVER_AC)
    } else if t == "A_AC"@ {
        Some(PrimaryFunction::A_AC)
    } else if t == "CONTINUITY"@ {
        Some(PrimaryFunction::CONTINUITY)
    } else if t == "MV_AC"@ {
        Some(PrimaryFunction::MV_AC)
    } else if t == "MV_DC"@ {
        Some(PrimaryFunction::MV_DC)
    } else if t == "A_DC_OVER_AC"@ {
        Some(PrimaryFunction::A_DC_OVER_AC)
    } else if t == "CONDUCTANCE"@ {
        Some(PrimaryFunction::CONDUCTANCE)
    } else if t == "V_AC"@ {
        Some(PrimaryFunction::V_AC)
    } else if t == "CAL_AD_GAIN_X1"@ {
        Some(PrimaryFunction::CAL_AD_GAIN_X1)
    } else if t == "CAL_DC_AMP_X10"@ {
        Some(PrimaryFunction::CAL_DC_AMP_X10)
    } else if t == "UA_AC_PLUS_DC"@ {
        Some(PrimaryFunction::UA_AC_PLUS_DC)
    } else if t == "UA_DC_OVER_AC"@ {
        Some(PrimaryFunction::UA_DC_OVER_AC)
    } else if t == "CAL_NINV_AC_AMP"@ {
        Some(PrimaryFunction::CAL_NINV_AC_AMP)
    } else if t == "CAL_ISRC_500NA"@ {
        Some(PrimaryFunction::CAL_ISRC_500NA)
    } else if t == "UA_DC"@ {
        Some(PrimaryFunction::UA_DC)
    } else if t == "UA_AC_OVER_DC"@ {
        Some(PrimaryFunction::UA_AC_OVER_DC)
    } else if t == "A_AC_OVER_DC"@ {
        Some(PrimaryFunction::A_AC_OVER_DC)
    } else if t == "CAL_FILT_AMP"@ {
        Some(PrimaryFunction::CAL_FILT_AMP)
    } else if t == "MA_AC_OVER_DC"@ {
        Some(PrimaryFunction::MA_AC_OVER_DC)
    } else if t == "MA_AC_PLUS_DC"@ {
        Some(PrimaryFunction::MA_AC_PLUS_DC)
    } else if t == "CAL_MV_AC_PEAK"@ {
        Some(PrimaryFunction::CAL_MV_AC_PEAK)
    } else if t == "UA_AC"@ {
        Some(PrimaryFunction::UA_AC)
    } else if t == "MV_AC_OVER_DC"@ {
        Some(PrimaryFunction::MV_AC_OVER_DC)
    } else if t == "CAL_V_DC_LOZ"@ {
        Some(PrimaryFunction::CAL_V_DC_LOZ)
    } else if t == "MA_DC"@ {
        Some(PrimaryFunction::MA_DC)
    } else if t == "DIODE_TEST"@ {
        Some(PrimaryFunction::DIODE_TEST)
    } else if t == "CAL_COMP_TRIM_MV_DC"@ {
        Some(PrimaryFunction::CAL_COMP_TRIM_MV_DC)
    } else if t == "CAL_V_AC_PEAK"@ {
        Some(PrimaryFunction::CAL_V_AC_PEAK)
    } else if t == "A_AC_PLUS_DC"@ {
        Some(PrimaryFunction::A_AC_PLUS_DC)
    } else {
        None
    }
}

fn primary_function_of_name(t: &str) -> (r: Option<PrimaryFunction>)
    ensures
        r == primary_function_named(t@),
{
    if str_eq(t, "V_DC") {
        Some(PrimaryFunction::V_DC)
    } else if str_eq(t, "TEMPERATURE") {
        Some(PrimaryFunction::TEMPERATURE)
    } else if str_eq(t, "A_DC") {
        Some(PrimaryFunction::A_DC)
    } else if str_eq(t, "V_DC_OVER_AC") {
        Some(PrimaryFunction::V_DC_OVER_AC)
    } else if str_eq(t, "V_AC_OVER_DC") {
        Some(PrimaryFunction::V_AC_OVER_DC)
    } else if str_eq(t, "CAL_ACDC_AC_COMP") {
        Some(PrimaryFunction::CAL_ACDC_AC_COMP)
    } else if str_eq(t, "CAL_V_AC_LOZ") {
        Some(PrimaryFunction::CAL_V_AC_LOZ)
    } else if str_eq(t, "LIMBO") {
        Some(PrimaryFunction::LIMBO)
    } else if str_eq(t, "V_AC_LOZ") {
        Some(PrimaryFunction::V_AC_LOZ)
    } else if str_eq(t, "OHMS_LOW") {
        Some(PrimaryFunction::OHMS_LOW)
    } else if str_eq(t, "CAL_RMS") {
        Some(PrimaryFunction::CAL_RMS)
    } else if str_eq(t, "CAL_TEMPERATURE") {
        Some(PrimaryFunction::CAL_TEMPERATURE)
    } else if str_eq(t, "CAPACITANCE") {
        Some(PrimaryFunction::CAPACITANCE)
    } else if str_eq(t, "OHMS") {
        Some(PrimaryFunction::OHMS)
    } else if str_eq(t, "MA_AC") {
        Some(PrimaryFunction::MA_AC)
    } else if str_eq(t, "V_AC_PLUS_DC") {
        Some(PrimaryFunction::V_AC_PLUS_DC)
    } else if str_eq(t, "MV_AC_PLUS_DC") {
        Some(PrimaryFunction::MV_AC_PLUS_DC)
    } else if str_eq(t, "MA_DC_OVER_AC") {
        Some(PrimaryFunction::MA_DC_OVER_AC)
    } else if str_eq(t, "CAL_AD_GAIN_X2") {
        Some(PrimaryFunction::CAL_AD_GAIN_X2)
    } else if str_eq(t, "CAL_DC_AMP_X5") {
        Some(PrimaryFunction::CAL_DC_AMP_X5)
    } else if str_eq(t, "MV_DC_OVER_AC") {
        Some(PrimaryFunction::MV_DC_OVER_AC)
    } else if str_eq(t, "A_AC") {
        Some(PrimaryFunction::A_AC)
    } else if str_eq(t, "CONTINUITY") {
        Some(PrimaryFunction::CONTINUITY)
    } else if str_eq(t, "MV_AC") {
        Some(PrimaryFunction::MV_AC)
    } else if str_eq(t, "MV_DC") {
        Some(PrimaryFunction::MV_DC)
    } else if str_eq(t, "A_DC_OVER_AC") {
        Some(PrimaryFunction::A_DC_OVER_AC)
    } else if str_eq(t, "CONDUCTANCE") {
        Some(PrimaryFunction::CONDUCTANCE)
    } else if str_eq(t, "V_AC") {
        Some(PrimaryFunction::V_AC)
    } else if str_eq(t, "CAL_AD_GAIN_X1") {
        Some(PrimaryFunction::CAL_AD_GAIN_X1)
    } else if str_eq(t, "CAL_DC_AMP_X10") {
        Some(PrimaryFunction::CAL_DC_AMP_X10)
    } else if str_eq(t, "UA_AC_PLUS_DC") {
        Some(PrimaryFunction::UA_AC_PLUS_DC)
    } else if str_eq(t, "UA_DC_OVER_AC") {
        Some(PrimaryFunction::UA_DC_OVER_AC)
    } else if str_eq(t, "CAL_NINV_AC_AMP") {
        Some(PrimaryFunction::CAL_NINV_AC_AMP)
    } else if str_eq(t, "CAL_ISRC_500NA") {
        Some(PrimaryFunction::CAL_ISRC_500NA)
    } else if str_eq(t, "UA_DC") {
        Some(PrimaryFunction::UA_DC)
    } else if str_eq(t, "UA_AC_OVER_DC") {
        Some(PrimaryFunction::UA_AC_OVER_DC)
    } else if str_eq(t, "A_AC_OVER_DC") {
        Some(PrimaryFunction::A_AC_OVER_DC)
    } else if str_eq(t, "CAL_FILT_AMP") {
        Some(PrimaryFunction::CAL_FILT_AMP)
    } else if str_eq(t, "MA_AC_OVER_DC") {
        Some(PrimaryFunction::MA_AC_OVER_DC)
    } else if str_eq(t, "MA_AC_PLUS_DC") {
        Some(PrimaryFunction::MA_AC_PLUS_DC)
    } else if str_eq(t, "CAL_MV_AC_PEAK") {
        Some(PrimaryFunction::CAL_MV_AC_PEAK)
    } else if str_eq(t, "UA_AC") {
        Some(PrimaryFunction::UA_AC)
    } else if str_eq(t, "MV_AC_OVER_DC") {
        Some(PrimaryFunction::MV_AC_OVER_DC)
    } else if str_eq(t, "CAL_V_DC_LOZ") {
        Some(PrimaryFunction::CAL_V_DC_LOZ)
    } else if str_eq(t, "MA_DC") {
        Some(PrimaryFunction::MA_DC)
    } else if str_eq(t, "DIODE_TEST") {
        Some(PrimaryFunction::DIODE_TEST)
    } else if str_eq(t, "CAL_COMP_TRIM_MV_DC") {
        Some(PrimaryFunction::CAL_COMP_TRIM_MV_DC)
    } else if str_eq(t, "CAL_V_AC_PEAK") {
        Some(PrimaryFunction::CAL_V_AC_PEAK)
    } else if str_eq(t, "A_AC_PLUS_DC") {
        Some(PrimaryFunction::A_AC_PLUS_DC)
    } else {
        None
    }
}

/// The secondary display function.
#[derive(Debug, Clone, Copy, PartialEq, Eq, Structural)]
pub enum SecondaryFunction {
    DbmHertz,
    NoSecondary,
    Dbm,
    Hertz,
    DbvHertz,
    DutyCycle,
    CrestFactor,
    PeakMinMax,
    Dbv,
    PulseWidth,
}

/// The SecondaryFunction that the name `t` of the `secfunction` value map stands for.
pub open spec fn secondary_function_named(t: Seq<char>) -> Option<SecondaryFunction> {
    if t == "DBM_HERTZ"@ {
        Some(SecondaryFunction::DbmHertz)
    } else if t == "NONE"@ {
        Some(SecondaryFunction::NoSecondary)
    } else if t == "DBM"@ {
        Some(SecondaryFunction::Dbm)
    } else if t == "HERTZ"@ {
        Some(SecondaryFunction::Hertz)
    } else if t == "DBV_HERTZ"@ {
        Some(SecondaryFunction::DbvHertz)
    } else if t == "DUTY_CYCLE"@ {
        Some(SecondaryFunction::DutyCycle)
    } else if t == "CREST_FACTOR"@ {
        Some(SecondaryFunction::CrestFactor)
    } else if t == "PEAK_MIN_MAX"@ {
        Some(SecondaryFunction::PeakMinMax)
    } else if t == "DBV"@ {
        Some(SecondaryFunction::Dbv)
    } else if t == "PULSE_WIDTH"@ {
        Some(SecondaryFunction::PulseWidth)
    } else {
        None
    }
}

fn secondary_function_of_name(t: &str) -> (r: Option<SecondaryFunction>)
    ensures
        r == secondary_function_named(t@),
{
    if str_eq(t, "DBM_HERTZ") {
        Some(SecondaryFunction::DbmHertz)
    } else if str_eq(t, "NONE") {
        Some(SecondaryFunction::NoSecondary)
    } else if str_eq(t, "DBM") {
        Some(SecondaryFunction::Dbm)
    } else if str_eq(t, "HERTZ") {
        Some(SecondaryFunction::Hertz)
    } else if str_eq(t, "DBV_HERTZ") {
        Some(SecondaryFunction::DbvHertz)
    } else if str_eq(t, "DUTY_CYCLE") {
        Some(SecondaryFunction::DutyCycle)
    } else if str_eq(t, "CREST_FACTOR") {
        Some(SecondaryFunction::CrestFactor)
    } else if str_eq(t, "PEAK_MIN_MAX") {
        Some(SecondaryFunction::PeakMinMax)
    } else if str_eq(t, "DBV") {
        Some(SecondaryFunction::Dbv)
    } else if str_eq(t, "PULSE_WIDTH") {
        Some(SecondaryFunction::PulseWidth)
    } else {
        None
    }
}

/// One operating mode; several can be active at once.
#[derive(Debug, Clone, Copy, PartialEq, Eq, Structural)]
pub enum Mode {
    LowPassFilter,
    AutoSave,
    Calibration,
    NoMode,
    Hold,
    AutoHold,
    MinMaxAvg,
    Record,
    Rel,
    RelPercent,
}

/// The Mode that the name `t` of the `mode` value map stands for.
pub open spec fn mode_named(t: Seq<char>) -> Option<Mode> {
    if t == "LOW_PASS_FILTER"@ {
        Some(Mode::LowPassFilter)
    } else if t == "AUTO_SAVE"@ {
        Some(Mode::AutoSave)
    } else if t == "CALIBRATION"@ {
        Some(Mode::Calibration)
    } else if t == "NONE"@ {
        Some(Mode::NoMode)
    } else if t == "HOLD"@ {
        Some(Mode::Hold)
    } else if t == "AUTO_HOLD"@ {
        Some(Mode::AutoHold)
    } else if t == "MIN_MAX_AVG"@ {
        Some(Mode::MinMaxAvg)
    } else if t == "RECORD"@ {
        Some(Mode::Record)
    } else if t == "REL"@ {
        Some(Mode::Rel)
    } else if t == "REL_PERCENT"@ {
        Some(Mode::RelPercent)
    } else {
        None
    }
}

fn mode_of_name(t: &str) -> (r: Option<Mode>)
    ensures
        r == mode_named(t@),
{
    if str_eq(t, "LOW_PASS_FILTER") {
        Some(Mode::LowPassFilter)
    } else if str_eq(t, "AUTO_SAVE") {
        Some(Mode::AutoSave)
    } else if str_eq(t, "CALIBRATION") {
        Some(Mode::Calibration)
    } else if str_eq(t, "NONE") {
        Some(Mode::NoMode)
    } else if str_eq(t, "HOLD") {
        Some(Mode::Hold)
    } else if str_eq(t, "AUTO_HOLD") {
        Some(Mode::AutoHold)
    } else if str_eq(t, "MIN_MAX_AVG") {
        Some(Mode::MinMaxAvg)
    } else if str_eq(t, "RECORD") {
        Some(Mode::Record)
    } else if str_eq(t, "REL") {
        Some(Mode::Rel)
    } else if str_eq(t, "REL_PERCENT") {
        Some(Mode::RelPercent)
    } else {
        None
    }
}

/// What a reading's value means.
#[allow(non_camel_case_types)]
#[derive(Debug, Clone, Copy, PartialEq, Eq, Structural)]
pub enum State {
    Normal,
    Discharge,
    OL_Minus,
    Invalid,
    Blank,
    Inactive,
    OL,
    OpenTC,
}

/// The State that the name `t` of the `state` value map stands for.
pub open spec fn state_named(t: Seq<char>) -> Option<State> {
    if t == "NORMAL"@ {
        Some(State::Normal)
    } else if t == "DISCHARGE"@ {
        Some(State::Discharge)
    } else if t == "OL_MINUS"@ {
        Some(State::OL_Minus)
    } else if t == "INVALID"@ {
        Some(State::Invalid)
    } else if t == "BLANK"@ {
        Some(State::Blank)
    } else if t == "INACTIVE"@ {
        Some(State::Inactive)
    } else if t == "OL"@ {
        Some(State::OL)
    } else if t == "OPEN_TC"@ {
        Some(State::OpenTC)
    } else {
        None
    }
}

fn state_of_name(t: &str) -> (r: Option<State>)
    ensures
        r == state_named(t@),
{
    if str_eq(t, "NORMAL") {
        Some(State::Normal)
    } else if str_eq(t, "DISCHARGE") {
        Some(State::Discharge)
    } else if str_eq(t, "OL_MINUS") {
        Some(State::OL_Minus)
    } else if str_eq(t, "INVALID") {
        Some(State::Invalid)
    } else if str_eq(t, "BLANK") {
        Some(State::Blank)
    } else if str_eq(t, "INACTIVE") {
        Some(State::Inactive)
    } else if str_eq(t, "OL") {
        Some(State::OL)
    } else if str_eq(t, "OPEN_TC") {
        Some(State::OpenTC)
    } else {
        None
    }
}

/// Transient condition of a recorded sample.
#[derive(Debug, Clone, Copy, PartialEq, Eq, Structural)]
pub enum TransientState {
    Overload,
    RangeUp,
    NonT,
    OpenTC,
    RangeDown,
}

/// The TransientState that the name `t` of the `transientstate` value map stands for.
pub open spec fn transient_state_named(t: Seq<char>) -> Option<TransientState> {
    if t == "OVERLOAD"@ {
        Some(TransientState::Overload)
    } else if t == "RANGE_UP"@ {
        Some(TransientState::RangeUp)
    } else if t == "NON_T"@ {
        Some(TransientState::NonT)
    } else if t == "OPEN_TC"@ {
        Some(TransientState::OpenTC)
    } else if t == "RANGE_DOWN"@ {
        Some(TransientState::RangeDown)
    } else {
        None
    }
}

fn transient_state_of_name(t: &str) -> (r: Option<TransientState>)
    ensures
        r == transient_state_named(t@),
{
    if str_eq(t, "OVERLOAD") {
        Some(TransientState::Overload)
    } else if str_eq(t, "RANGE_UP") {
        Some(TransientState::RangeUp)
    } else if str_eq(t, "NON_T") {
        Some(TransientState::NonT)
    } else if str_eq(t, "OPEN_TC") {
        Some(TransientState::OpenTC)
    } else if str_eq(t, "RANGE_DOWN") {
        Some(TransientState::RangeDown)
    } else {
        None
    }
}

/// Extra condition attached to a reading.
#[derive(Debug, Clone, Copy, PartialEq, Eq, Structural)]
pub enum Attribute {
    LoOhms,
    ShortCircuit,
    OpenCircuit,
    GoodDiode,
    HighCurrent,
    NegativeEdge,
    GlitchCircuit,
    PositiveEdge,
}

/// The Attribute that the name `t` of the `attribute` value map stands for.
pub open spec fn attribute_named(t: Seq<char>) -> Option<Attribute> {
    if t == "LO_OHMS"@ {
        Some(Attribute::LoOhms)
    } else if t == "SHORT_CIRCUIT"@ {
        Some(Attribute::ShortCircuit)
    } else if t == "OPEN_CIRCUIT"@ {
        Some(Attribute::OpenCircuit)
    } else if t == "GOOD_DIODE"@ {
        Some(Attribute::GoodDiode)
    } else if t == "HIGH_CURRENT"@ {
        Some(Attribute::HighCurrent)
    } else if t == "NEGATIVE_EDGE"@ {
        Some(Attribute::NegativeEdge)
    } else if t == "GLITCH_CIRCUIT"@ {
        Some(Attribute::GlitchCircuit)
    } else if t == "POSITIVE_EDGE"@ {
        Some(Attribute::PositiveEdge)
    } else {
        None
    }
}

fn attribute_of_name(t: &str) -> (r: Option<Attribute>)
    ensures
        r == attribute_named(t@),
{
    if str_eq(t, "LO_OHMS") {
        Some(Attribute::LoOhms)
    } else if str_eq(t, "SHORT_CIRCUIT") {
        Some(Attribute::ShortCircuit)
    } else if str_eq(t, "OPEN_CIRCUIT") {
        Some(Attribute::OpenCircuit)
    } else if str_eq(t, "GOOD_DIODE") {
        Some(Attribute::GoodDiode)
    } else if str_eq(t, "HIGH_CURRENT") {
        Some(Attribute::HighCurrent)
    } else if str_eq(t, "NEGATIVE_EDGE") {
        Some(Attribute::NegativeEdge)
    } else if str_eq(t, "GLITCH_CIRCUIT") {
        Some(Attribute::GlitchCircuit)
    } else if str_eq(t, "POSITIVE_EDGE") {
        Some(Attribute::PositiveEdge)
    } else {
        None
    }
}

/// How a recorded sample was taken.
#[derive(Debug, Clone, Copy, PartialEq, Eq, Structural)]
pub enum RecordType {
    Input,
    Interval,
}

/// The RecordType that the name `t` of the `recordtype` value map stands for.
pub open spec fn record_type_named(t: Seq<char>) -> Option<RecordType> {
    if t == "INPUT"@ {
        Some(RecordType::Input)
    } else if t == "INTERVAL"@ {
        Some(RecordType::Interval)
    } else {
        None
    }
}

fn record_type_of_name(t: &str) -> (r: Option<RecordType>)
    ensures
        r == record_type_named(t@),
{
    if str_eq(t, "INPUT") {
        Some(RecordType::Input)
    } else if str_eq(t, "INTERVAL") {
        Some(RecordType::Interval)
    } else {
        None
    }
}

/// Unit of a reading.
#[allow(non_camel_case_types)]
#[derive(Debug, Clone, Copy, PartialEq, Eq, Structural)]
pub enum Unit {
    Farad,
    NoUnit,
    Percent,
    Seconds,
    AmpereAC,
    VoltAcPlusDc,
    CEL,
    dBV,
    dBm,
    dB,
    AmpereAcPlusDc,
    VoltDC,
    Volt,
    AmpereDC,
    VoltAC,
    Fahrenheit,
    Ohm,
    Siemens,
    Hertz,
    CrestFactor,
    Ampere,
}

/// The Unit that the name `t` of the `unit` value map stands for.
pub open spec fn unit_named(t: Seq<char>) -> Option<Unit> {
    if t == "FAR"@ {
        Some(Unit::Fahrenheit)
    } else if t == "NONE"@ {
        Some(Unit::NoUnit)
    } else if t == "PCT"@ {
        Some(Unit::Percent)
    } else if t == "S"@ {
        Some(Unit::Seconds)
    } else if t == "AAC"@ {
        Some(Unit::AmpereAC)
    } else if t == "VAC_PLUS_DC"@ {
        Some(Unit::VoltAcPlusDc)
    } else if t == "CEL"@ {
        Some(Unit::CEL)
    } else if t == "dBV"@ {
        Some(Unit::dBV)
    } else if t == "dBm"@ {
        Some(Unit::dBm)
    } else if t == "dB"@ {
        Some(Unit::dB)
    } else if t == "AAC_PLUS_DC"@ {
        Some(Unit::AmpereAcPlusDc)
    } else if t == "VDC"@ {
        Some(Unit::VoltDC)
    } else if t == "V"@ {
        Some(Unit::Volt)
    } else if t == "ADC"@ {
        Some(Unit::AmpereDC)
    } else if t == "VAC"@ {
        Some(Unit::VoltAC)
    } else if t == "F"@ {
        Some(Unit::Farad)
    } else if t == "OHM"@ {
        Some(Unit::Ohm)
    } else if t == "SIE"@ {
        Some(Unit::Siemens)
    } else if t == "Hz"@ {
        Some(Unit::Hertz)
    } else if t == "CREST_FACTOR"@ {
        Some(Unit::CrestFactor)
    } else if t == "A"@ {
        Some(Unit::Ampere)
    } else {
        None
    }
}

fn unit_of_name(t: &str) -> (r: Option<Unit>)
    ensures
        r == unit_named(t@),
{
    if str_eq(t, "FAR") {
        Some(Unit::Fahrenheit)
    } else if str_eq(t, "NONE") {
        Some(Unit::NoUnit)
    } else if str_eq(t, "PCT") {
        Some(Unit::Percent)
    } else if str_eq(t, "S") {
        Some(Unit::Seconds)
    } else if str_eq(t, "AAC") {
        Some(Unit::AmpereAC)
    } else if str_eq(t, "VAC_PLUS_DC") {
        Some(Unit::VoltAcPlusDc)
    } else if str_eq(t, "CEL") {
        Some(Unit::CEL)
    } else if str_eq(t, "dBV") {
        Some(Unit::dBV)
    } else if str_eq(t, "dBm") {
        Some(Unit::dBm)
    } else if str_eq(t, "dB") {
        Some(Unit::dB)
    } else if str_eq(t, "AAC_PLUS_DC") {
        Some(Unit::AmpereAcPlusDc)
    } else if str_eq(t, "VDC") {
        Some(Unit::VoltDC)
    } else if str_eq(t, "V") {
        Some(Unit::Volt)
    } else if str_eq(t, "ADC") {
        Some(Unit::AmpereDC)
    } else if str_eq(t, "VAC") {
        Some(Unit::VoltAC)
    } else if str_eq(t, "F") {
        Some(Unit::Farad)
    } else if str_eq(t, "OHM") {
        Some(Unit::Ohm)
    } else if str_eq(t, "SIE") {
        Some(Unit::Siemens)
    } else if str_eq(t, "Hz") {
        Some(Unit::Hertz)
    } else if str_eq(t, "CREST_FACTOR") {
        Some(Unit::CrestFactor)
    } else if str_eq(t, "A") {
        Some(Unit::Ampere)
    } else {
        None
    }
}

/// The boolean that a two-valued map's name stands for.
pub open spec fn flag_named(t: Seq<char>, on: Seq<char>, off: Seq<char>) -> Option<bool> {
    if t == on {
        Some(true)
    } else if t == off {
        Some(false)
    } else {
        None
    }
}

fn flag_of_name(t: &str, on: &str, off: &str) -> (r: Option<bool>)
    ensures
        r == flag_named(t@, on@, off@),
{
    if str_eq(t, on) {
        Some(true)
    } else if str_eq(t, off) {
        Some(false)
    } else {
        None
    }
}

/// Whether the measurement has the lightning bolt (hazardous voltage) on.
#[derive(Debug, Clone, Copy, PartialEq, Eq, Structural)]
pub struct Bolt(pub bool);

/// Whether a recorded sample is stable.
#[derive(Debug, Clone, Copy, PartialEq, Eq, Structural)]
pub struct Stable(pub bool);

/// Whether the range is chosen automatically.
#[derive(Debug, Clone, Copy, PartialEq, Eq, Structural)]
pub struct AutoRange(pub bool);

/// The active operating modes.
#[derive(Debug, Clone, PartialEq, Eq)]
pub struct Modes(pub Vec<Mode>);

impl Modes {
    /// Whether `mode` is active.
    pub fn is(&self, mode: Mode) -> (r: bool)
        ensures
            r == self.0@.contains(mode),
    {
        let mut i: usize = 0;
        while i < self.0.len()
            invariant
                i <= self.0@.len(),
                forall|k: int| 0 <= k < i ==> self.0@[k] != mode,
            decreases self.0@.len() - i,
        {
            if self.0[i] == mode {
                return true;
            }
            i = i + 1;
        }
        false
    }
}

/// Number of mode codes: every `u16` value.
pub const MODE_CODES: u32 = 65536;

/// The modes that the codes below `k` contribute for `value`, in ascending
/// code order: each code whose bits are all set in `value` and that the map
/// names (code 0, the map's "none" entry, always matches).
pub open spec fn modes_upto(value: u16, m: Map<u16, String>, k: int) -> Result<
    Seq<Mode>,
    TranslateError,
>
    decreases k,
{
    if k <= 0 {
        Ok(Seq::empty())
    } else {
        match modes_upto(value, m, k - 1) {
            Err(e) => Err(e),
            Ok(s) => {
                let f = (k - 1) as u16;
                if value & f == f && m.contains_key(f) {
                    match mode_named(m[f]@) {
                        Some(mode) => Ok(s.push(mode)),
                        None => Err(TranslateError::UnknownName(f)),
                    }
                } else {
                    Ok(s)
                }
            },
        }
    }
}

proof fn lemma_modes_error_stays(value: u16, m: Map<u16, String>, k: int, j: int)
    requires
        k <= j,
        modes_upto(value, m, k) is Err,
    ensures
        modes_upto(value, m, j) == modes_upto(value, m, k),
    decreases j - k,
{
    if k < j {
        lemma_modes_error_stays(value, m, k, j - 1);
    }
}

impl Modes {
    /// The modes that the mode word `value` holds, by the `mode` value map:
    /// every entry whose code has all its bits set in `value`.
    pub fn from_code(value: u16, maps: &ValueMaps) -> (r: Result<Modes, TranslateError>)
        ensures
            match r {
                Ok(m) => modes_upto(value, maps.mode@, MODE_CODES as int) == Ok::<
                    Seq<Mode>,
                    TranslateError,
                >(m.0@),
                Err(e) => modes_upto(value, maps.mode@, MODE_CODES as int) == Err::<
                    Seq<Mode>,
                    TranslateError,
                >(e),
            },
    {
        let mut modes: Vec<Mode> = Vec::new();
        let mut k: u32 = 0;
        while k < MODE_CODES
            invariant
                k <= MODE_CODES,
                modes_upto(value, maps.mode@, k as int) == Ok::<Seq<Mode>, TranslateError>(
                    modes@,
                ),
            decreases MODE_CODES - k,
        {
            let f = k as u16;
            if value & f == f {
                match lookup(&maps.mode, f) {
                    Some(name) => match mode_of_name(name.as_str()) {
                        Some(mode) => modes.push(mode),
                        None => {
                            proof {
                                lemma_modes_error_stays(
                                    value,
                                    maps.mode@,
                                    k + 1,
                                    MODE_CODES as int,
                                );
                            }
                            return Err(TranslateError::UnknownName(f));
                        },
                    },
                    None => {},
                }
            }
            k = k + 1;
        }
        Ok(Modes(modes))
    }
}

/// The SI prefix letter of a power-of-ten multiplier; `?` for one without.
pub open spec fn prefix_of(m: i16) -> Seq<char> {
    if m == -12 {
        "p"@
    } else if m == -9 {
        "n"@
    } else if m == -6 {
        "u"@
    } else if m == -3 {
        "m"@
    } else if m == -2 {
        "c"@
    } else if m == -1 {
        "d"@
    } else if m == 0 {
        ""@
    } else if m == 1 {
        "D"@
    } else if m == 2 {
        "h"@
    } else if m == 3 {
        "k"@
    } else if m == 6 {
        "M"@
    } else if m == 9 {
        "G"@
    } else if m == 12 {
        "T"@
    } else {
        "?"@
    }
}

/// The SI prefix that writes a value scaled by `10^unit_multiplier`.
pub fn unit_prefix(unit_multiplier: i16) -> (r: &'static str)
    ensures
        r@ == prefix_of(unit_multiplier),
{
    match unit_multiplier {
        -12 => "p",
        -9 => "n",
        -6 => "u",
        -3 => "m",
        -2 => "c",
        -1 => "d",
        0 => "",
        1 => "D",
        2 => "h",
        3 => "k",
        6 => "M",
        9 => "G",
        12 => "T",
        _ => "?",
    }
}


impl PrimaryFunction {
    /// Translates `code` through the `primfunction` value map.
    pub fn from_code(code: u16, maps: &ValueMaps) -> (r: Result<PrimaryFunction, TranslateError>)
        ensures
            r == primary_function_of_code(maps.primfunction@, code),
    {
        match lookup(&maps.primfunction, code) {
            None => Err(TranslateError::UnknownCode(code)),
            Some(name) => match primary_function_of_name(name.as_str()) {
                Some(v) => Ok(v),
                None => Err(TranslateError::UnknownName(code)),
            },
        }
    }
}

impl SecondaryFunction {
    /// Translates `code` through the `secfunction` value map.
    pub fn from_code(code: u16, maps: &ValueMaps) -> (r: Result<SecondaryFunction, TranslateError>)
        ensures
            r == secondary_function_of_code(maps.secfunction@, code),
    {
        match lookup(&maps.secfunction, code) {
            None => Err(TranslateError::UnknownCode(code)),
            Some(name) => match secondary_function_of_name(name.as_str()) {
                Some(v) => Ok(v),
                None => Err(TranslateError::UnknownName(code)),
            },
        }
    }
}

impl State {
    /// Translates `code` through the `state` value map.
    pub fn from_code(code: u16, maps: &ValueMaps) -> (r: Result<State, TranslateError>)
        ensures
            r == state_of_code(maps.state@, code),
    {
        match lookup(&maps.state, code) {
            None => Err(TranslateError::UnknownCode(code)),
            Some(name) => match state_of_name(name.as_str()) {
                Some(v) => Ok(v),
                None => Err(TranslateError::UnknownName(code)),
            },
        }
    }
}

impl TransientState {
    /// Translates `code` through the `transientstate` value map.
    pub fn from_code(code: u16, maps: &ValueMaps) -> (r: Result<TransientState, TranslateError>)
        ensures
            r == transient_state_of_code(maps.transientstate@, code),
    {
        match lookup(&maps.transientstate, code) {
            None => Err(TranslateError::UnknownCode(code)),
            Some(name) => match transient_state_of_name(name.as_str()) {
                Some(v) => Ok(v),
                None => Err(TranslateError::UnknownName(code)),
            },
        }
    }
}

impl RecordType {
    /// Translates `code` through the `recordtype` value map.
    pub fn from_code(code: u16, maps: &ValueMaps) -> (r: Result<RecordType, TranslateError>)
        ensures
            r == record_type_of_code(maps.recordtype@, code),
    {
        match lookup(&maps.recordtype, code) {
            None => Err(TranslateError::UnknownCode(code)),
            Some(name) => match record_type_of_name(name.as_str()) {
                Some(v) => Ok(v),
                None => Err(TranslateError::UnknownName(code)),
            },
        }
    }
}

impl Unit {
    /// Translates `code` through the `unit` value map.
    pub fn from_code(code: u16, maps: &ValueMaps) -> (r: Result<Unit, TranslateError>)
        ensures
            r == unit_of_code(maps.unit@, code),
    {
        match lookup(&maps.unit, code) {
            None => Err(TranslateError::UnknownCode(code)),
            Some(name) => match unit_of_name(name.as_str()) {
                Some(v) => Ok(v),
                None => Err(TranslateError::UnknownName(code)),
            },
        }
    }
}

impl Bolt {
    /// Translates `code` through the `bolt` value map, where `ON` and
    /// `OFF` are the two names.
    pub fn from_code(code: u16, maps: &ValueMaps) -> (r: Result<Bolt, TranslateError>)
        ensures
            r == bolt_of_code(maps.bolt@, code),
    {
        match lookup(&maps.bolt, code) {
            None => Err(TranslateError::UnknownCode(code)),
            Some(name) => match flag_of_name(name.as_str(), "ON", "OFF") {
                Some(b) => Ok(Bolt(b)),
                None => Err(TranslateError::UnknownName(code)),
            },
        }
    }
}

impl Stable {
    /// Translates `code` through the `isstableflag` value map, where `STABLE` and
    /// `UNSTABLE` are the two names.
    pub fn from_code(code: u16, maps: &ValueMaps) -> (r: Result<Stable, TranslateError>)
        ensures
            r == stable_of_code(maps.isstableflag@, code),
    {
        match lookup(&maps.isstableflag, code) {
            None => Err(TranslateError::UnknownCode(code)),
            Some(name) => match flag_of_name(name.as_str(), "STABLE", "UNSTABLE") {
                Some(b) => Ok(Stable(b)),
                None => Err(TranslateError::UnknownName(code)),
            },
        }
    }
}

impl AutoRange {
    /// Translates `code` through the `autorange` value map, where `AUTO` and
    /// `MANUAL` are the two names.
    pub fn from_code(code: u16, maps: &ValueMaps) -> (r: Result<AutoRange, TranslateError>)
        ensures
            r == auto_range_of_code(maps.autorange@, code),
    {
        match lookup(&maps.autorange, code) {
            None => Err(TranslateError::UnknownCode(code)),
            Some(name) => match flag_of_name(name.as_str(), "AUTO", "MANUAL") {
                Some(b) => Ok(AutoRange(b)),
                None => Err(TranslateError::UnknownName(code)),
            },
        }
    }
}

impl Attribute {
    /// Translates `code` through the `attribute` value map; the name `NONE`
    /// stands for no attribute.
    pub fn from_code(code: u16, maps: &ValueMaps) -> (r: Result<Option<Attribute>, TranslateError>)
        ensures
            r == attribute_of_code(maps.attribute@, code),
    {
        match lookup(&maps.attribute, code) {
            None => Err(TranslateError::UnknownCode(code)),
            Some(name) => if str_eq(name.as_str(), "NONE") {
                Ok(None)
            } else {
                match attribute_of_name(name.as_str()) {
                    Some(a) => Ok(Some(a)),
                    None => Err(TranslateError::UnknownName(code)),
                }
            },
        }
    }
}

/// How a PrimaryFunction is shown to a person.
pub open spec fn primary_function_label(v: PrimaryFunction) -> Seq<char> {
    match v {
        PrimaryFunction::V_DC => "V DC"@,
        PrimaryFunction::TEMPERATURE => "Temperature"@,
        PrimaryFunction::A_DC => "A DC"@,
        PrimaryFunction::V_DC_OVER_AC => "V DC,AC"@,
        PrimaryFunction::V_AC_OVER_DC => "V AC,DC"@,
        PrimaryFunction::CAL_ACDC_AC_COMP => "Calibrate AC/DC AC COMP"@,
        PrimaryFunction::CAL_V_AC_LOZ => "Calibrate V AC LOZ"@,
        PrimaryFunction::LIMBO => "LIMBO"@,
        PrimaryFunction::V_AC_LOZ => "V AC LoZ"@,
        PrimaryFunction::OHMS_LOW => "LoΩ"@,
        PrimaryFunction::CAL_RMS => "Calibrate RMS"@,
        PrimaryFunction::CAL_TEMPERATURE => "Calibrate temperature"@,
        PrimaryFunction::CAPACITANCE => "Capacity"@,
        PrimaryFunction::OHMS => "Ohms"@,
        PrimaryFunction::MA_AC => "mA AC"@,
        PrimaryFunction::V_AC_PLUS_DC => "V AC+DC"@,
        PrimaryFunction::MV_AC_PLUS_DC => "mV AC+DC"@,
        PrimaryFunction::MA_DC_OVER_AC => "mA DC,AC"@,
        PrimaryFunction::CAL_AD_GAIN_X2 => "Calibrate AD"@,
        PrimaryFunction::CAL_DC_AMP_X5 => "Calibrate DC"@,
        PrimaryFunction::MV_DC_OVER_AC => "mV DC,AC"@,
        PrimaryFunction::A_AC => "A AC"@,
        PrimaryFunction::CONTINUITY => "Continuity"@,
        PrimaryFunction::MV_AC => "mV AC"@,
        PrimaryFunction::MV_DC => "mv DC"@,
        PrimaryFunction::A_DC_OVER_AC => "A DC,AC"@,
        PrimaryFunction::CONDUCTANCE => "Conductivity"@,
        PrimaryFunction::V_AC => "V AC"@,
        PrimaryFunction::CAL_AD_GAIN_X1 => "Calibrate AD"@,
        PrimaryFunction::CAL_DC_AMP_X10 => "Calibrate DC"@,
        PrimaryFunction::UA_AC_PLUS_DC => "µA AC+DC"@,
        PrimaryFunction::UA_DC_OVER_AC => "µA DC,AC"@,
        PrimaryFunction::CAL_NINV_AC_AMP => "Calibrate NINV"@,
        PrimaryFunction::CAL_ISRC_500NA => "Calibrate ISRC"@,
        PrimaryFunction::UA_DC => "µA DC"@,
        PrimaryFunction::UA_AC_OVER_DC => "µA AC,DC"@,
        PrimaryFunction::A_AC_OVER_DC => "A AC,DC"@,
        PrimaryFunction::CAL_FILT_AMP => "Calibrate Filter"@,
        PrimaryFunction::MA_AC_OVER_DC => "mA AC,DC"@,
        PrimaryFunction::MA_AC_PLUS_DC => "mA AC+DC"@,
        PrimaryFunction::CAL_MV_AC_PEAK => "Calibrate MV"@,
        PrimaryFunction::UA_AC => "µA AC"@,
        PrimaryFunction::MV_AC_OVER_DC => "mV AC,DC"@,
        PrimaryFunction::CAL_V_DC_LOZ => "Calibrate V DC LoZ"@,
        PrimaryFunction::MA_DC => "mA DC"@,
        PrimaryFunction::DIODE_TEST => "Diode test"@,
        PrimaryFunction::CAL_COMP_TRIM_MV_DC => "Calibrate COMP"@,
        PrimaryFunction::CAL_V_AC_PEAK => "Calibrate V AC Peak"@,
        PrimaryFunction::A_AC_PLUS_DC => "A AC+DC"@,
    }
}

impl PrimaryFunction {
    /// How the value is shown to a person.
    pub fn label(&self) -> (r: &'static str)
        ensures
            r@ == primary_function_label(*self),
    {
        match self {
            PrimaryFunction::V_DC => "V DC",
            PrimaryFunction::TEMPERATURE => "Temperature",
            PrimaryFunction::A_DC => "A DC",
            PrimaryFunction::V_DC_OVER_AC => "V DC,AC",
            PrimaryFunction::V_AC_OVER_DC => "V AC,DC",
            PrimaryFunction::CAL_ACDC_AC_COMP => "Calibrate AC/DC AC COMP",
            PrimaryFunction::CAL_V_AC_LOZ => "Calibrate V AC LOZ",
            PrimaryFunction::LIMBO => "LIMBO",
            PrimaryFunction::V_AC_LOZ => "V AC LoZ",
            PrimaryFunction::OHMS_LOW => "LoΩ",
            PrimaryFunction::CAL_RMS => "Calibrate RMS",
            PrimaryFunction::CAL_TEMPERATURE => "Calibrate temperature",
            PrimaryFunction::CAPACITANCE => "Capacity",
            PrimaryFunction::OHMS => "Ohms",
            PrimaryFunction::MA_AC => "mA AC",
            PrimaryFunction::V_AC_PLUS_DC => "V AC+DC",
            PrimaryFunction::MV_AC_PLUS_DC => "mV AC+DC",
            PrimaryFunction::MA_DC_OVER_AC => "mA DC,AC",
            PrimaryFunction::CAL_AD_GAIN_X2 => "Calibrate AD",
            PrimaryFunction::CAL_DC_AMP_X5 => "Calibrate DC",
            PrimaryFunction::MV_DC_OVER_AC => "mV DC,AC",
            PrimaryFunction::A_AC => "A AC",
            PrimaryFunction::CONTINUITY => "Continuity",
            PrimaryFunction::MV_AC => "mV AC",
            PrimaryFunction::MV_DC => "mv DC",
            PrimaryFunction::A_DC_OVER_AC => "A DC,AC",
            PrimaryFunction::CONDUCTANCE => "Conductivity",
            PrimaryFunction::V_AC => "V AC",
            PrimaryFunction::CAL_AD_GAIN_X1 => "Calibrate AD",
            PrimaryFunction::CAL_DC_AMP_X10 => "Calibrate DC",
            PrimaryFunction::UA_AC_PLUS_DC => "µA AC+DC",
            PrimaryFunction::UA_DC_OVER_AC => "µA DC,AC",
            PrimaryFunction::CAL_NINV_AC_AMP => "Calibrate NINV",
            PrimaryFunction::CAL_ISRC_500NA => "Calibrate ISRC",
            PrimaryFunction::UA_DC => "µA DC",
            PrimaryFunction::UA_AC_OVER_DC => "µA AC,DC",
            PrimaryFunction::A_AC_OVER_DC => "A AC,DC",
            PrimaryFunction::CAL_FILT_AMP => "Calibrate Filter",
            PrimaryFunction::MA_AC_OVER_DC => "mA AC,DC",
            PrimaryFunction::MA_AC_PLUS_DC => "mA AC+DC",
            PrimaryFunction::CAL_MV_AC_PEAK => "Calibrate MV",
            PrimaryFunction::UA_AC => "µA AC",
            PrimaryFunction::MV_AC_OVER_DC => "mV AC,DC",
            PrimaryFunction::CAL_V_DC_LOZ => "Calibrate V DC LoZ",
            PrimaryFunction::MA_DC => "mA DC",
            PrimaryFunction::DIODE_TEST => "Diode test",
            PrimaryFunction::CAL_COMP_TRIM_MV_DC => "Calibrate COMP",
            PrimaryFunction::CAL_V_AC_PEAK => "Calibrate V AC Peak",
            PrimaryFunction::A_AC_PLUS_DC => "A AC+DC",
        }
    }
}

/// How a SecondaryFunction is shown to a person.
pub open spec fn secondary_function_label(v: SecondaryFunction) -> Seq<char> {
    match v {
        SecondaryFunction::DbmHertz => "dBm Hertz"@,
        SecondaryFunction::NoSecondary => "None"@,
        SecondaryFunction::Dbm => "dBm"@,
        SecondaryFunction::Hertz => "Hertz"@,
        SecondaryFunction::DbvHertz => "dBV Hertz"@,
        SecondaryFunction::DutyCycle => "Duty Cycle"@,
        SecondaryFunction::CrestFactor => "Crest Factor"@,
        SecondaryFunction::PeakMinMax => "Peak Min/Max"@,
        SecondaryFunction::Dbv => "dBV"@,
        SecondaryFunction::PulseWidth => "Pulse width"@,
    }
}

impl SecondaryFunction {
    /// How the value is shown to a person.
    pub fn label(&self) -> (r: &'static str)
        ensures
            r@ == secondary_function_label(*self),
    {
        match self {
            SecondaryFunction::DbmHertz => "dBm Hertz",
            SecondaryFunction::NoSecondary => "None",
            SecondaryFunction::Dbm => "dBm",
            SecondaryFunction::Hertz => "Hertz",
            SecondaryFunction::DbvHertz => "dBV Hertz",
            SecondaryFunction::DutyCycle => "Duty Cycle",
            SecondaryFunction::CrestFactor => "Crest Factor",
            SecondaryFunction::PeakMinMax => "Peak Min/Max",
            SecondaryFunction::Dbv => "dBV",
            SecondaryFunction::PulseWidth => "Pulse width",
        }
    }
}

/// How a Mode is shown to a person.
pub open spec fn mode_label(v: Mode) -> Seq<char> {
    match v {
        Mode::LowPassFilter => "Lowpass"@,
        Mode::AutoSave => "Autosave"@,
        Mode::Calibration => "Cal."@,
        Mode::NoMode => "None"@,
        Mode::Hold => "Hold"@,
        Mode::AutoHold => "Autohold"@,
        Mode::MinMaxAvg => "Min/Max/Avg"@,
        Mode::Record => "Recording"@,
        Mode::Rel => "Rel."@,
        Mode::RelPercent => "Rel. %"@,
    }
}

impl Mode {
    /// How the value is shown to a person.
    pub fn label(&self) -> (r: &'static str)
        ensures
            r@ == mode_label(*self),
    {
        match self {
            Mode::LowPassFilter => "Lowpass",
            Mode::AutoSave => "Autosave",
            Mode::Calibration => "Cal.",
            Mode::NoMode => "None",
            Mode::Hold => "Hold",
            Mode::AutoHold => "Autohold",
            Mode::MinMaxAvg => "Min/Max/Avg",
            Mode::Record => "Recording",
            Mode::Rel => "Rel.",
            Mode::RelPercent => "Rel. %",
        }
    }
}

/// How a TransientState is shown to a person.
pub open spec fn transient_state_label(v: TransientState) -> Seq<char> {
    match v {
        TransientState::Overload => "Overload"@,
        TransientState::RangeUp => "Range UP"@,
        TransientState::NonT => "NonT"@,
        TransientState::OpenTC => "Open Thermo element"@,
        TransientState::RangeDown => "Range DOWN"@,
    }
}

impl TransientState {
    /// How the value is shown to a person.
    pub fn label(&self) -> (r: &'static str)
        ensures
            r@ == transient_state_label(*self),
    {
        match self {
            TransientState::Overload => "Overload",
            TransientState::RangeUp => "Range UP",
            TransientState::NonT => "NonT",
            TransientState::OpenTC => "Open Thermo element",
            TransientState::RangeDown => "Range DOWN",
        }
    }
}

/// How a RecordType is shown to a person.
pub open spec fn record_type_label(v: RecordType) -> Seq<char> {
    match v {
        RecordType::Input => "Input"@,
        RecordType::Interval => "Interval"@,
    }
}

impl RecordType {
    /// How the value is shown to a person.
    pub fn label(&self) -> (r: &'static str)
        ensures
            r@ == record_type_label(*self),
    {
        match self {
            RecordType::Input => "Input",
            RecordType::Interval => "Interval",
        }
    }
}

/// How a Unit is shown to a person.
pub open spec fn unit_label(v: Unit) -> Seq<char> {
    match v {
        Unit::Farad => "F"@,
        Unit::NoUnit => ""@,
        Unit::Percent => "%"@,
        Unit::Seconds => "S"@,
        Unit::AmpereAC => "AAC"@,
        Unit::VoltAcPlusDc => "VAC+DC"@,
        Unit::CEL => "°C"@,
        Unit::dBV => "dBV"@,
        Unit::dBm => "dBm"@,
        Unit::dB => "db"@,
        Unit::AmpereAcPlusDc => "AAC+DC"@,
        Unit::VoltDC => "VDC"@,
        Unit::Volt => "V"@,
        Unit::AmpereDC => "ADC"@,
        Unit::VoltAC => "VAC"@,
        Unit::Fahrenheit => "°F"@,
        Unit::Ohm => "Ω"@,
        Unit::Siemens => "S"@,
        Unit::Hertz => "Hz"@,
        Unit::CrestFactor => "CF"@,
        Unit::Ampere => "A"@,
    }
}

impl Unit {
    /// How the value is shown to a person.
    pub fn label(&self) -> (r: &'static str)
        ensures
            r@ == unit_label(*self),
    {
        match self {
            Unit::Farad => "F",
            Unit::NoUnit => "",
            Unit::Percent => "%",
            Unit::Seconds => "S",
            Unit::AmpereAC => "AAC",
            Unit::VoltAcPlusDc => "VAC+DC",
            Unit::CEL => "°C",
            Unit::dBV => "dBV",
            Unit::dBm => "dBm",
            Unit::dB => "db",
            Unit::AmpereAcPlusDc => "AAC+DC",
            Unit::VoltDC => "VDC",
            Unit::Volt => "V",
            Unit::AmpereDC => "ADC",
            Unit::VoltAC => "VAC",
            Unit::Fahrenheit => "°F",
            Unit::Ohm => "Ω",
            Unit::Siemens => "S",
            Unit::Hertz => "Hz",
            Unit::CrestFactor => "CF",
            Unit::Ampere => "A",
        }
    }
}

/// How the attribute is shown to a person.
pub open spec fn attribute_label(v: Attribute) -> Seq<char> {
    match v {
        Attribute::LoOhms => "LoOhm"@,
        Attribute::ShortCircuit => "Short Circuit"@,
        Attribute::OpenCircuit => "Open Circuit"@,
        Attribute::GoodDiode => "Good Diode"@,
        Attribute::HighCurrent => "High Current"@,
        Attribute::NegativeEdge => "Negative Edge"@,
        Attribute::GlitchCircuit => "Glitch Circuit"@,
        Attribute::PositiveEdge => "Positive Edge"@,
    }
}

/// The compact form of the label, with symbols.
pub open spec fn attribute_short_label(v: Attribute) -> Seq<char> {
    match v {
        Attribute::LoOhms => "LoΩ"@,
        Attribute::ShortCircuit => "ShortC"@,
        Attribute::OpenCircuit => "OpenC"@,
        Attribute::GoodDiode => "Diode OK"@,
        Attribute::HighCurrent => "High Current"@,
        Attribute::NegativeEdge => "⬎"@,
        Attribute::GlitchCircuit => "Glitch Circuit"@,
        Attribute::PositiveEdge => "⬏"@,
    }
}

impl Attribute {
    /// How the attribute is shown to a person.
    pub fn label(&self) -> (r: &'static str)
        ensures
            r@ == attribute_label(*self),
    {
        match self {
            Attribute::LoOhms => "LoOhm",
            Attribute::ShortCircuit => "Short Circuit",
            Attribute::OpenCircuit => "Open Circuit",
            Attribute::GoodDiode => "Good Diode",
            Attribute::HighCurrent => "High Current",
            Attribute::NegativeEdge => "Negative Edge",
            Attribute::GlitchCircuit => "Glitch Circuit",
            Attribute::PositiveEdge => "Positive Edge",
        }
    }

    /// The compact form of the label, with symbols.
    pub fn short_label(&self) -> (r: &'static str)
        ensures
            r@ == attribute_short_label(*self),
    {
        match self {
            Attribute::LoOhms => "LoΩ",
            Attribute::ShortCircuit => "ShortC",
            Attribute::OpenCircuit => "OpenC",
            Attribute::GoodDiode => "Diode OK",
            Attribute::HighCurrent => "High Current",
            Attribute::NegativeEdge => "⬎",
            Attribute::GlitchCircuit => "Glitch Circuit",
            Attribute::PositiveEdge => "⬏",
        }
    }
}

/// The modes, less the one that stands for none, each by its label,
/// separated by a comma and a space.
pub open spec fn modes_label(m: Seq<Mode>) -> Seq<char>
    decreases m.len(),
{
    if m.len() == 0 {
        Seq::empty()
    } else if m.last() == Mode::NoMode {
        modes_label(m.drop_last())
    } else if modes_label(m.drop_last()).len() == 0 {
        mode_label(m.last())
    } else {
        modes_label(m.drop_last()) + ", "@ + mode_label(m.last())
    }
}

impl Modes {
    /// The active modes as shown to a person.
    pub fn label(&self) -> (r: String)
        ensures
            r@ == modes_label(self.0@),
    {
        let mut out = String::new();
        let mut i: usize = 0;
        while i < self.0.len()
            invariant
                i <= self.0@.len(),
                out@ == modes_label(self.0@.subrange(0, i as int)),
            decreases self.0@.len() - i,
        {
            let ghost pre = self.0@.subrange(0, i as int);
            assert(self.0@.subrange(0, i + 1).drop_last() =~= pre);
            let m = self.0[i];
            if m != Mode::NoMode {
                if out.as_str().unicode_len() == 0 {
                    out = String::from_str(m.label());
                } else {
                    out.append(", ");
                    out.append(m.label());
                }
            }
            i = i + 1;
        }
        assert(self.0@.subrange(0, self.0@.len() as int) =~= self.0@);
        out
    }
}

/// The exponent field of a double's bit pattern.
pub open spec fn exponent_of(bits: u64) -> int {
    (bits / 0x0010_0000_0000_0000) as int % 2048
}

/// A time stamp holds a device clock time: its double is finite and not
/// zero (of either sign). Zero, infinities and NaN stand for no clock time.
pub open spec fn clock_time(ts: u64) -> bool {
    exponent_of(ts) != 2047 && ts % 0x8000_0000_0000_0000 != 0
}

/// Whether a record's time stamp holds a device clock time.
pub fn has_clock_time(ts: u64) -> (r: bool)
    ensures
        r == clock_time(ts),
{
    let e = (ts / 0x0010_0000_0000_0000) % 2048;
    e != 2047 && ts % 0x8000_0000_0000_0000 != 0
}

/// What translating `code` through the `primfunction` value map `m` gives.
pub open spec fn primary_function_of_code(m: Map<u16, String>, code: u16) -> Result<PrimaryFunction, TranslateError> {
    translated(m, code, |t| primary_function_named(t))
}

/// What translating `code` through the `secfunction` value map `m` gives.
pub open spec fn secondary_function_of_code(m: Map<u16, String>, code: u16) -> Result<SecondaryFunction, TranslateError> {
    translated(m, code, |t| secondary_function_named(t))
}

/// What translating `code` through the `state` value map `m` gives.
pub open spec fn state_of_code(m: Map<u16, String>, code: u16) -> Result<State, TranslateError> {
    translated(m, code, |t| state_named(t))
}

/// What translating `code` through the `transientstate` value map `m` gives.
pub open spec fn transient_state_of_code(m: Map<u16, String>, code: u16) -> Result<TransientState, TranslateError> {
    translated(m, code, |t| transient_state_named(t))
}

/// What translating `code` through the `recordtype` value map `m` gives.
pub open spec fn record_type_of_code(m: Map<u16, String>, code: u16) -> Result<RecordType, TranslateError> {
    translated(m, code, |t| record_type_named(t))
}

/// What translating `code` through the `unit` value map `m` gives.
pub open spec fn unit_of_code(m: Map<u16, String>, code: u16) -> Result<Unit, TranslateError> {
    translated(m, code, |t| unit_named(t))
}

/// What translating `code` through the `bolt` value map `m` gives.
pub open spec fn bolt_of_code(m: Map<u16, String>, code: u16) -> Result<Bolt, TranslateError> {
    translated(m, code, |t| match flag_named(t, "ON"@, "OFF"@) {
                Some(b) => Some(Bolt(b)),
                None => None,
            })
}

/// What translating `code` through the `isstableflag` value map `m` gives.
pub open spec fn stable_of_code(m: Map<u16, String>, code: u16) -> Result<Stable, TranslateError> {
    translated(m, code, |t| match flag_named(t, "STABLE"@, "UNSTABLE"@) {
                Some(b) => Some(Stable(b)),
                None => None,
            })
}

/// What translating `code` through the `autorange` value map `m` gives.
pub open spec fn auto_range_of_code(m: Map<u16, String>, code: u16) -> Result<AutoRange, TranslateError> {
    translated(m, code, |t| match flag_named(t, "AUTO"@, "MANUAL"@) {
                Some(b) => Some(AutoRange(b)),
                None => None,
            })
}

/// What translating `code` through the `attribute` value map `m` gives.
pub open spec fn attribute_of_code(m: Map<u16, String>, code: u16) -> Result<Option<Attribute>, TranslateError> {
    translated(m, code, |t: Seq<char>| if t == "NONE"@ {
                    Some(None)
                } else {
                    match attribute_named(t) {
                        Some(a) => Some(Some(a)),
                        None => None,
                    }
                },)
}

/// The modes that the mode word `value` holds, by the mode value map `m`.
pub open spec fn modes_of_code(m: Map<u16, String>, value: u16) -> Result<Seq<Mode>, TranslateError> {
    modes_upto(value, m, MODE_CODES as int)
}

/// A reading with its codes translated. Its value and time stamp stay the
/// bit patterns of the doubles.
#[derive(Debug, Clone, Copy, PartialEq, Eq, Structural)]
pub struct Reading {
    pub reading_id: u16,
    /// Bit pattern of the value.
    pub value: u64,
    pub unit: Unit,
    pub unit_multiplier: i16,
    pub decimals: i16,
    pub display_digits: i16,
    pub state: State,
    pub attribute: Option<Attribute>,
    /// Bit pattern of the time of the reading.
    pub ts: u64,
}

/// What translating the codes of a raw reading gives: the first code that
/// fails to translate (unit, state, attribute), or the reading.
pub open spec fn reading_of(raw: RawReading, maps: ValueMaps) -> Result<Reading, TranslateError> {
    let unit = unit_of_code(maps.unit@, raw.unit);
    let state = state_of_code(maps.state@, raw.state);
    let attribute = attribute_of_code(maps.attribute@, raw.attribute);
    if unit is Err {
        Err(unit->Err_0)
    } else if state is Err {
        Err(state->Err_0)
    } else if attribute is Err {
        Err(attribute->Err_0)
    } else {
        Ok(
            Reading {
                reading_id: raw.reading_id,
                value: raw.value,
                unit: unit->Ok_0,
                unit_multiplier: raw.unit_multiplier,
                decimals: raw.decimals,
                display_digits: raw.display_digits,
                state: state->Ok_0,
                attribute: attribute->Ok_0,
                ts: raw.ts,
            },
        )
    }
}

/// The readings translated one by one, or the first failure.
pub open spec fn readings_of(raws: Seq<RawReading>, maps: ValueMaps) -> Result<Seq<Reading>, TranslateError>
    decreases raws.len(),
{
    if raws.len() == 0 {
        Ok(Seq::empty())
    } else {
        match readings_of(raws.drop_last(), maps) {
            Err(e) => Err(e),
            Ok(s) => match reading_of(raws.last(), maps) {
                Err(e) => Err(e),
                Ok(r) => Ok(s.push(r)),
            },
        }
    }
}

proof fn lemma_readings_error_stays(raws: Seq<RawReading>, maps: ValueMaps, k: int)
    requires
        0 <= k <= raws.len(),
        readings_of(raws.subrange(0, k), maps) is Err,
    ensures
        readings_of(raws, maps) == readings_of(raws.subrange(0, k), maps),
    decreases raws.len() - k,
{
    if k < raws.len() {
        let next = raws.subrange(0, k + 1);
        assert(next.drop_last() =~= raws.subrange(0, k));
        lemma_readings_error_stays(raws, maps, k + 1);
    } else {
        assert(raws.subrange(0, k) =~= raws);
    }
}

impl Reading {
    /// Translates the codes of `raw` through the value maps.
    pub fn from_raw(raw: &RawReading, maps: &ValueMaps) -> (r: Result<Reading, TranslateError>)
        ensures
            r == reading_of(*raw, *maps),
    {
        let unit = Unit::from_code(raw.unit, maps)?;
        let state = State::from_code(raw.state, maps)?;
        let attribute = Attribute::from_code(raw.attribute, maps)?;
        Ok(
            Reading {
                reading_id: raw.reading_id,
                value: raw.value,
                unit,
                unit_multiplier: raw.unit_multiplier,
                decimals: raw.decimals,
                display_digits: raw.display_digits,
                state,
                attribute,
                ts: raw.ts,
            },
        )
    }
}

/// Translates each of `raws`, stopping at the first failure.
pub fn translate_readings(raws: &Vec<RawReading>, maps: &ValueMaps) -> (r: Result<Vec<Reading>, TranslateError>)
    ensures
        match r {
            Ok(v) => readings_of(raws@, *maps) == Ok::<Seq<Reading>, TranslateError>(v@),
            Err(e) => readings_of(raws@, *maps) == Err::<Seq<Reading>, TranslateError>(e),
        },
{
    let mut out: Vec<Reading> = Vec::new();
    let mut i: usize = 0;
    assert(raws@.subrange(0, 0) =~= Seq::<RawReading>::empty());
    while i < raws.len()
        invariant
            i <= raws@.len(),
            readings_of(raws@.subrange(0, i as int), *maps) == Ok::<Seq<Reading>, TranslateError>(
                out@,
            ),
        decreases raws@.len() - i,
    {
        let ghost next = raws@.subrange(0, i + 1);
        assert(next.drop_last() =~= raws@.subrange(0, i as int));
        match Reading::from_raw(&raws[i], maps) {
            Ok(reading) => out.push(reading),
            Err(e) => {
                proof {
                    lemma_readings_error_stays(raws@, *maps, i + 1);
                }
                return Err(e);
            },
        }
        i = i + 1;
    }
    assert(raws@.subrange(0, raws@.len() as int) =~= raws@);
    Ok(out)
}

/// The live measurement with its codes translated.
#[derive(Debug, Clone)]
pub struct Measurement {
    pub pri_function: PrimaryFunction,
    pub sec_function: SecondaryFunction,
    pub auto_range: AutoRange,
    pub unit: Unit,
    /// Bit pattern of the double.
    pub range_max: u64,
    pub unit_multiplier: i16,
    pub bolt: Bolt,
    /// Bit pattern of the device clock time; none when the stamp is zero
    /// or not finite, which means the device supplied no clock time.
    pub ts: Option<u64>,
    pub modes: Modes,
    pub readings: Vec<Reading>,
}

/// What translating the raw record gives: the first code that fails to
/// translate, in field order, or the record.
pub open spec fn measurement_result(raw: RawMeasurement, maps: ValueMaps, r: Result<Measurement, TranslateError>) -> bool {
    let pri_function = primary_function_of_code(maps.primfunction@, raw.pri_function);
    let sec_function = secondary_function_of_code(maps.secfunction@, raw.sec_function);
    let auto_range = auto_range_of_code(maps.autorange@, raw.auto_range);
    let unit = unit_of_code(maps.unit@, raw.unit);
    let bolt = bolt_of_code(maps.bolt@, raw.bolt);
    let modes = modes_of_code(maps.mode@, raw.modes);
    let readings = readings_of(raw.readings@, maps);
    if pri_function is Err {
        r == Err::<Measurement, TranslateError>(pri_function->Err_0)
    } else if sec_function is Err {
        r == Err::<Measurement, TranslateError>(sec_function->Err_0)
    } else if auto_range is Err {
        r == Err::<Measurement, TranslateError>(auto_range->Err_0)
    } else if unit is Err {
        r == Err::<Measurement, TranslateError>(unit->Err_0)
    } else if bolt is Err {
        r == Err::<Measurement, TranslateError>(bolt->Err_0)
    } else if modes is Err {
        r == Err::<Measurement, TranslateError>(modes->Err_0)
    } else if readings is Err {
        r == Err::<Measurement, TranslateError>(readings->Err_0)
    } else {
        &&& r is Ok
        &&& r->Ok_0.pri_function == pri_function->Ok_0
        &&& r->Ok_0.sec_function == sec_function->Ok_0
        &&& r->Ok_0.auto_range == auto_range->Ok_0
        &&& r->Ok_0.unit == unit->Ok_0
        &&& r->Ok_0.range_max == raw.range_max
        &&& r->Ok_0.unit_multiplier == raw.unit_multiplier
        &&& r->Ok_0.bolt == bolt->Ok_0
        &&& r->Ok_0.ts == (if clock_time(raw.ts) {
            Some(raw.ts)
        } else {
            None
        })
        &&& r->Ok_0.modes.0@ == modes->Ok_0
        &&& r->Ok_0.readings@ == readings->Ok_0
    }
}

impl Measurement {
    /// Translates the codes of `raw` through the value maps.
    pub fn from_raw(raw: &RawMeasurement, maps: &ValueMaps) -> (r: Result<Measurement, TranslateError>)
        ensures
            measurement_result(*raw, *maps, r),
    {
        let pri_function = PrimaryFunction::from_code(raw.pri_function, maps)?;
        let sec_function = SecondaryFunction::from_code(raw.sec_function, maps)?;
        let auto_range = AutoRange::from_code(raw.auto_range, maps)?;
        let unit = Unit::from_code(raw.unit, maps)?;
        let bolt = Bolt::from_code(raw.bolt, maps)?;
        let modes = Modes::from_code(raw.modes, maps)?;
        let readings = translate_readings(&raw.readings, maps)?;
        let out = Measurement {
            pri_function,
            sec_function,
            auto_range,
            unit,
            range_max: raw.range_max,
            unit_multiplier: raw.unit_multiplier,
            bolt,
            ts: if has_clock_time(raw.ts) {
                Some(raw.ts)
            } else {
                None
            },
            modes,
            readings,
        };
        Ok(out)
    }
}

/// A saved measurement with its codes translated.
#[derive(Debug, Clone)]
pub struct SavedMeasurement {
    pub seq_no: u16,
    pub pri_function: PrimaryFunction,
    pub sec_function: SecondaryFunction,
    pub auto_range: AutoRange,
    pub unit: Unit,
    /// Bit pattern of the double.
    pub range_max: u64,
    pub unit_multiplier: i16,
    pub bolt: Bolt,
    pub modes: Modes,
    pub readings: Vec<Reading>,
    pub name: String,
}

/// What translating the raw record gives: the first code that fails to
/// translate, in field order, or the record.
pub open spec fn saved_measurement_result(raw: RawSavedMeasurement, maps: ValueMaps, r: Result<SavedMeasurement, TranslateError>) -> bool {
    let pri_function = primary_function_of_code(maps.primfunction@, raw.pri_function);
    let sec_function = secondary_function_of_code(maps.secfunction@, raw.sec_function);
    let auto_range = auto_range_of_code(maps.autorange@, raw.auto_range);
    let unit = unit_of_code(maps.unit@, raw.unit);
    let bolt = bolt_of_code(maps.bolt@, raw.bolt);
    let modes = modes_of_code(maps.mode@, raw.modes);
    let readings = readings_of(raw.readings@, maps);
    if pri_function is Err {
        r == Err::<SavedMeasurement, TranslateError>(pri_function->Err_0)
    } else if sec_function is Err {
        r == Err::<SavedMeasurement, TranslateError>(sec_function->Err_0)
    } else if auto_range is Err {
        r == Err::<SavedMeasurement, TranslateError>(auto_range->Err_0)
    } else if unit is Err {
        r == Err::<SavedMeasurement, TranslateError>(unit->Err_0)
    } else if bolt is Err {
        r == Err::<SavedMeasurement, TranslateError>(bolt->Err_0)
    } else if modes is Err {
        r == Err::<SavedMeasurement, TranslateError>(modes->Err_0)
    } else if readings is Err {
        r == Err::<SavedMeasurement, TranslateError>(readings->Err_0)
    } else {
        &&& r is Ok
        &&& r->Ok_0.seq_no == raw.seq_no
        &&& r->Ok_0.pri_function == pri_function->Ok_0
        &&& r->Ok_0.sec_function == sec_function->Ok_0
        &&& r->Ok_0.auto_range == auto_range->Ok_0
        &&& r->Ok_0.unit == unit->Ok_0
        &&& r->Ok_0.range_max == raw.range_max
        &&& r->Ok_0.unit_multiplier == raw.unit_multiplier
        &&& r->Ok_0.bolt == bolt->Ok_0
        &&& r->Ok_0.modes.0@ == modes->Ok_0
        &&& r->Ok_0.readings@ == readings->Ok_0
        &&& r->Ok_0.name@ == raw.name@
    }
}

impl SavedMeasurement {
    /// Translates the codes of `raw` through the value maps.
    pub fn from_raw(raw: &RawSavedMeasurement, maps: &ValueMaps) -> (r: Result<SavedMeasurement, TranslateError>)
        ensures
            saved_measurement_result(*raw, *maps, r),
    {
        let pri_function = PrimaryFunction::from_code(raw.pri_function, maps)?;
        let sec_function = SecondaryFunction::from_code(raw.sec_function, maps)?;
        let auto_range = AutoRange::from_code(raw.auto_range, maps)?;
        let unit = Unit::from_code(raw.unit, maps)?;
        let bolt = Bolt::from_code(raw.bolt, maps)?;
        let modes = Modes::from_code(raw.modes, maps)?;
        let readings = translate_readings(&raw.readings, maps)?;
        let out = SavedMeasurement {
            seq_no: raw.seq_no,
            pri_function,
            sec_function,
            auto_range,
            unit,
            range_max: raw.range_max,
            unit_multiplier: raw.unit_multiplier,
            bolt,
            modes,
            readings,
            name: raw.name.clone(),
        };
        Ok(out)
    }
}

/// A saved min/max or peak session with its codes translated.
#[derive(Debug, Clone)]
pub struct SavedMinMaxMeasurement {
    pub seq_no: u16,
    /// Bit pattern of the double.
    pub ts1: u64,
    /// Bit pattern of the double.
    pub ts2: u64,
    pub pri_function: PrimaryFunction,
    pub sec_function: SecondaryFunction,
    pub auto_range: AutoRange,
    pub unit: Unit,
    /// Bit pattern of the double.
    pub range_max: u64,
    pub unit_multiplier: i16,
    pub bolt: Bolt,
    /// Bit pattern of the double.
    pub ts3: u64,
    pub modes: Modes,
    pub readings: Vec<Reading>,
    pub name: String,
}

/// What translating the raw record gives: the first code that fails to
/// translate, in field order, or the record.
pub open spec fn saved_min_max_measurement_result(raw: RawSavedMinMaxMeasurement, maps: ValueMaps, r: Result<SavedMinMaxMeasurement, TranslateError>) -> bool {
    let pri_function = primary_function_of_code(maps.primfunction@, raw.pri_function);
    let sec_function = secondary_function_of_code(maps.secfunction@, raw.sec_function);
    let auto_range = auto_range_of_code(maps.autorange@, raw.auto_range);
    let unit = unit_of_code(maps.unit@, raw.unit);
    let bolt = bolt_of_code(maps.bolt@, raw.bolt);
    let modes = modes_of_code(maps.mode@, raw.modes);
    let readings = readings_of(raw.readings@, maps);
    if pri_function is Err {
        r == Err::<SavedMinMaxMeasurement, TranslateError>(pri_function->Err_0)
    } else if sec_function is Err {
        r == Err::<SavedMinMaxMeasurement, TranslateError>(sec_function->Err_0)
    } else if auto_range is Err {
        r == Err::<SavedMinMaxMeasurement, TranslateError>(auto_range->Err_0)
    } else if unit is Err {
        r == Err::<SavedMinMaxMeasurement, TranslateError>(unit->Err_0)
    } else if bolt is Err {
        r == Err::<SavedMinMaxMeasurement, TranslateError>(bolt->Err_0)
    } else if modes is Err {
        r == Err::<SavedMinMaxMeasurement, TranslateError>(modes->Err_0)
    } else if readings is Err {
        r == Err::<SavedMinMaxMeasurement, TranslateError>(readings->Err_0)
    } else {
        &&& r is Ok
        &&& r->Ok_0.seq_no == raw.seq_no
        &&& r->Ok_0.ts1 == raw.ts1
        &&& r->Ok_0.ts2 == raw.ts2
        &&& r->Ok_0.pri_function == pri_function->Ok_0
        &&& r->Ok_0.sec_function == sec_function->Ok_0
        &&& r->Ok_0.auto_range == auto_range->Ok_0
        &&& r->Ok_0.unit == unit->Ok_0
        &&& r->Ok_0.range_max == raw.range_max
        &&& r->Ok_0.unit_multiplier == raw.unit_multiplier
        &&& r->Ok_0.bolt == bolt->Ok_0
        &&& r->Ok_0.ts3 == raw.ts3
        &&& r->Ok_0.modes.0@ == modes->Ok_0
        &&& r->Ok_0.readings@ == readings->Ok_0
        &&& r->Ok_0.name@ == raw.name@
    }
}

impl SavedMinMaxMeasurement {
    /// Translates the codes of `raw` through the value maps.
    pub fn from_raw(raw: &RawSavedMinMaxMeasurement, maps: &ValueMaps) -> (r: Result<SavedMinMaxMeasurement, TranslateError>)
        ensures
            saved_min_max_measurement_result(*raw, *maps, r),
    {
        let pri_function = PrimaryFunction::from_code(raw.pri_function, maps)?;
        let sec_function = SecondaryFunction::from_code(raw.sec_function, maps)?;
        let auto_range = AutoRange::from_code(raw.auto_range, maps)?;
        let unit = Unit::from_code(raw.unit, maps)?;
        let bolt = Bolt::from_code(raw.bolt, maps)?;
        let modes = Modes::from_code(raw.modes, maps)?;
        let readings = translate_readings(&raw.readings, maps)?;
        let out = SavedMinMaxMeasurement {
            seq_no: raw.seq_no,
            ts1: raw.ts1,
            ts2: raw.ts2,
            pri_function,
            sec_function,
            auto_range,
            unit,
            range_max: raw.range_max,
            unit_multiplier: raw.unit_multiplier,
            bolt,
            ts3: raw.ts3,
            modes,
            readings,
            name: raw.name.clone(),
        };
        Ok(out)
    }
}

/// A saved recording session with its codes translated.
#[derive(Debug, Clone)]
pub struct SavedRecordingSessionInfo {
    pub seq_no: u16,
    /// Bit pattern of the double.
    pub start_ts: u64,
    /// Bit pattern of the double.
    pub end_ts: u64,
    /// Bit pattern of the double.
    pub sample_interval: u64,
    /// Bit pattern of the double.
    pub event_threshold: u64,
    pub reading_index: u16,
    pub num_samples: u16,
    pub pri_function: PrimaryFunction,
    pub sec_function: SecondaryFunction,
    pub auto_range: AutoRange,
    pub unit: Unit,
    /// Bit pattern of the double.
    pub range_max: u64,
    pub unit_multiplier: i16,
    pub bolt: Bolt,
    pub modes: Modes,
    pub readings: Vec<Reading>,
    pub name: String,
}

/// What translating the raw record gives: the first code that fails to
/// translate, in field order, or the record.
pub open spec fn saved_recording_session_info_result(raw: RawSavedRecordingSessionInfo, maps: ValueMaps, r: Result<SavedRecordingSessionInfo, TranslateError>) -> bool {
    let pri_function = primary_function_of_code(maps.primfunction@, raw.pri_function);
    let sec_function = secondary_function_of_code(maps.secfunction@, raw.sec_function);
    let auto_range = auto_range_of_code(maps.autorange@, raw.auto_range);
    let unit = unit_of_code(maps.unit@, raw.unit);
    let bolt = bolt_of_code(maps.bolt@, raw.bolt);
    let modes = modes_of_code(maps.mode@, raw.modes);
    let readings = readings_of(raw.readings@, maps);
    if pri_function is Err {
        r == Err::<SavedRecordingSessionInfo, TranslateError>(pri_function->Err_0)
    } else if sec_function is Err {
        r == Err::<SavedRecordingSessionInfo, TranslateError>(sec_function->Err_0)
    } else if auto_range is Err {
        r == Err::<SavedRecordingSessionInfo, TranslateError>(auto_range->Err_0)
    } else if unit is Err {
        r == Err::<SavedRecordingSessionInfo, TranslateError>(unit->Err_0)
    } else if bolt is Err {
        r == Err::<SavedRecordingSessionInfo, TranslateError>(bolt->Err_0)
    } else if modes is Err {
        r == Err::<SavedRecordingSessionInfo, TranslateError>(modes->Err_0)
    } else if readings is Err {
        r == Err::<SavedRecordingSessionInfo, TranslateError>(readings->Err_0)
    } else {
        &&& r is Ok
        &&& r->Ok_0.seq_no == raw.seq_no
        &&& r->Ok_0.start_ts == raw.start_ts
        &&& r->Ok_0.end_ts == raw.end_ts
        &&& r->Ok_0.sample_interval == raw.sample_interval
        &&& r->Ok_0.event_threshold == raw.event_threshold
        &&& r->Ok_0.reading_index == raw.reading_index
        &&& r->Ok_0.num_samples == raw.num_samples
        &&& r->Ok_0.pri_function == pri_function->Ok_0
        &&& r->Ok_0.sec_function == sec_function->Ok_0
        &&& r->Ok_0.auto_range == auto_range->Ok_0
        &&& r->Ok_0.unit == unit->Ok_0
        &&& r->Ok_0.range_max == raw.range_max
        &&& r->Ok_0.unit_multiplier == raw.unit_multiplier
        &&& r->Ok_0.bolt == bolt->Ok_0
        &&& r->Ok_0.modes.0@ == modes->Ok_0
        &&& r->Ok_0.readings@ == readings->Ok_0
        &&& r->Ok_0.name@ == raw.name@
    }
}

impl SavedRecordingSessionInfo {
    /// Translates the codes of `raw` through the value maps.
    pub fn from_raw(raw: &RawSavedRecordingSessionInfo, maps: &ValueMaps) -> (r: Result<SavedRecordingSessionInfo, TranslateError>)
        ensures
            saved_recording_session_info_result(*raw, *maps, r),
    {
        let pri_function = PrimaryFunction::from_code(raw.pri_function, maps)?;
        let sec_function = SecondaryFunction::from_code(raw.sec_function, maps)?;
        let auto_range = AutoRange::from_code(raw.auto_range, maps)?;
        let unit = Unit::from_code(raw.unit, maps)?;
        let bolt = Bolt::from_code(raw.bolt, maps)?;
        let modes = Modes::from_code(raw.modes, maps)?;
        let readings = translate_readings(&raw.readings, maps)?;
        let out = SavedRecordingSessionInfo {
            seq_no: raw.seq_no,
            start_ts: raw.start_ts,
            end_ts: raw.end_ts,
            sample_interval: raw.sample_interval,
            event_threshold: raw.event_threshold,
            reading_index: raw.reading_index,
            num_samples: raw.num_samples,
            pri_function,
            sec_function,
            auto_range,
            unit,
            range_max: raw.range_max,
            unit_multiplier: raw.unit_multiplier,
            bolt,
            modes,
            readings,
            name: raw.name.clone(),
        };
        Ok(out)
    }
}

/// One page of a recording's samples with its codes translated.
#[derive(Debug, Clone, Copy)]
pub struct SessionRecordReadings {
    /// Bit pattern of the double.
    pub start_ts: u64,
    /// Bit pattern of the double.
    pub end_ts: u64,
    /// Maximum, minimum and running sum of the span.
    pub span_readings: [Reading; 3],
    pub sampling: u16,
    pub fixed_reading: Reading,
    pub record_type: RecordType,
    pub stable: Stable,
    pub transient_state: TransientState,
}

/// What translating the raw record gives: the first code that fails to
/// translate, in field order, or the record.
pub open spec fn session_record_readings_result(raw: RawSessionRecordReadings, maps: ValueMaps, r: Result<SessionRecordReadings, TranslateError>) -> bool {
    let span_readings_0 = reading_of(raw.span_readings[0], maps);
    let span_readings_1 = reading_of(raw.span_readings[1], maps);
    let span_readings_2 = reading_of(raw.span_readings[2], maps);
    let fixed_reading = reading_of(raw.fixed_reading, maps);
    let record_type = record_type_of_code(maps.recordtype@, raw.record_type);
    let stable = stable_of_code(maps.isstableflag@, raw.stable);
    let transient_state = transient_state_of_code(maps.transientstate@, raw.transient_state);
    if span_readings_0 is Err {
        r == Err::<SessionRecordReadings, TranslateError>(span_readings_0->Err_0)
    } else if span_readings_1 is Err {
        r == Err::<SessionRecordReadings, TranslateError>(span_readings_1->Err_0)
    } else if span_readings_2 is Err {
        r == Err::<SessionRecordReadings, TranslateError>(span_readings_2->Err_0)
    } else if fixed_reading is Err {
        r == Err::<SessionRecordReadings, TranslateError>(fixed_reading->Err_0)
    } else if record_type is Err {
        r == Err::<SessionRecordReadings, TranslateError>(record_type->Err_0)
    } else if stable is Err {
        r == Err::<SessionRecordReadings, TranslateError>(stable->Err_0)
    } else if transient_state is Err {
        r == Err::<SessionRecordReadings, TranslateError>(transient_state->Err_0)
    } else {
        &&& r is Ok
        &&& r->Ok_0.start_ts == raw.start_ts
        &&& r->Ok_0.end_ts == raw.end_ts
        &&& r->Ok_0.span_readings@ == seq![span_readings_0->Ok_0, span_readings_1->Ok_0, span_readings_2->Ok_0]
        &&& r->Ok_0.sampling == raw.sampling
        &&& r->Ok_0.fixed_reading == fixed_reading->Ok_0
        &&& r->Ok_0.record_type == record_type->Ok_0
        &&& r->Ok_0.stable == stable->Ok_0
        &&& r->Ok_0.transient_state == transient_state->Ok_0
    }
}

impl SessionRecordReadings {
    /// Translates the codes of `raw` through the value maps.
    pub fn from_raw(raw: &RawSessionRecordReadings, maps: &ValueMaps) -> (r: Result<SessionRecordReadings, TranslateError>)
        ensures
            session_record_readings_result(*raw, *maps, r),
    {
        let span_readings_0 = Reading::from_raw(&raw.span_readings[0], maps)?;
        let span_readings_1 = Reading::from_raw(&raw.span_readings[1], maps)?;
        let span_readings_2 = Reading::from_raw(&raw.span_readings[2], maps)?;
        let fixed_reading = Reading::from_raw(&raw.fixed_reading, maps)?;
        let record_type = RecordType::from_code(raw.record_type, maps)?;
        let stable = Stable::from_code(raw.stable, maps)?;
        let transient_state = TransientState::from_code(raw.transient_state, maps)?;
        let out = SessionRecordReadings {
            start_ts: raw.start_ts,
            end_ts: raw.end_ts,
            span_readings: [span_readings_0, span_readings_1, span_readings_2],
            sampling: raw.sampling,
            fixed_reading,
            record_type,
            stable,
            transient_state,
        };
        assert(out.span_readings@ =~= seq![span_readings_0, span_readings_1, span_readings_2]);
        Ok(out)
    }
}

/// A saved peak session has the layout of a min/max session.
pub type SavedPeakMeasurement = SavedMinMaxMeasurement;

/// One entry of the device's saved memory.
#[derive(Debug, Clone)]
pub enum Memory {
    Measurement(SavedMeasurement),
    MinMaxMeasurement(SavedMinMaxMeasurement),
    PeakMeasurement(SavedPeakMeasurement),
    Recording(SavedRecordingSessionInfo),
}

/// The name under which an entry was saved.
pub open spec fn memory_name(m: Memory) -> Seq<char> {
    match m {
        Memory::Measurement(x) => x.name@,
        Memory::MinMaxMeasurement(x) => x.name@,
        Memory::PeakMeasurement(x) => x.name@,
        Memory::Recording(x) => x.name@,
    }
}

impl Memory {
    /// The name under which the entry was saved.
    pub fn name(&self) -> (r: &str)
        ensures
            r@ == memory_name(*self),
    {
        match self {
            Memory::Measurement(m) => m.name.as_str(),
            Memory::MinMaxMeasurement(m) => m.name.as_str(),
            Memory::PeakMeasurement(m) => m.name.as_str(),
            Memory::Recording(m) => m.name.as_str(),
        }
    }
}

} // verus!
