//! The command/response session: one outstanding command at a time, the
//! inbound byte buffer, and the check of each response against what the
//! command expects. The caller moves the bytes: it writes what `send`
//! returns and hands every chunk it reads to `receive`.
use vstd::prelude::*;

use crate::codec::{decode_result, lemma_consumed_fits, ProtocolCodec};
use crate::command::{command_line, Command, DateFormat, DezibelReference, DigitCount, Language, NumericFormat, TimeFormat};
use crate::error::{error_of, DecodeError, ProtoError};
use crate::rawmea::{
    RawMeasurement, RawSavedMeasurement, RawSavedMinMaxMeasurement, RawSavedPeakMeasurement,
    RawSavedRecordingSessionInfo, RawSessionRecordReadings,
};
use crate::response::{Ident, MemoryStat, Response, ResponsePayload, ValueMap};
use crate::wire::CR;

verus! {

/// One connection's protocol state: the framing codec and the bytes that
/// arrived but do not yet form a frame.
pub struct Session {
    pub codec: ProtocolCodec,
    pub inbound: Vec<u8>,
}

/// What `receive` did with `chunk`, from `old` to `new`.
pub open spec fn received(
    old: Session,
    new: Session,
    chunk: Seq<u8>,
    r: Result<Option<Response>, ProtoError>,
) -> bool {
    let b = old.inbound@ + chunk;
    match r {
        Ok(None) => decode_result(old.codec.last_cmd, b, Ok(None)) && new.inbound@ == b
            && new.codec.last_cmd == old.codec.last_cmd,
        Ok(Some(resp)) => exists|n: usize|
            decode_result(old.codec.last_cmd, b, Ok(Some((resp, n)))) && n <= b.len()
                && new.inbound@ == b.subrange(n as int, b.len() as int)
                && new.codec.last_cmd is None,
        Err(e) => exists|d: DecodeError|
            e == ProtoError::Decode(d) && decode_result(old.codec.last_cmd, b, Err(d)),
    }
}

/// What `send` did with `cmd`, from `old` to `new`.
pub open spec fn sent(old: Session, new: Session, cmd: Command, r: Result<Vec<u8>, ProtoError>) -> bool {
    if old.codec.last_cmd is Some {
        r == Err::<Vec<u8>, ProtoError>(ProtoError::Busy) && new == old
    } else {
        &&& r is Ok
        &&& r->Ok_0@ == command_line(cmd).push(CR)
        &&& new.codec.last_cmd == Some(cmd)
        &&& new.inbound == old.inbound
    }
}

/// One command at a time: a command issued right after another one, with no
/// response received in between, is refused and changes nothing.
pub proof fn lemma_second_command_refused(
    s0: Session,
    s1: Session,
    s2: Session,
    a: Command,
    b: Command,
    ra: Result<Vec<u8>, ProtoError>,
    rb: Result<Vec<u8>, ProtoError>,
)
    requires
        sent(s0, s1, a, ra),
        sent(s1, s2, b, rb),
    ensures
        rb == Err::<Vec<u8>, ProtoError>(ProtoError::Busy),
        s2 == s1,
{
}

impl Session {
    /// A session with no command outstanding and nothing buffered.
    pub fn new() -> (r: Session)
        ensures
            r.codec.last_cmd is None,
            r.inbound@ == Seq::<u8>::empty(),
    {
        Session { codec: ProtocolCodec::new(), inbound: Vec::new() }
    }

    /// Whether no command awaits its response.
    pub fn is_idle(&self) -> (r: bool)
        ensures
            r == self.codec.last_cmd is None,
    {
        self.codec.last_cmd.is_none()
    }

    /// Issues `cmd`: the bytes to write to the device. Refused while
    /// another command awaits its response.
    pub fn send(&mut self, cmd: Command) -> (r: Result<Vec<u8>, ProtoError>)
        ensures
            sent(*old(self), *final(self), cmd, r),
    {
        if self.codec.last_cmd.is_some() {
            return Err(ProtoError::Busy);
        }
        let mut out: Vec<u8> = Vec::new();
        self.codec.encode(cmd, &mut out);
        assert(out@ =~= command_line(cmd).push(CR));
        Ok(out)
    }

    /// The byte stream has ended. That is an abort while a command still
    /// awaits its response; the session is then idle and empty, since it
    /// cannot resynchronise on a later stream.
    pub fn end_of_stream(&mut self) -> (r: Result<(), ProtoError>)
        ensures
            old(self).codec.last_cmd is Some ==> r == Err::<(), ProtoError>(ProtoError::Abort),
            old(self).codec.last_cmd is None ==> r == Ok::<(), ProtoError>(()),
            final(self).codec.last_cmd is None,
            final(self).inbound@ == Seq::<u8>::empty(),
    {
        let awaiting = self.codec.last_cmd.is_some();
        self.codec = ProtocolCodec::new();
        self.inbound = Vec::new();
        if awaiting {
            Err(ProtoError::Abort)
        } else {
            Ok(())
        }
    }

    /// Takes a chunk of bytes read from the device: the response, once its
    /// frame is complete. The frame's bytes leave the buffer; the bytes
    /// after it stay for the next response.
    pub fn receive(&mut self, chunk: &[u8]) -> (r: Result<Option<Response>, ProtoError>)
        ensures
            received(*old(self), *final(self), chunk@, r),
    {
        let mut i: usize = 0;
        let ghost start = self.inbound@;
        while i < chunk.len()
            invariant
                i <= chunk@.len(),
                self.inbound@ =~= start + chunk@.subrange(0, i as int),
                self.codec == old(self).codec,
            decreases chunk@.len() - i,
        {
            self.inbound.push(chunk[i]);
            i = i + 1;
        }
        assert(chunk@.subrange(0, chunk@.len() as int) =~= chunk@);
        match self.codec.decode(self.inbound.as_slice()) {
            Ok(None) => Ok(None),
            Ok(Some((resp, n))) => {
                proof {
                    lemma_consumed_fits(old(self).codec.last_cmd, self.inbound@, resp, n);
                }
                let rest = self.inbound.split_off(n);
                self.inbound = rest;
                Ok(Some(resp))
            },
            Err(e) => Err(ProtoError::Decode(e)),
        }
    }
}

/// The ident that `resp` carries; any other response is a failure.
pub fn expect_ident(resp: Response) -> (r: Result<Ident, ProtoError>)
    ensures
        match resp {
            Response::Success(Some(ResponsePayload::Id(v))) => r == Ok::<Ident, ProtoError>(v),
            _ => r == Err::<Ident, ProtoError>(error_of(resp)),
        },
{
    match resp {
        Response::Success(Some(ResponsePayload::Id(v))) => Ok(v),
        _ => Err(ProtoError::from_response(resp)),
    }
}

/// The value map that `resp` carries; any other response is a failure.
pub fn expect_value_map(resp: Response) -> (r: Result<ValueMap, ProtoError>)
    ensures
        match resp {
            Response::Success(Some(ResponsePayload::ValueMap(v))) => r == Ok::<ValueMap, ProtoError>(v),
            _ => r == Err::<ValueMap, ProtoError>(error_of(resp)),
        },
{
    match resp {
        Response::Success(Some(ResponsePayload::ValueMap(v))) => Ok(v),
        _ => Err(ProtoError::from_response(resp)),
    }
}

/// The backlight that `resp` carries; any other response is a failure.
pub fn expect_backlight(resp: Response) -> (r: Result<u64, ProtoError>)
    ensures
        match resp {
            Response::Success(Some(ResponsePayload::BacklightTimeout(v))) => r == Ok::<u64, ProtoError>(v),
            _ => r == Err::<u64, ProtoError>(error_of(resp)),
        },
{
    match resp {
        Response::Success(Some(ResponsePayload::BacklightTimeout(v))) => Ok(v),
        _ => Err(ProtoError::from_response(resp)),
    }
}

/// The poweroff that `resp` carries; any other response is a failure.
pub fn expect_poweroff(resp: Response) -> (r: Result<u64, ProtoError>)
    ensures
        match resp {
            Response::Success(Some(ResponsePayload::DevicePowerOff(v))) => r == Ok::<u64, ProtoError>(v),
            _ => r == Err::<u64, ProtoError>(error_of(resp)),
        },
{
    match resp {
        Response::Success(Some(ResponsePayload::DevicePowerOff(v))) => Ok(v),
        _ => Err(ProtoError::from_response(resp)),
    }
}

/// The operator that `resp` carries; any other response is a failure.
pub fn expect_operator(resp: Response) -> (r: Result<String, ProtoError>)
    ensures
        match resp {
            Response::Success(Some(ResponsePayload::Operator(v))) => r == Ok::<String, ProtoError>(v),
            _ => r == Err::<String, ProtoError>(error_of(resp)),
        },
{
    match resp {
        Response::Success(Some(ResponsePayload::Operator(v))) => Ok(v),
        _ => Err(ProtoError::from_response(resp)),
    }
}

/// The company that `resp` carries; any other response is a failure.
pub fn expect_company(resp: Response) -> (r: Result<String, ProtoError>)
    ensures
        match resp {
            Response::Success(Some(ResponsePayload::Company(v))) => r == Ok::<String, ProtoError>(v),
            _ => r == Err::<String, ProtoError>(error_of(resp)),
        },
{
    match resp {
        Response::Success(Some(ResponsePayload::Company(v))) => Ok(v),
        _ => Err(ProtoError::from_response(resp)),
    }
}

/// The site that `resp` carries; any other response is a failure.
pub fn expect_site(resp: Response) -> (r: Result<String, ProtoError>)
    ensures
        match resp {
            Response::Success(Some(ResponsePayload::Site(v))) => r == Ok::<String, ProtoError>(v),
            _ => r == Err::<String, ProtoError>(error_of(resp)),
        },
{
    match resp {
        Response::Success(Some(ResponsePayload::Site(v))) => Ok(v),
        _ => Err(ProtoError::from_response(resp)),
    }
}

/// The contact that `resp` carries; any other response is a failure.
pub fn expect_contact(resp: Response) -> (r: Result<String, ProtoError>)
    ensures
        match resp {
            Response::Success(Some(ResponsePayload::Contact(v))) => r == Ok::<String, ProtoError>(v),
            _ => r == Err::<String, ProtoError>(error_of(resp)),
        },
{
    match resp {
        Response::Success(Some(ResponsePayload::Contact(v))) => Ok(v),
        _ => Err(ProtoError::from_response(resp)),
    }
}

/// The clock that `resp` carries; any other response is a failure.
pub fn expect_clock(resp: Response) -> (r: Result<u64, ProtoError>)
    ensures
        match resp {
            Response::Success(Some(ResponsePayload::Clock(v))) => r == Ok::<u64, ProtoError>(v),
            _ => r == Err::<u64, ProtoError>(error_of(resp)),
        },
{
    match resp {
        Response::Success(Some(ResponsePayload::Clock(v))) => Ok(v),
        _ => Err(ProtoError::from_response(resp)),
    }
}

/// The beeper that `resp` carries; any other response is a failure.
pub fn expect_beeper(resp: Response) -> (r: Result<bool, ProtoError>)
    ensures
        match resp {
            Response::Success(Some(ResponsePayload::Beeper(v))) => r == Ok::<bool, ProtoError>(v),
            _ => r == Err::<bool, ProtoError>(error_of(resp)),
        },
{
    match resp {
        Response::Success(Some(ResponsePayload::Beeper(v))) => Ok(v),
        _ => Err(ProtoError::from_response(resp)),
    }
}

/// The smoothing that `resp` carries; any other response is a failure.
pub fn expect_smoothing(resp: Response) -> (r: Result<bool, ProtoError>)
    ensures
        match resp {
            Response::Success(Some(ResponsePayload::Smoothing(v))) => r == Ok::<bool, ProtoError>(v),
            _ => r == Err::<bool, ProtoError>(error_of(resp)),
        },
{
    match resp {
        Response::Success(Some(ResponsePayload::Smoothing(v))) => Ok(v),
        _ => Err(ProtoError::from_response(resp)),
    }
}

/// The save name that `resp` carries; any other response is a failure.
pub fn expect_save_name(resp: Response) -> (r: Result<String, ProtoError>)
    ensures
        match resp {
            Response::Success(Some(ResponsePayload::SaveName(v))) => r == Ok::<String, ProtoError>(v),
            _ => r == Err::<String, ProtoError>(error_of(resp)),
        },
{
    match resp {
        Response::Success(Some(ResponsePayload::SaveName(v))) => Ok(v),
        _ => Err(ProtoError::from_response(resp)),
    }
}

/// The memory stat that `resp` carries; any other response is a failure.
pub fn expect_memory_stat(resp: Response) -> (r: Result<MemoryStat, ProtoError>)
    ensures
        match resp {
            Response::Success(Some(ResponsePayload::MemoryStat(v))) => r == Ok::<MemoryStat, ProtoError>(v),
            _ => r == Err::<MemoryStat, ProtoError>(error_of(resp)),
        },
{
    match resp {
        Response::Success(Some(ResponsePayload::MemoryStat(v))) => Ok(v),
        _ => Err(ProtoError::from_response(resp)),
    }
}

/// The saved measurement that `resp` carries; any other response is a failure.
pub fn expect_saved_measurement(resp: Response) -> (r: Result<RawSavedMeasurement, ProtoError>)
    ensures
        match resp {
            Response::Success(Some(ResponsePayload::SavedMeasurement(v))) => r == Ok::<RawSavedMeasurement, ProtoError>(v),
            _ => r == Err::<RawSavedMeasurement, ProtoError>(error_of(resp)),
        },
{
    match resp {
        Response::Success(Some(ResponsePayload::SavedMeasurement(v))) => Ok(v),
        _ => Err(ProtoError::from_response(resp)),
    }
}

/// The saved minmax that `resp` carries; any other response is a failure.
pub fn expect_saved_minmax(resp: Response) -> (r: Result<RawSavedMinMaxMeasurement, ProtoError>)
    ensures
        match resp {
            Response::Success(Some(ResponsePayload::MinMaxSessionInfo(v))) => r == Ok::<RawSavedMinMaxMeasurement, ProtoError>(v),
            _ => r == Err::<RawSavedMinMaxMeasurement, ProtoError>(error_of(resp)),
        },
{
    match resp {
        Response::Success(Some(ResponsePayload::MinMaxSessionInfo(v))) => Ok(v),
        _ => Err(ProtoError::from_response(resp)),
    }
}

/// The saved peak that `resp` carries; any other response is a failure.
pub fn expect_saved_peak(resp: Response) -> (r: Result<RawSavedPeakMeasurement, ProtoError>)
    ensures
        match resp {
            Response::Success(Some(ResponsePayload::PeakSessionInfo(v))) => r == Ok::<RawSavedPeakMeasurement, ProtoError>(v),
            _ => r == Err::<RawSavedPeakMeasurement, ProtoError>(error_of(resp)),
        },
{
    match resp {
        Response::Success(Some(ResponsePayload::PeakSessionInfo(v))) => Ok(v),
        _ => Err(ProtoError::from_response(resp)),
    }
}

/// The saved recording that `resp` carries; any other response is a failure.
pub fn expect_saved_recording(resp: Response) -> (r: Result<RawSavedRecordingSessionInfo, ProtoError>)
    ensures
        match resp {
            Response::Success(Some(ResponsePayload::RecordedSessionInfo(v))) => r == Ok::<RawSavedRecordingSessionInfo, ProtoError>(v),
            _ => r == Err::<RawSavedRecordingSessionInfo, ProtoError>(error_of(resp)),
        },
{
    match resp {
        Response::Success(Some(ResponsePayload::RecordedSessionInfo(v))) => Ok(v),
        _ => Err(ProtoError::from_response(resp)),
    }
}

/// The session record reading that `resp` carries; any other response is a failure.
pub fn expect_session_record_reading(resp: Response) -> (r: Result<RawSessionRecordReadings, ProtoError>)
    ensures
        match resp {
            Response::Success(Some(ResponsePayload::SessionRecordReading(v))) => r == Ok::<RawSessionRecordReadings, ProtoError>(v),
            _ => r == Err::<RawSessionRecordReadings, ProtoError>(error_of(resp)),
        },
{
    match resp {
        Response::Success(Some(ResponsePayload::SessionRecordReading(v))) => Ok(v),
        _ => Err(ProtoError::from_response(resp)),
    }
}

/// The custom dbm that `resp` carries; any other response is a failure.
pub fn expect_custom_dbm(resp: Response) -> (r: Result<u16, ProtoError>)
    ensures
        match resp {
            Response::Success(Some(ResponsePayload::CustomDbm(v))) => r == Ok::<u16, ProtoError>(v),
            _ => r == Err::<u16, ProtoError>(error_of(resp)),
        },
{
    match resp {
        Response::Success(Some(ResponsePayload::CustomDbm(v))) => Ok(v),
        _ => Err(ProtoError::from_response(resp)),
    }
}

/// The digit count that `resp` carries; any other response is a failure.
pub fn expect_digit_count(resp: Response) -> (r: Result<DigitCount, ProtoError>)
    ensures
        match resp {
            Response::Success(Some(ResponsePayload::DigitCount(v))) => r == Ok::<DigitCount, ProtoError>(v),
            _ => r == Err::<DigitCount, ProtoError>(error_of(resp)),
        },
{
    match resp {
        Response::Success(Some(ResponsePayload::DigitCount(v))) => Ok(v),
        _ => Err(ProtoError::from_response(resp)),
    }
}

/// The autohold event threshold that `resp` carries; any other response is a failure.
pub fn expect_autohold_event_threshold(resp: Response) -> (r: Result<u8, ProtoError>)
    ensures
        match resp {
            Response::Success(Some(ResponsePayload::AutoHoldEventThreshold(v))) => r == Ok::<u8, ProtoError>(v),
            _ => r == Err::<u8, ProtoError>(error_of(resp)),
        },
{
    match resp {
        Response::Success(Some(ResponsePayload::AutoHoldEventThreshold(v))) => Ok(v),
        _ => Err(ProtoError::from_response(resp)),
    }
}

/// The recording event threshold that `resp` carries; any other response is a failure.
pub fn expect_recording_event_threshold(resp: Response) -> (r: Result<u8, ProtoError>)
    ensures
        match resp {
            Response::Success(Some(ResponsePayload::RecordingEventThreshold(v))) => r == Ok::<u8, ProtoError>(v),
            _ => r == Err::<u8, ProtoError>(error_of(resp)),
        },
{
    match resp {
        Response::Success(Some(ResponsePayload::RecordingEventThreshold(v))) => Ok(v),
        _ => Err(ProtoError::from_response(resp)),
    }
}

/// The language that `resp` carries; any other response is a failure.
pub fn expect_language(resp: Response) -> (r: Result<Language, ProtoError>)
    ensures
        match resp {
            Response::Success(Some(ResponsePayload::Language(v))) => r == Ok::<Language, ProtoError>(v),
            _ => r == Err::<Language, ProtoError>(error_of(resp)),
        },
{
    match resp {
        Response::Success(Some(ResponsePayload::Language(v))) => Ok(v),
        _ => Err(ProtoError::from_response(resp)),
    }
}

/// The date format that `resp` carries; any other response is a failure.
pub fn expect_date_format(resp: Response) -> (r: Result<DateFormat, ProtoError>)
    ensures
        match resp {
            Response::Success(Some(ResponsePayload::DateFormat(v))) => r == Ok::<DateFormat, ProtoError>(v),
            _ => r == Err::<DateFormat, ProtoError>(error_of(resp)),
        },
{
    match resp {
        Response::Success(Some(ResponsePayload::DateFormat(v))) => Ok(v),
        _ => Err(ProtoError::from_response(resp)),
    }
}

/// The time format that `resp` carries; any other response is a failure.
pub fn expect_time_format(resp: Response) -> (r: Result<TimeFormat, ProtoError>)
    ensures
        match resp {
            Response::Success(Some(ResponsePayload::TimeFormat(v))) => r == Ok::<TimeFormat, ProtoError>(v),
            _ => r == Err::<TimeFormat, ProtoError>(error_of(resp)),
        },
{
    match resp {
        Response::Success(Some(ResponsePayload::TimeFormat(v))) => Ok(v),
        _ => Err(ProtoError::from_response(resp)),
    }
}

/// The numeric format that `resp` carries; any other response is a failure.
pub fn expect_numeric_format(resp: Response) -> (r: Result<NumericFormat, ProtoError>)
    ensures
        match resp {
            Response::Success(Some(ResponsePayload::NumericFormat(v))) => r == Ok::<NumericFormat, ProtoError>(v),
            _ => r == Err::<NumericFormat, ProtoError>(error_of(resp)),
        },
{
    match resp {
        Response::Success(Some(ResponsePayload::NumericFormat(v))) => Ok(v),
        _ => Err(ProtoError::from_response(resp)),
    }
}

/// The dbm ref that `resp` carries; any other response is a failure.
pub fn expect_dbm_ref(resp: Response) -> (r: Result<DezibelReference, ProtoError>)
    ensures
        match resp {
            Response::Success(Some(ResponsePayload::DbmRef(v))) => r == Ok::<DezibelReference, ProtoError>(v),
            _ => r == Err::<DezibelReference, ProtoError>(error_of(resp)),
        },
{
    match resp {
        Response::Success(Some(ResponsePayload::DbmRef(v))) => Ok(v),
        _ => Err(ProtoError::from_response(resp)),
    }
}

/// The temp offset that `resp` carries; any other response is a failure.
pub fn expect_temp_offset(resp: Response) -> (r: Result<i16, ProtoError>)
    ensures
        match resp {
            Response::Success(Some(ResponsePayload::TempOffset(v))) => r == Ok::<i16, ProtoError>(v),
            _ => r == Err::<i16, ProtoError>(error_of(resp)),
        },
{
    match resp {
        Response::Success(Some(ResponsePayload::TempOffset(v))) => Ok(v),
        _ => Err(ProtoError::from_response(resp)),
    }
}

/// Success without payload, as a setting or an action answers; any other
/// response is a failure.
pub fn expect_done(resp: Response) -> (r: Result<(), ProtoError>)
    ensures
        match resp {
            Response::Success(None) => r == Ok::<(), ProtoError>(()),
            _ => r == Err::<(), ProtoError>(error_of(resp)),
        },
{
    match resp {
        Response::Success(None) => Ok(()),
        _ => Err(ProtoError::from_response(resp)),
    }
}

/// The live measurement that `resp` carries, or none when the device has
/// nothing to report; any other response is a failure.
pub fn expect_live_measurement(resp: Response) -> (r: Result<Option<RawMeasurement>, ProtoError>)
    ensures
        match resp {
            Response::Success(Some(ResponsePayload::MeasurementBinary(m))) => r == Ok::<
                Option<RawMeasurement>,
                ProtoError,
            >(Some(m)),
            Response::NoData => r == Ok::<Option<RawMeasurement>, ProtoError>(None),
            _ => r == Err::<Option<RawMeasurement>, ProtoError>(error_of(resp)),
        },
{
    match resp {
        Response::Success(Some(ResponsePayload::MeasurementBinary(m))) => Ok(Some(m)),
        Response::NoData => Ok(None),
        _ => Err(ProtoError::from_response(resp)),
    }
}

} // verus!
