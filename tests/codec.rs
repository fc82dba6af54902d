use f289ctrl::codec::{decode_line, ProtocolCodec};
use f289ctrl::command::{ClearMemory, Command, DezibelReference, Language};
use f289ctrl::error::DecodeError;
use f289ctrl::response::{Response, ResponsePayload};

fn encoded(cmd: Command) -> Vec<u8> {
    let mut codec = ProtocolCodec::new();
    let mut out = Vec::new();
    codec.encode(cmd, &mut out);
    out
}

fn decode_after(cmd: Command, bytes: &[u8]) -> Result<Option<(Response, usize)>, DecodeError> {
    let mut codec = ProtocolCodec::new();
    let mut out = Vec::new();
    codec.encode(cmd, &mut out);
    codec.decode(bytes)
}

#[test]
fn encode_simple_queries() {
    assert_eq!(encoded(Command::Id), b"id\r".to_vec());
    assert_eq!(encoded(Command::GetMeasurementBinary), b"qddb\r".to_vec());
    assert_eq!(encoded(Command::GetMemoryStat), b"qsls\r".to_vec());
    assert_eq!(encoded(Command::ResetDevice), b"rmp\r".to_vec());
}

#[test]
fn encode_parameters() {
    assert_eq!(encoded(Command::SetBacklightTimeout(900)), b"mp ablto,900\r".to_vec());
    assert_eq!(encoded(Command::SetDevicePowerOff(0)), b"mp apoffto,0\r".to_vec());
    assert_eq!(encoded(Command::SetOperator("Bob".to_string())), b"mpq operator,'Bob'\r".to_vec());
    assert_eq!(encoded(Command::SetContact("555".to_string())), b"mpq contact,555\r".to_vec());
    assert_eq!(encoded(Command::SetSaveName(3, "x y".to_string())), b"savname 3,'x y'\r".to_vec());
    assert_eq!(encoded(Command::QuerySessionRecordReadings(12, 4096)), b"qsrr 12,4096\r".to_vec());
    assert_eq!(encoded(Command::Clear(ClearMemory::MinMax)), b"csd MIN_MAX\r".to_vec());
    assert_eq!(encoded(Command::SetBeeper(false)), b"mp beeper,OFF\r".to_vec());
    assert_eq!(encoded(Command::SetLanguage(Language::English)), b"mp lang,ENGLISH\r".to_vec());
    assert_eq!(encoded(Command::SetDbmRef(DezibelReference::Custom)), b"mp dBmRef,0\r".to_vec());
    assert_eq!(encoded(Command::SetTempOffset(-32768)), b"mp tempOs,-32768\r".to_vec());
    assert_eq!(encoded(Command::SetClock(u64::MAX)), b"mp clock,18446744073709551615\r".to_vec());
    assert_eq!(encoded(Command::QueryMap("unit".to_string())), b"qemap unit\r".to_vec());
}

#[test]
fn encode_records_outstanding_command() {
    let mut codec = ProtocolCodec::new();
    assert!(codec.last_cmd.is_none());
    let mut out = Vec::new();
    codec.encode(Command::GetClock, &mut out);
    assert!(matches!(codec.last_cmd, Some(Command::GetClock)));
}

#[test]
fn status_digits_decode_alone() {
    let r = decode_after(Command::SetBeeper(true), b"0\r").unwrap().unwrap();
    assert!(matches!(r, (Response::Success(None), 2)));
    let r = decode_after(Command::Id, b"1\r").unwrap().unwrap();
    assert!(matches!(r, (Response::SyntaxError, 2)));
    let r = decode_after(Command::Id, b"2\r").unwrap().unwrap();
    assert!(matches!(r, (Response::ExecutionError, 2)));
    let r = decode_after(Command::GetMeasurementBinary, b"5\r").unwrap().unwrap();
    assert!(matches!(r, (Response::NoData, 2)));
}

#[test]
fn identification_scenario() {
    let r = decode_after(Command::Id, b"0\rFluke,v1.0,SN123\r").unwrap().unwrap();
    assert_eq!(r.1, 19);
    match r.0 {
        Response::Success(Some(ResponsePayload::Id(id))) => {
            assert_eq!(id.model, "Fluke");
            assert_eq!(id.firmware, "v1.0");
            assert_eq!(id.serial, "SN123");
        }
        other => panic!("unexpected {:?}", other),
    }
}

#[test]
fn locked_device_scenario() {
    let r = decode_after(Command::SetBacklightTimeout(900), b"2\r").unwrap().unwrap();
    assert!(matches!(r, (Response::ExecutionError, 2)));
}

#[test]
fn line_payload_waits_for_terminator() {
    let full = b"0\rFluke,v1.0,SN123\r";
    for k in 0..full.len() {
        assert!(decode_after(Command::Id, &full[..k]).unwrap().is_none());
    }
    let mut more = full.to_vec();
    more.extend_from_slice(b"1\r");
    let r = decode_after(Command::Id, &more).unwrap().unwrap();
    assert_eq!(r.1, full.len());
}

#[test]
fn complete_frame_returns_codec_to_idle() {
    let mut codec = ProtocolCodec::new();
    let mut out = Vec::new();
    codec.encode(Command::GetBeeper, &mut out);
    assert!(codec.decode(b"0\rON").unwrap().is_none());
    assert!(codec.last_cmd.is_some());
    let r = codec.decode(b"0\rON\r").unwrap().unwrap();
    assert!(matches!(r, (Response::Success(Some(ResponsePayload::Beeper(true))), 5)));
    assert!(codec.last_cmd.is_none());
}

#[test]
fn decode_errors() {
    assert_eq!(decode_after(Command::Id, b"0x").unwrap_err(), DecodeError::MissingStatusTerminator);
    assert_eq!(decode_after(Command::Id, b"7\r").unwrap_err(), DecodeError::UnknownStatus(b'7'));
    let mut idle = ProtocolCodec::new();
    assert_eq!(idle.decode(b"0\r").unwrap_err(), DecodeError::NoCommandOutstanding);
    assert_eq!(decode_after(Command::Id, b"0\rFluke,x\r").unwrap_err(), DecodeError::InvalidIdent);
    assert_eq!(decode_after(Command::Id, b"0\r\xff,a,b\r").unwrap_err(), DecodeError::InvalidUtf8);
    assert_eq!(decode_after(Command::GetClock, b"0\r12a\r").unwrap_err(), DecodeError::InvalidNumber);
    assert_eq!(decode_after(Command::GetMemoryStat, b"0\r1,2,3\r").unwrap_err(), DecodeError::InvalidMemoryStat);
    assert_eq!(decode_after(Command::GetDigitCount, b"0\r6\r").unwrap_err(), DecodeError::UnknownSetting);
    assert_eq!(decode_after(Command::GetLanguage, b"0\rKLINGON\r").unwrap_err(), DecodeError::UnknownSetting);
}

#[test]
fn number_and_word_payloads() {
    let p = |cmd: Command, line: &[u8]| decode_line(&cmd, line).unwrap();
    assert!(matches!(p(Command::GetBacklightTimeout, b"900"), ResponsePayload::BacklightTimeout(900)));
    assert!(matches!(p(Command::GetClock, b"+1674510254"), ResponsePayload::Clock(1674510254)));
    assert!(matches!(p(Command::GetCustomDbm, b"65535"), ResponsePayload::CustomDbm(65535)));
    assert_eq!(decode_line(&Command::GetCustomDbm, b"65536").unwrap_err(), DecodeError::InvalidNumber);
    assert!(matches!(p(Command::GetTempOffset, b"-12"), ResponsePayload::TempOffset(-12)));
    assert!(matches!(p(Command::GetTempOffset, b"-32768"), ResponsePayload::TempOffset(-32768)));
    assert_eq!(decode_line(&Command::GetTempOffset, b"32768").unwrap_err(), DecodeError::InvalidNumber);
    assert!(matches!(p(Command::GetDbmRef, b"600"), ResponsePayload::DbmRef(DezibelReference::Ref600)));
    assert!(matches!(p(Command::GetSmoothing, b"OFF"), ResponsePayload::Smoothing(false)));
    assert!(matches!(p(Command::GetLanguage, b"GERMAN"), ResponsePayload::Language(Language::German)));
    match p(Command::GetOperator, b"'Alice'") {
        ResponsePayload::Operator(s) => assert_eq!(s, "Alice"),
        other => panic!("unexpected {:?}", other),
    }
    match p(Command::GetSaveName(1), b"SAVE 1") {
        ResponsePayload::SaveName(s) => assert_eq!(s, "SAVE 1"),
        other => panic!("unexpected {:?}", other),
    }
    match p(Command::GetMemoryStat, b"1,2,3,4") {
        ResponsePayload::MemoryStat(m) => {
            assert_eq!((m.recordings, m.min_max, m.peak, m.measurement), (1, 2, 3, 4))
        }
        other => panic!("unexpected {:?}", other),
    }
}

#[test]
fn map_table_count_is_checked() {
    match decode_line(&Command::QueryMap("bolt".to_string()), b"2,0,OFF,1,ON").unwrap() {
        ResponsePayload::ValueMap(m) => {
            assert_eq!(m.len(), 2);
            assert_eq!(m[&0], "OFF");
            assert_eq!(m[&1], "ON");
        }
        other => panic!("unexpected {:?}", other),
    }
    assert_eq!(
        decode_line(&Command::QueryMap("bolt".to_string()), b"3,0,OFF,1,ON").unwrap_err(),
        DecodeError::MapCountMismatch
    );
    assert_eq!(
        decode_line(&Command::QueryMap("bolt".to_string()), b"2,0,OFF,0,ON").unwrap_err(),
        DecodeError::MapCountMismatch
    );
    assert_eq!(
        decode_line(&Command::QueryMap("bolt".to_string()), b"2,x,OFF,1,ON").unwrap_err(),
        DecodeError::InvalidNumber
    );
}

#[test]
fn map_table_count_mismatch_rejected_by_decoder() {
    let r = decode_after(Command::QueryMap("bolt".to_string()), b"0\r3,0,OFF,1,ON\r");
    assert_eq!(r.unwrap_err(), DecodeError::MapCountMismatch);
    let (resp, n) = decode_after(Command::QueryMap("bolt".to_string()), b"0\r2,0,OFF,1,ON\r")
        .unwrap()
        .unwrap();
    assert_eq!(n, 15);
    assert!(matches!(resp, Response::Success(Some(ResponsePayload::ValueMap(ref m))) if m.len() == 2));
}
