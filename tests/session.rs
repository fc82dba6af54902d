use f289ctrl::command::Command;
use f289ctrl::error::{DecodeError, ProtoError};
use f289ctrl::response::{Response, ResponsePayload};
use f289ctrl::session::{
    expect_backlight, expect_done, expect_ident, expect_live_measurement, Session,
};

fn exchange(cmd: Command, reply: &[u8]) -> Response {
    let mut s = Session::new();
    s.send(cmd).unwrap();
    s.receive(reply).unwrap().unwrap()
}

#[test]
fn test_get_id() {
    let resp = exchange(Command::Id, b"0\rFluke,x,x\r");
    assert!(expect_ident(resp).is_ok());
}

#[test]
fn test_set_backlight() {
    let resp = exchange(Command::SetBacklightTimeout(60 * 15), b"0\r");
    assert!(expect_done(resp).is_ok());
}

#[test]
fn test_set_backlight_in_settings_mode() {
    let resp = exchange(Command::SetBacklightTimeout(60 * 15), b"2\r");
    assert!(expect_done(resp).is_err());
}

#[test]
fn second_command_refused_while_first_awaits() {
    let mut s = Session::new();
    assert!(s.is_idle());
    assert_eq!(s.send(Command::Id).unwrap(), b"id\r".to_vec());
    assert!(!s.is_idle());
    assert!(matches!(s.send(Command::GetClock), Err(ProtoError::Busy)));
    assert!(s.receive(b"0\rF,1,2\r").unwrap().is_some());
    assert!(s.is_idle());
    assert_eq!(s.send(Command::GetClock).unwrap(), b"qmp clock\r".to_vec());
}

#[test]
fn partial_chunks_are_kept() {
    let mut s = Session::new();
    s.send(Command::GetBacklightTimeout).unwrap();
    assert!(s.receive(b"0").unwrap().is_none());
    assert!(s.receive(b"\r90").unwrap().is_none());
    let resp = s.receive(b"0\r5\r").unwrap().unwrap();
    assert_eq!(expect_backlight(resp).unwrap(), 900);
    assert_eq!(s.inbound, b"5\r".to_vec());
}

#[test]
fn locked_device_is_execution_error() {
    let resp = exchange(Command::SetBacklightTimeout(900), b"2\r");
    assert!(matches!(resp, Response::ExecutionError));
    assert!(matches!(expect_done(resp), Err(ProtoError::ExecutionError)));
}

#[test]
fn rejections_keep_their_kind() {
    assert!(matches!(expect_done(Response::SyntaxError), Err(ProtoError::SyntaxError)));
    match expect_ident(Response::Success(None)) {
        Err(ProtoError::Unexpected(r)) => assert!(matches!(*r, Response::Success(None))),
        other => panic!("unexpected {:?}", other),
    }
    match expect_done(Response::Success(Some(ResponsePayload::Clock(1)))) {
        Err(ProtoError::Unexpected(r)) => {
            assert!(matches!(*r, Response::Success(Some(ResponsePayload::Clock(1)))))
        }
        other => panic!("unexpected {:?}", other),
    }
}

#[test]
fn no_data_is_not_an_error() {
    let resp = exchange(Command::GetMeasurementBinary, b"5\r");
    assert!(expect_live_measurement(resp).unwrap().is_none());
}

#[test]
fn decode_failure_is_reported() {
    let mut s = Session::new();
    s.send(Command::Id).unwrap();
    assert!(matches!(
        s.receive(b"9\r"),
        Err(ProtoError::Decode(DecodeError::UnknownStatus(b'9')))
    ));
}

#[test]
fn stream_end_while_waiting_is_abort() {
    let mut s = Session::new();
    assert!(s.end_of_stream().is_ok());
    s.send(Command::GetClock).unwrap();
    assert!(s.receive(b"0\r12").unwrap().is_none());
    assert!(matches!(s.end_of_stream(), Err(ProtoError::Abort)));
    assert!(s.is_idle());
    assert!(s.inbound.is_empty());
}
