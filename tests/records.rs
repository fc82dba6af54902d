use f289ctrl::codec::ProtocolCodec;
use f289ctrl::command::Command;
use f289ctrl::error::DecodeError;
use f289ctrl::measurement::has_clock_time;
use f289ctrl::rawmea::{
    RawMeasurement, RawReading, RawSavedMeasurement, RawSavedMinMaxMeasurement, RawSessionRecordReadings,
};
use f289ctrl::response::{Response, ResponsePayload};
use f289ctrl::wire::decode_double;

/// A live measurement response: status line, header, two readings, closing byte.
fn qddb_frame() -> Vec<u8> {
    vec![
        0x30, 0x0d, 0x23, 0x30, 0x1b, 0x00, 0x00, 0x00, 0x01, 0x00, 0x09, 0x00, 0x00, 0x40,
        0x7f, 0x40, 0x00, 0x00, 0x00, 0x00, 0x00, 0x00, 0x00, 0x00, 0x00, 0x00, 0x00, 0x00,
        0x00, 0x00, 0x00, 0x00, 0x00, 0x00, 0x00, 0x00, 0x02, 0x00, 0x01, 0x00, 0xc2, 0xf5,
        0x11, 0x40, 0xf6, 0x28, 0x5c, 0x8f, 0x09, 0x00, 0x00, 0x00, 0x02, 0x00, 0x05, 0x00,
        0x02, 0x00, 0x00, 0x00, 0xbf, 0xf3, 0xd8, 0x41, 0x00, 0x40, 0x9d, 0xeb, 0x02, 0x00,
        0xc2, 0xf5, 0x11, 0x40, 0xf6, 0x28, 0x5c, 0x8f, 0x09, 0x00, 0x00, 0x00, 0x02, 0x00,
        0x05, 0x00, 0x02, 0x00, 0x00, 0x00, 0xbf, 0xf3, 0xd8, 0x41, 0x00, 0x40, 0x9d, 0xeb,
        0x0d,
    ]
}

fn reading_bytes(id: u16) -> Vec<u8> {
    let mut r = id.to_le_bytes().to_vec();
    r.extend_from_slice(&[0xc2, 0xf5, 0x11, 0x40, 0xf6, 0x28, 0x5c, 0x8f]);
    r.extend_from_slice(&[0x09, 0x00, 0xfd, 0xff, 0x02, 0x00, 0x05, 0x00, 0x02, 0x00, 0x00, 0x00]);
    r.extend_from_slice(&[0xbf, 0xf3, 0xd8, 0x41, 0x00, 0x40, 0x9d, 0xeb]);
    r
}

/// A saved measurement record: marker, 38-byte header, readings, name.
fn saved_record(count: u16, name: &[u8]) -> Vec<u8> {
    let mut r = b"#0".to_vec();
    for i in 0..18u16 {
        r.extend_from_slice(&(i + 1).to_le_bytes());
    }
    r.extend_from_slice(&count.to_le_bytes());
    for i in 0..count {
        r.extend_from_slice(&reading_bytes(i));
    }
    r.extend_from_slice(name);
    r.push(b'\r');
    r
}

#[test]
fn word_swapped_double_round_trip() {
    assert_eq!(f64::from_bits(decode_double(&[0x00, 0x40, 0x7f, 0x40, 0, 0, 0, 0])), 500.0);
    assert_eq!(decode_double(&[0x00, 0x40, 0x7f, 0x40, 0, 0, 0, 0]), 0x407f_4000_0000_0000);
    assert_eq!(
        f64::from_bits(decode_double(&[0xc2, 0xf5, 0x11, 0x40, 0xf6, 0x28, 0x5c, 0x8f])),
        4.49
    );
    assert_eq!(f64::from_bits(decode_double(&[0, 0, 0, 0, 0, 0, 0, 0])), 0.0);
    assert_eq!(f64::from_bits(decode_double(&[0, 0, 0xf0, 0xbf, 0, 0, 0, 0])), -1.0);
}

#[test]
fn live_measurement_decode() {
    let frame = qddb_frame();
    let mut codec = ProtocolCodec::new();
    codec.encode(Command::GetMeasurementBinary, &mut Vec::new());
    let (resp, n) = codec.decode(&frame).unwrap().unwrap();
    assert_eq!(n, frame.len());
    let m = match resp {
        Response::Success(Some(ResponsePayload::MeasurementBinary(m))) => m,
        other => panic!("unexpected {:?}", other),
    };
    assert_eq!(m.pri_function, 27);
    assert_eq!(m.sec_function, 0);
    assert_eq!(m.auto_range, 1);
    assert_eq!(m.unit, 9);
    assert_eq!(m.unit_multiplier, 0);
    assert_eq!(m.bolt, 0);
    assert_eq!(m.modes, 0);
    assert_eq!(f64::from_bits(m.range_max), 500.0);
    assert_eq!(m.readings.len(), 2);
    assert_eq!(m.readings[1].reading_id, 2);
    assert_eq!(f64::from_bits(m.readings[0].value), 4.49);
    assert_eq!(m.readings[0].decimals, 2);
    assert_eq!(m.readings[0].display_digits, 5);
    assert_eq!(m.readings[0].state, 2);
    assert_eq!(f64::from_bits(m.readings[0].ts), 1674510254.4570312);
    assert_eq!(m.ts, 0);
    assert!(!has_clock_time(m.ts));
    assert!(has_clock_time(m.readings[0].ts));
}

#[test]
fn clock_time_is_any_finite_nonzero_stamp() {
    assert!(has_clock_time(0.5f64.to_bits()));
    assert!(has_clock_time((-2.0f64).to_bits()));
    assert!(has_clock_time(f64::MIN_POSITIVE.to_bits() / 2));
    assert!(has_clock_time(1674510254.5f64.to_bits()));
    assert!(!has_clock_time(0.0f64.to_bits()));
    assert!(!has_clock_time((-0.0f64).to_bits()));
    assert!(!has_clock_time(f64::INFINITY.to_bits()));
    assert!(!has_clock_time(f64::NEG_INFINITY.to_bits()));
    assert!(!has_clock_time(f64::NAN.to_bits()));
}

#[test]
fn live_measurement_probe_is_monotonic() {
    let frame = qddb_frame();
    let body = &frame[2..];
    for k in 0..body.len() {
        assert_eq!(RawMeasurement::can_parse(&body[..k]), None);
    }
    assert_eq!(RawMeasurement::can_parse(body), Some(body.len()));
    let mut more = body.to_vec();
    more.extend_from_slice(b"0\r");
    assert_eq!(RawMeasurement::can_parse(&more), Some(body.len()));
}

#[test]
fn framing_one_byte_at_a_time() {
    let frame = qddb_frame();
    for k in 0..frame.len() {
        let mut codec = ProtocolCodec::new();
        codec.encode(Command::GetMeasurementBinary, &mut Vec::new());
        assert!(codec.decode(&frame[..k]).unwrap().is_none());
    }
    let mut more = frame.clone();
    more.extend_from_slice(b"5\r");
    let mut codec = ProtocolCodec::new();
    codec.encode(Command::GetMeasurementBinary, &mut Vec::new());
    let (_, n) = codec.decode(&more).unwrap().unwrap();
    assert_eq!(n, frame.len());
}

#[test]
fn saved_measurement_probe_and_parse() {
    let rec = saved_record(2, b"SAVE 1");
    for k in 0..rec.len() {
        assert_eq!(RawSavedMeasurement::can_parse(&rec[..k]), None);
    }
    assert_eq!(RawSavedMeasurement::can_parse(&rec), Some(rec.len()));
    let mut more = rec.clone();
    more.extend_from_slice(b"tail\r");
    assert_eq!(RawSavedMeasurement::can_parse(&more), Some(rec.len()));
    let m = RawSavedMeasurement::parse(&rec).unwrap();
    assert_eq!(m.seq_no, 1);
    assert_eq!(m.pri_function, 3);
    assert_eq!(m.unit_multiplier, 11);
    assert_eq!(m.modes, 17);
    assert_eq!(m.un6, 18);
    assert_eq!(m.readings.len(), 2);
    assert_eq!(m.readings[1].reading_id, 1);
    assert_eq!(m.readings[0].unit_multiplier, -3);
    assert_eq!(m.name, "SAVE 1");
}

#[test]
fn saved_name_invalid_utf8_is_replaced() {
    let rec = saved_record(0, b"A\xffB");
    let m = RawSavedMeasurement::parse(&rec).unwrap();
    assert_eq!(m.name, "A\u{fffd}B");
}

#[test]
fn record_errors() {
    let mut rec = saved_record(1, b"N");
    rec[0] = b'X';
    assert_eq!(RawSavedMeasurement::parse(&rec).unwrap_err(), DecodeError::BadMarker);
    let rec = saved_record(1, b"N");
    assert_eq!(RawSavedMeasurement::parse(&rec[..30]).unwrap_err(), DecodeError::Truncated);
    assert_eq!(RawSavedMeasurement::parse(&rec[..rec.len() - 1]).unwrap_err(), DecodeError::Truncated);
    assert_eq!(RawMeasurement::parse(&qddb_frame()[2..40]).unwrap_err(), DecodeError::Truncated);
}

#[test]
fn minmax_record_layout() {
    let mut rec = b"#0".to_vec();
    for i in 0..26u16 {
        rec.extend_from_slice(&(i + 1).to_le_bytes());
    }
    rec.extend_from_slice(&0u16.to_le_bytes());
    rec.extend_from_slice(b"MM\r");
    assert_eq!(RawSavedMinMaxMeasurement::can_parse(&rec), Some(rec.len()));
    let m = RawSavedMinMaxMeasurement::parse(&rec).unwrap();
    assert_eq!(m.seq_no, 1);
    assert_eq!(m.pri_function, 11);
    assert_eq!(m.modes, 25);
    assert_eq!(m.un2, 26);
    assert_eq!(m.name, "MM");
}

#[test]
fn session_readings_fixed_length() {
    let mut rec = b"#0".to_vec();
    rec.extend_from_slice(&[0u8; 16]);
    for i in 0..3 {
        rec.extend_from_slice(&reading_bytes(i));
    }
    rec.extend_from_slice(&7u16.to_le_bytes());
    rec.extend_from_slice(&0u16.to_le_bytes());
    rec.extend_from_slice(&reading_bytes(9));
    rec.extend_from_slice(&[1, 0, 1, 0, 2, 0, b'\r']);
    assert_eq!(rec.len(), 149);
    assert_eq!(RawSessionRecordReadings::can_parse(&rec[..148]), None);
    assert_eq!(RawSessionRecordReadings::can_parse(&rec), Some(149));
    let m = RawSessionRecordReadings::parse(&rec).unwrap();
    assert_eq!(m.sampling, 7);
    assert_eq!(m.span_readings[2].reading_id, 2);
    assert_eq!(m.fixed_reading.reading_id, 9);
    assert_eq!((m.record_type, m.stable, m.transient_state), (1, 1, 2));
}

#[test]
fn single_reading_parse() {
    let bytes = reading_bytes(5);
    let r = RawReading::parse(&bytes).unwrap();
    assert_eq!(r.reading_id, 5);
    assert_eq!(f64::from_bits(r.value), 4.49);
    assert_eq!(r.unit, 9);
    assert_eq!(r.unit_multiplier, -3);
    assert_eq!(r.decimals, 2);
    assert_eq!(r.display_digits, 5);
    assert_eq!(r.state, 2);
    assert_eq!(r.attribute, 0);
    assert_eq!(RawReading::parse(&bytes[..29]).unwrap_err(), DecodeError::Truncated);
}
