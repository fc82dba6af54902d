use f289ctrl::command::Command;
use f289ctrl::error::TranslateError;
use f289ctrl::measurement::{
    unit_prefix, value_map_names, Attribute, AutoRange, Bolt, Measurement, Memory, Mode, Modes,
    PrimaryFunction, Reading, RecordType, SavedMeasurement, SecondaryFunction, Stable, State,
    TransientState, Unit, ValueMaps,
};
use f289ctrl::rawmea::{RawReading, RawSavedMeasurement};
use f289ctrl::response::ValueMap;
use f289ctrl::session::{expect_live_measurement, expect_value_map, Session};
use f289ctrl::text::{enclose_string, quoted_string, strip_string};

/// The device's answers to the eleven value map queries, in fetch order.
const GETEMAP: [u8; 1452] = [
    0x30, 0x0d, 0x34, 0x39, 0x2c, 0x30, 0x2c, 0x4c, 0x49, 0x4d, 0x42, 0x4f, 0x2c, 0x31,
    0x2c, 0x56, 0x5f, 0x41, 0x43, 0x2c, 0x32, 0x2c, 0x4d, 0x56, 0x5f, 0x41, 0x43, 0x2c,
    0x33, 0x2c, 0x56, 0x5f, 0x44, 0x43, 0x2c, 0x34, 0x2c, 0x4d, 0x56, 0x5f, 0x44, 0x43,
    0x2c, 0x35, 0x2c, 0x56, 0x5f, 0x41, 0x43, 0x5f, 0x4f, 0x56, 0x45, 0x52, 0x5f, 0x44,
    0x43, 0x2c, 0x36, 0x2c, 0x56, 0x5f, 0x44, 0x43, 0x5f, 0x4f, 0x56, 0x45, 0x52, 0x5f,
    0x41, 0x43, 0x2c, 0x37, 0x2c, 0x56, 0x5f, 0x41, 0x43, 0x5f, 0x50, 0x4c, 0x55, 0x53,
    0x5f, 0x44, 0x43, 0x2c, 0x38, 0x2c, 0x4d, 0x56, 0x5f, 0x41, 0x43, 0x5f, 0x4f, 0x56,
    0x45, 0x52, 0x5f, 0x44, 0x43, 0x2c, 0x39, 0x2c, 0x4d, 0x56, 0x5f, 0x44, 0x43, 0x5f,
    0x4f, 0x56, 0x45, 0x52, 0x5f, 0x41, 0x43, 0x2c, 0x31, 0x30, 0x2c, 0x4d, 0x56, 0x5f,
    0x41, 0x43, 0x5f, 0x50, 0x4c, 0x55, 0x53, 0x5f, 0x44, 0x43, 0x2c, 0x31, 0x31, 0x2c,
    0x41, 0x5f, 0x41, 0x43, 0x2c, 0x31, 0x32, 0x2c, 0x4d, 0x41, 0x5f, 0x41, 0x43, 0x2c,
    0x31, 0x33, 0x2c, 0x55, 0x41, 0x5f, 0x41, 0x43, 0x2c, 0x31, 0x34, 0x2c, 0x41, 0x5f,
    0x44, 0x43, 0x2c, 0x31, 0x35, 0x2c, 0x4d, 0x41, 0x5f, 0x44, 0x43, 0x2c, 0x31, 0x36,
    0x2c, 0x55, 0x41, 0x5f, 0x44, 0x43, 0x2c, 0x31, 0x37, 0x2c, 0x41, 0x5f, 0x41, 0x43,
    0x5f, 0x4f, 0x56, 0x45, 0x52, 0x5f, 0x44, 0x43, 0x2c, 0x31, 0x38, 0x2c, 0x41, 0x5f,
    0x44, 0x43, 0x5f, 0x4f, 0x56, 0x45, 0x52, 0x5f, 0x41, 0x43, 0x2c, 0x31, 0x39, 0x2c,
    0x41, 0x5f, 0x41, 0x43, 0x5f, 0x50, 0x4c, 0x55, 0x53, 0x5f, 0x44, 0x43, 0x2c, 0x32,
    0x30, 0x2c, 0x4d, 0x41, 0x5f, 0x41, 0x43, 0x5f, 0x4f, 0x56, 0x45, 0x52, 0x5f, 0x44,
    0x43, 0x2c, 0x32, 0x31, 0x2c, 0x4d, 0x41, 0x5f, 0x44, 0x43, 0x5f, 0x4f, 0x56, 0x45,
    0x52, 0x5f, 0x41, 0x43, 0x2c, 0x32, 0x32, 0x2c, 0x4d, 0x41, 0x5f, 0x41, 0x43, 0x5f,
    0x50, 0x4c, 0x55, 0x53, 0x5f, 0x44, 0x43, 0x2c, 0x32, 0x33, 0x2c, 0x55, 0x41, 0x5f,
    0x41, 0x43, 0x5f, 0x4f, 0x56, 0x45, 0x52, 0x5f, 0x44, 0x43, 0x2c, 0x32, 0x34, 0x2c,
    0x55, 0x41, 0x5f, 0x44, 0x43, 0x5f, 0x4f, 0x56, 0x45, 0x52, 0x5f, 0x41, 0x43, 0x2c,
    0x32, 0x35, 0x2c, 0x55, 0x41, 0x5f, 0x41, 0x43, 0x5f, 0x50, 0x4c, 0x55, 0x53, 0x5f,
    0x44, 0x43, 0x2c, 0x32, 0x36, 0x2c, 0x54, 0x45, 0x4d, 0x50, 0x45, 0x52, 0x41, 0x54,
    0x55, 0x52, 0x45, 0x2c, 0x32, 0x37, 0x2c, 0x4f, 0x48, 0x4d, 0x53, 0x2c, 0x32, 0x38,
    0x2c, 0x43, 0x4f, 0x4e, 0x44, 0x55, 0x43, 0x54, 0x41, 0x4e, 0x43, 0x45, 0x2c, 0x32,
    0x39, 0x2c, 0x43, 0x4f, 0x4e, 0x54, 0x49, 0x4e, 0x55, 0x49, 0x54, 0x59, 0x2c, 0x33,
    0x30, 0x2c, 0x43, 0x41, 0x50, 0x41, 0x43, 0x49, 0x54, 0x41, 0x4e, 0x43, 0x45, 0x2c,
    0x33, 0x31, 0x2c, 0x44, 0x49, 0x4f, 0x44, 0x45, 0x5f, 0x54, 0x45, 0x53, 0x54, 0x2c,
    0x33, 0x32, 0x2c, 0x56, 0x5f, 0x41, 0x43, 0x5f, 0x4c, 0x4f, 0x5a, 0x2c, 0x33, 0x33,
    0x2c, 0x4f, 0x48, 0x4d, 0x53, 0x5f, 0x4c, 0x4f, 0x57, 0x2c, 0x33, 0x34, 0x2c, 0x43,
    0x41, 0x4c, 0x5f, 0x56, 0x5f, 0x44, 0x43, 0x5f, 0x4c, 0x4f, 0x5a, 0x2c, 0x33, 0x35,
    0x2c, 0x43, 0x41, 0x4c, 0x5f, 0x41, 0x44, 0x5f, 0x47, 0x41, 0x49, 0x4e, 0x5f, 0x58,
    0x32, 0x2c, 0x33, 0x36, 0x2c, 0x43, 0x41, 0x4c, 0x5f, 0x41, 0x44, 0x5f, 0x47, 0x41,
    0x49, 0x4e, 0x5f, 0x58, 0x31, 0x2c, 0x33, 0x37, 0x2c, 0x43, 0x41, 0x4c, 0x5f, 0x52,
    0x4d, 0x53, 0x2c, 0x33, 0x38, 0x2c, 0x43, 0x41, 0x4c, 0x5f, 0x46, 0x49, 0x4c, 0x54,
    0x5f, 0x41, 0x4d, 0x50, 0x2c, 0x33, 0x39, 0x2c, 0x43, 0x41, 0x4c, 0x5f, 0x44, 0x43,
    0x5f, 0x41, 0x4d, 0x50, 0x5f, 0x58, 0x35, 0x2c, 0x34, 0x30, 0x2c, 0x43, 0x41, 0x4c,
    0x5f, 0x44, 0x43, 0x5f, 0x41, 0x4d, 0x50, 0x5f, 0x58, 0x31, 0x30, 0x2c, 0x34, 0x31,
    0x2c, 0x43, 0x41, 0x4c, 0x5f, 0x4e, 0x49, 0x4e, 0x56, 0x5f, 0x41, 0x43, 0x5f, 0x41,
    0x4d, 0x50, 0x2c, 0x34, 0x32, 0x2c, 0x43, 0x41, 0x4c, 0x5f, 0x49, 0x53, 0x52, 0x43,
    0x5f, 0x35, 0x30, 0x30, 0x4e, 0x41, 0x2c, 0x34, 0x33, 0x2c, 0x43, 0x41, 0x4c, 0x5f,
    0x43, 0x4f, 0x4d, 0x50, 0x5f, 0x54, 0x52, 0x49, 0x4d, 0x5f, 0x4d, 0x56, 0x5f, 0x44,
    0x43, 0x2c, 0x34, 0x34, 0x2c, 0x43, 0x41, 0x4c, 0x5f, 0x41, 0x43, 0x44, 0x43, 0x5f,
    0x41, 0x43, 0x5f, 0x43, 0x4f, 0x4d, 0x50, 0x2c, 0x34, 0x35, 0x2c, 0x43, 0x41, 0x4c,
    0x5f, 0x56, 0x5f, 0x41, 0x43, 0x5f, 0x4c, 0x4f, 0x5a, 0x2c, 0x34, 0x36, 0x2c, 0x43,
    0x41, 0x4c, 0x5f, 0x56, 0x5f, 0x41, 0x43, 0x5f, 0x50, 0x45, 0x41, 0x4b, 0x2c, 0x34,
    0x37, 0x2c, 0x43, 0x41, 0x4c, 0x5f, 0x4d, 0x56, 0x5f, 0x41, 0x43, 0x5f, 0x50, 0x45,
    0x41, 0x4b, 0x2c, 0x34, 0x38, 0x2c, 0x43, 0x41, 0x4c, 0x5f, 0x54, 0x45, 0x4d, 0x50,
    0x45, 0x52, 0x41, 0x54, 0x55, 0x52, 0x45, 0x0d, 0x30, 0x0d, 0x31, 0x30, 0x2c, 0x30,
    0x2c, 0x4e, 0x4f, 0x4e, 0x45, 0x2c, 0x31, 0x2c, 0x48, 0x45, 0x52, 0x54, 0x5a, 0x2c,
    0x32, 0x2c, 0x44, 0x55, 0x54, 0x59, 0x5f, 0x43, 0x59, 0x43, 0x4c, 0x45, 0x2c, 0x33,
    0x2c, 0x50, 0x55, 0x4c, 0x53, 0x45, 0x5f, 0x57, 0x49, 0x44, 0x54, 0x48, 0x2c, 0x34,
    0x2c, 0x44, 0x42, 0x4d, 0x2c, 0x35, 0x2c, 0x44, 0x42, 0x56, 0x2c, 0x36, 0x2c, 0x44,
    0x42, 0x4d, 0x5f, 0x48, 0x45, 0x52, 0x54, 0x5a, 0x2c, 0x37, 0x2c, 0x44, 0x42, 0x56,
    0x5f, 0x48, 0x45, 0x52, 0x54, 0x5a, 0x2c, 0x38, 0x2c, 0x43, 0x52, 0x45, 0x53, 0x54,
    0x5f, 0x46, 0x41, 0x43, 0x54, 0x4f, 0x52, 0x2c, 0x39, 0x2c, 0x50, 0x45, 0x41, 0x4b,
    0x5f, 0x4d, 0x49, 0x4e, 0x5f, 0x4d, 0x41, 0x58, 0x0d, 0x30, 0x0d, 0x32, 0x2c, 0x31,
    0x2c, 0x41, 0x55, 0x54, 0x4f, 0x2c, 0x30, 0x2c, 0x4d, 0x41, 0x4e, 0x55, 0x41, 0x4c,
    0x0d, 0x30, 0x0d, 0x32, 0x31, 0x2c, 0x30, 0x2c, 0x4e, 0x4f, 0x4e, 0x45, 0x2c, 0x31,
    0x2c, 0x56, 0x44, 0x43, 0x2c, 0x32, 0x2c, 0x56, 0x41, 0x43, 0x2c, 0x33, 0x2c, 0x56,
    0x41, 0x43, 0x5f, 0x50, 0x4c, 0x55, 0x53, 0x5f, 0x44, 0x43, 0x2c, 0x34, 0x2c, 0x56,
    0x2c, 0x35, 0x2c, 0x41, 0x44, 0x43, 0x2c, 0x36, 0x2c, 0x41, 0x41, 0x43, 0x2c, 0x37,
    0x2c, 0x41, 0x41, 0x43, 0x5f, 0x50, 0x4c, 0x55, 0x53, 0x5f, 0x44, 0x43, 0x2c, 0x38,
    0x2c, 0x41, 0x2c, 0x39, 0x2c, 0x4f, 0x48, 0x4d, 0x2c, 0x31, 0x30, 0x2c, 0x53, 0x49,
    0x45, 0x2c, 0x31, 0x31, 0x2c, 0x48, 0x7a, 0x2c, 0x31, 0x32, 0x2c, 0x53, 0x2c, 0x31,
    0x33, 0x2c, 0x46, 0x2c, 0x31, 0x34, 0x2c, 0x43, 0x45, 0x4c, 0x2c, 0x31, 0x35, 0x2c,
    0x46, 0x41, 0x52, 0x2c, 0x31, 0x36, 0x2c, 0x50, 0x43, 0x54, 0x2c, 0x31, 0x37, 0x2c,
    0x64, 0x42, 0x2c, 0x31, 0x38, 0x2c, 0x64, 0x42, 0x56, 0x2c, 0x31, 0x39, 0x2c, 0x64,
    0x42, 0x6d, 0x2c, 0x32, 0x30, 0x2c, 0x43, 0x52, 0x45, 0x53, 0x54, 0x5f, 0x46, 0x41,
    0x43, 0x54, 0x4f, 0x52, 0x0d, 0x30, 0x0d, 0x32, 0x2c, 0x30, 0x2c, 0x4f, 0x46, 0x46,
    0x2c, 0x31, 0x2c, 0x4f, 0x4e, 0x0d, 0x30, 0x0d, 0x31, 0x30, 0x2c, 0x30, 0x2c, 0x4e,
    0x4f, 0x4e, 0x45, 0x2c, 0x31, 0x2c, 0x41, 0x55, 0x54, 0x4f, 0x5f, 0x48, 0x4f, 0x4c,
    0x44, 0x2c, 0x32, 0x2c, 0x41, 0x55, 0x54, 0x4f, 0x5f, 0x53, 0x41, 0x56, 0x45, 0x2c,
    0x34, 0x2c, 0x48, 0x4f, 0x4c, 0x44, 0x2c, 0x38, 0x2c, 0x4c, 0x4f, 0x57, 0x5f, 0x50,
    0x41, 0x53, 0x53, 0x5f, 0x46, 0x49, 0x4c, 0x54, 0x45, 0x52, 0x2c, 0x31, 0x36, 0x2c,
    0x4d, 0x49, 0x4e, 0x5f, 0x4d, 0x41, 0x58, 0x5f, 0x41, 0x56, 0x47, 0x2c, 0x33, 0x32,
    0x2c, 0x52, 0x45, 0x43, 0x4f, 0x52, 0x44, 0x2c, 0x36, 0x34, 0x2c, 0x52, 0x45, 0x4c,
    0x2c, 0x31, 0x32, 0x38, 0x2c, 0x52, 0x45, 0x4c, 0x5f, 0x50, 0x45, 0x52, 0x43, 0x45,
    0x4e, 0x54, 0x2c, 0x32, 0x35, 0x36, 0x2c, 0x43, 0x41, 0x4c, 0x49, 0x42, 0x52, 0x41,
    0x54, 0x49, 0x4f, 0x4e, 0x0d, 0x30, 0x0d, 0x38, 0x2c, 0x30, 0x2c, 0x49, 0x4e, 0x41,
    0x43, 0x54, 0x49, 0x56, 0x45, 0x2c, 0x31, 0x2c, 0x49, 0x4e, 0x56, 0x41, 0x4c, 0x49,
    0x44, 0x2c, 0x32, 0x2c, 0x4e, 0x4f, 0x52, 0x4d, 0x41, 0x4c, 0x2c, 0x33, 0x2c, 0x42,
    0x4c, 0x41, 0x4e, 0x4b, 0x2c, 0x34, 0x2c, 0x44, 0x49, 0x53, 0x43, 0x48, 0x41, 0x52,
    0x47, 0x45, 0x2c, 0x35, 0x2c, 0x4f, 0x4c, 0x2c, 0x36, 0x2c, 0x4f, 0x4c, 0x5f, 0x4d,
    0x49, 0x4e, 0x55, 0x53, 0x2c, 0x37, 0x2c, 0x4f, 0x50, 0x45, 0x4e, 0x5f, 0x54, 0x43,
    0x0d, 0x30, 0x0d, 0x39, 0x2c, 0x30, 0x2c, 0x4e, 0x4f, 0x4e, 0x45, 0x2c, 0x31, 0x2c,
    0x4f, 0x50, 0x45, 0x4e, 0x5f, 0x43, 0x49, 0x52, 0x43, 0x55, 0x49, 0x54, 0x2c, 0x32,
    0x2c, 0x53, 0x48, 0x4f, 0x52, 0x54, 0x5f, 0x43, 0x49, 0x52, 0x43, 0x55, 0x49, 0x54,
    0x2c, 0x33, 0x2c, 0x47, 0x4c, 0x49, 0x54, 0x43, 0x48, 0x5f, 0x43, 0x49, 0x52, 0x43,
    0x55, 0x49, 0x54, 0x2c, 0x34, 0x2c, 0x47, 0x4f, 0x4f, 0x44, 0x5f, 0x44, 0x49, 0x4f,
    0x44, 0x45, 0x2c, 0x35, 0x2c, 0x4c, 0x4f, 0x5f, 0x4f, 0x48, 0x4d, 0x53, 0x2c, 0x36,
    0x2c, 0x4e, 0x45, 0x47, 0x41, 0x54, 0x49, 0x56, 0x45, 0x5f, 0x45, 0x44, 0x47, 0x45,
    0x2c, 0x37, 0x2c, 0x50, 0x4f, 0x53, 0x49, 0x54, 0x49, 0x56, 0x45, 0x5f, 0x45, 0x44,
    0x47, 0x45, 0x2c, 0x38, 0x2c, 0x48, 0x49, 0x47, 0x48, 0x5f, 0x43, 0x55, 0x52, 0x52,
    0x45, 0x4e, 0x54, 0x0d, 0x30, 0x0d, 0x32, 0x2c, 0x30, 0x2c, 0x49, 0x4e, 0x50, 0x55,
    0x54, 0x2c, 0x31, 0x2c, 0x49, 0x4e, 0x54, 0x45, 0x52, 0x56, 0x41, 0x4c, 0x0d, 0x30,
    0x0d, 0x32, 0x2c, 0x30, 0x2c, 0x55, 0x4e, 0x53, 0x54, 0x41, 0x42, 0x4c, 0x45, 0x2c,
    0x31, 0x2c, 0x53, 0x54, 0x41, 0x42, 0x4c, 0x45, 0x0d, 0x30, 0x0d, 0x35, 0x2c, 0x30,
    0x2c, 0x4e, 0x4f, 0x4e, 0x5f, 0x54, 0x2c, 0x31, 0x2c, 0x52, 0x41, 0x4e, 0x47, 0x45,
    0x5f, 0x55, 0x50, 0x2c, 0x32, 0x2c, 0x52, 0x41, 0x4e, 0x47, 0x45, 0x5f, 0x44, 0x4f,
    0x57, 0x4e, 0x2c, 0x33, 0x2c, 0x4f, 0x56, 0x45, 0x52, 0x4c, 0x4f, 0x41, 0x44, 0x2c,
    0x34, 0x2c, 0x4f, 0x50, 0x45, 0x4e, 0x5f, 0x54, 0x43, 0x0d,
];

fn qddb_reply() -> Vec<u8> {
    vec![
        0x30, 0x0d, 0x23, 0x30, 0x1b, 0x00, 0x00, 0x00, 0x01, 0x00, 0x09, 0x00, 0x00, 0x40,
        0x7f, 0x40, 0x00, 0x00, 0x00, 0x00, 0x00, 0x00, 0x00, 0x00, 0x00, 0x00, 0x00, 0x00,
        0x00, 0x00, 0x00, 0x00, 0x00, 0x00, 0x00, 0x00, 0x02, 0x00, 0x01, 0x00, 0xc2, 0xf5,
        0x11, 0x40, 0xf6, 0x28, 0x5c, 0x8f, 0x09, 0x00, 0x00, 0x00, 0x02, 0x00, 0x05, 0x00,
        0x02, 0x00, 0x00, 0x00, 0xbf, 0xf3, 0xd8, 0x41, 0x00, 0x40, 0x9d, 0xeb, 0x02, 0x00,
        0xc2, 0xf5, 0x11, 0x40, 0xf6, 0x28, 0x5c, 0x8f, 0x09, 0x00, 0x00, 0x00, 0x02, 0x00,
        0x05, 0x00, 0x02, 0x00, 0x00, 0x00, 0xbf, 0xf3, 0xd8, 0x41, 0x00, 0x40, 0x9d, 0xeb,
        0x0d,
    ]
}

/// Runs the value map queries against the recorded answers; returns the
/// maps once every answer has been used.
fn fetch_maps(s: &mut Session, input: &[u8]) -> ValueMaps {
    let mut maps = ValueMaps::new();
    let mut pending: &[u8] = input;
    for name in value_map_names() {
        s.send(Command::QueryMap(name.to_string())).unwrap();
        let resp = loop {
            let take = pending.len().min(64);
            let (chunk, rest) = pending.split_at(take);
            pending = rest;
            if let Some(resp) = s.receive(chunk).unwrap() {
                break resp;
            }
            assert!(take > 0, "ran out of bytes");
        };
        assert!(maps.set(name, expect_value_map(resp).unwrap()));
    }
    assert!(pending.is_empty());
    maps
}

#[test]
fn qddb_parse() {
    let mut s = Session::new();
    let maps = fetch_maps(&mut s, &GETEMAP);
    s.send(Command::GetMeasurementBinary).unwrap();
    let resp = s.receive(&qddb_reply()).unwrap().expect("Raw measurement");
    let raw_mea = expect_live_measurement(resp).unwrap().expect("No data returned");
    assert_eq!(raw_mea.pri_function, 27);
    assert_eq!(raw_mea.sec_function, 0);
    assert_eq!(raw_mea.auto_range, 1);
    assert_eq!(raw_mea.unit, 9);
    assert_eq!(raw_mea.unit_multiplier, 0);
    assert_eq!(raw_mea.bolt, 0);
    assert_eq!(raw_mea.modes, 0);
    assert_eq!(raw_mea.readings.len(), 2);
    assert_eq!(PrimaryFunction::from_code(raw_mea.pri_function, &maps).unwrap(), PrimaryFunction::OHMS);
    assert_eq!(SecondaryFunction::from_code(raw_mea.sec_function, &maps).unwrap(), SecondaryFunction::NoSecondary);
    assert_eq!(AutoRange::from_code(raw_mea.auto_range, &maps).unwrap(), AutoRange(true));
    assert_eq!(Unit::from_code(raw_mea.unit, &maps).unwrap(), Unit::Ohm);
    assert_eq!(Bolt::from_code(raw_mea.bolt, &maps).unwrap(), Bolt(false));
    let modes = Modes::from_code(raw_mea.modes, &maps).unwrap();
    assert_eq!(modes.0, vec![Mode::NoMode]);
    assert_eq!(modes.label(), "");
    let r = &raw_mea.readings[0];
    assert_eq!(State::from_code(r.state, &maps).unwrap(), State::Normal);
    assert_eq!(Attribute::from_code(r.attribute, &maps).unwrap(), None);
    assert_eq!(Unit::from_code(r.unit, &maps).unwrap().label(), "\u{2126}");
}

#[test]
fn value_maps_from_device() {
    let mut s = Session::new();
    let maps = fetch_maps(&mut s, &GETEMAP);
    assert_eq!(maps.primfunction.len(), 49);
    assert_eq!(maps.unit.len(), 21);
    assert_eq!(maps.mode.len(), 10);
    assert_eq!(maps.transientstate.len(), 5);
    assert_eq!(RecordType::from_code(1, &maps).unwrap(), RecordType::Interval);
    assert_eq!(Stable::from_code(1, &maps).unwrap(), Stable(true));
    assert_eq!(TransientState::from_code(4, &maps).unwrap(), TransientState::OpenTC);
    assert_eq!(Attribute::from_code(5, &maps).unwrap(), Some(Attribute::LoOhms));
    let modes = Modes::from_code(4 | 64 | 256, &maps).unwrap();
    assert_eq!(modes.0, vec![Mode::NoMode, Mode::Hold, Mode::Rel, Mode::Calibration]);
    assert!(modes.is(Mode::Rel));
    assert!(!modes.is(Mode::RelPercent));
    assert_eq!(modes.label(), "Hold, Rel., Cal.");
}

#[test]
fn unknown_codes_are_typed_errors() {
    let mut maps = ValueMaps::new();
    assert_eq!(PrimaryFunction::from_code(3, &maps), Err(TranslateError::UnknownCode(3)));
    let mut m = ValueMap::new();
    m.insert(3, "WARP_DRIVE".to_string());
    assert!(maps.set("primfunction", m));
    assert_eq!(PrimaryFunction::from_code(3, &maps), Err(TranslateError::UnknownName(3)));
    assert!(!maps.set("nosuchmap", ValueMap::new()));
    let mut modes = ValueMap::new();
    modes.insert(2, "TURBO".to_string());
    assert!(maps.set("mode", modes));
    assert_eq!(Modes::from_code(3, &maps), Err(TranslateError::UnknownName(2)));
    assert_eq!(Modes::from_code(1, &maps).unwrap().0, vec![]);
}

#[test]
fn labels_and_prefixes() {
    assert_eq!(unit_prefix(-3), "m");
    assert_eq!(unit_prefix(0), "");
    assert_eq!(unit_prefix(6), "M");
    assert_eq!(unit_prefix(5), "?");
    assert_eq!(PrimaryFunction::V_DC.label(), "V DC");
    assert_eq!(Attribute::GoodDiode.label(), "Good Diode");
    assert_eq!(Attribute::GoodDiode.short_label(), "Diode OK");
    assert_eq!(RecordType::Input.label(), "Input");
}

#[test]
fn quoting_helpers() {
    assert_eq!(strip_string("'Alice'"), "Alice");
    assert_eq!(strip_string("x"), "");
    assert_eq!(enclose_string("Bob"), "'Bob'");
    assert_eq!(quoted_string("Bob"), "\"Bob\"");
}

#[test]
fn live_measurement_translates() {
    let mut s = Session::new();
    let maps = fetch_maps(&mut s, &GETEMAP);
    s.send(Command::GetMeasurementBinary).unwrap();
    let resp = s.receive(&qddb_reply()).unwrap().unwrap();
    let raw = expect_live_measurement(resp).unwrap().unwrap();
    let m = Measurement::from_raw(&raw, &maps).unwrap();
    assert_eq!(m.pri_function, PrimaryFunction::OHMS);
    assert_eq!(m.sec_function, SecondaryFunction::NoSecondary);
    assert_eq!(m.auto_range, AutoRange(true));
    assert_eq!(m.unit, Unit::Ohm);
    assert_eq!(m.bolt, Bolt(false));
    assert_eq!(m.ts, None);
    assert_eq!(f64::from_bits(m.range_max), 500.0);
    assert_eq!(m.readings.len(), 2);
    assert_eq!(m.readings[0].unit, Unit::Ohm);
    assert_eq!(m.readings[0].state, State::Normal);
    assert_eq!(m.readings[0].attribute, None);
    assert_eq!(f64::from_bits(m.readings[0].value), 4.49);
}

#[test]
fn first_untranslatable_code_is_reported() {
    let mut s = Session::new();
    let maps = fetch_maps(&mut s, &GETEMAP);
    let raw = RawReading {
        reading_id: 1,
        value: 0,
        unit: 99,
        unit_multiplier: 0,
        decimals: 0,
        display_digits: 5,
        state: 77,
        attribute: 0,
        ts: 0,
    };
    assert_eq!(Reading::from_raw(&raw, &maps), Err(TranslateError::UnknownCode(99)));
    let raw = RawReading { unit: 1, ..raw };
    assert_eq!(Reading::from_raw(&raw, &maps), Err(TranslateError::UnknownCode(77)));
    let raw = RawReading { state: 2, ..raw };
    let r = Reading::from_raw(&raw, &maps).unwrap();
    assert_eq!(r.unit, Unit::VoltDC);
    assert_eq!(r.state, State::Normal);
}

#[test]
fn saved_measurement_translates_with_name() {
    let mut s = Session::new();
    let maps = fetch_maps(&mut s, &GETEMAP);
    let reading = RawReading {
        reading_id: 0,
        value: 0x407f_4000_0000_0000,
        unit: 2,
        unit_multiplier: -3,
        decimals: 3,
        display_digits: 5,
        state: 2,
        attribute: 4,
        ts: 0,
    };
    let raw = RawSavedMeasurement {
        seq_no: 7,
        un1: 0,
        pri_function: 1,
        sec_function: 1,
        auto_range: 0,
        unit: 2,
        range_max: 0,
        unit_multiplier: 0,
        bolt: 1,
        un2: 0,
        un3: 0,
        un4: 0,
        un5: 0,
        modes: 0,
        un6: 0,
        readings: vec![reading],
        name: "SAVE 3".to_string(),
    };
    let m = SavedMeasurement::from_raw(&raw, &maps).unwrap();
    assert_eq!(m.seq_no, 7);
    assert_eq!(m.pri_function, PrimaryFunction::V_AC);
    assert_eq!(m.sec_function, SecondaryFunction::Hertz);
    assert_eq!(m.auto_range, AutoRange(false));
    assert_eq!(m.bolt, Bolt(true));
    assert_eq!(m.readings[0].attribute, Some(Attribute::GoodDiode));
    let entry = Memory::Measurement(m);
    assert_eq!(entry.name(), "SAVE 3");
}

#[test]
fn mode_entries_with_several_bits_match() {
    let mut maps = ValueMaps::new();
    let mut modes = ValueMap::new();
    modes.insert(0, "NONE".to_string());
    modes.insert(3, "HOLD".to_string());
    modes.insert(8, "REL".to_string());
    assert!(maps.set("mode", modes));
    assert_eq!(Modes::from_code(7, &maps).unwrap().0, vec![Mode::NoMode, Mode::Hold]);
    assert_eq!(Modes::from_code(1, &maps).unwrap().0, vec![Mode::NoMode]);
    assert_eq!(
        Modes::from_code(11, &maps).unwrap().0,
        vec![Mode::NoMode, Mode::Hold, Mode::Rel]
    );
}
