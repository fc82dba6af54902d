//! Protocol library for the Fluke 287/289 handheld multimeters: the binary
//! record decoders, the response framing state machine, the command encoder
//! and the one-command-at-a-time session discipline.
use vstd::prelude::*;

pub mod codec;
pub mod command;
pub mod error;
pub mod measurement;
pub mod rawmea;
pub mod session;
pub mod response;
pub mod text;
pub mod wire;

verus! {

/// Default baud rate of the Fluke 287 and 289.
pub const DEFAULT_BAUDRATE: u32 = 115200;

} // verus!
