//! Driver core for the SCD41 CO2/temperature/humidity sensor.
//!
//! The sensor speaks a command/response protocol over a two-wire bus: every
//! 2-byte big-endian data word on the wire is followed by one checksum byte.
//! This crate holds the protocol layer — checksum computation and
//! verification, command and payload encoding, response decoding with
//! per-word checksum validation, and the integer fixed-point conversions of
//! raw sensor counts into physical units — together with the typed sensor
//! operations, generic over a minimal bus transport.

pub mod checksum;
pub mod codec;
pub mod convert;
pub mod driver;
