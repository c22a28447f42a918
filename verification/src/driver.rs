//! The sensor protocol driver: typed operations over an injected bus
//! transport.
//!
//! Each operation is a single transaction sequence — write the 2-byte
//! command, pause for the command's settle delay, then optionally read and
//! decode a checksum-protected response. The driver never owns the
//! transport's lifecycle and performs no locking: the bus and the sensor are
//! one exclusively-owned resource, and the caller serializes access.
//!
//! Errors are non-fatal and two-kinded: a `Write` error means the transport
//! rejected the outgoing command, a `Read` error means the transport failed
//! to deliver a response, and a `Decode` error means the response it did
//! deliver was malformed or failed checksum validation (with the failing
//! word's position retrievable for diagnostics). No operation panics; the
//! caller decides whether to retry or skip a cycle.

use vstd::prelude::*;
use crate::codec::data_ready_from_status;
use crate::codec::decode_serial_response;
use crate::codec::decode_three_words;
use crate::codec::decode_word_response;
use crate::codec::encode_command;
use crate::codec::encode_command_with_word;
use crate::codec::DecodeError;
use crate::convert::measurement_from_raw;
use crate::convert::offset_raw_from_millicelsius;
use crate::convert::Measurement;

verus! {

/// The sensor's fixed bus address.
pub const SCD41_I2C_ADDR: u8 = 0x62;

/// Command code: wake the sensor from sleep.
pub const CMD_WAKEUP: u16 = 0x36F6;

/// Command code: start periodic measurement.
pub const CMD_START_PERIODIC_MEASUREMENT: u16 = 0x21B1;

/// Command code: stop periodic measurement.
pub const CMD_STOP_PERIODIC_MEASUREMENT: u16 = 0x3F86;

/// Command code: reinitialize the sensor.
pub const CMD_REINIT: u16 = 0x3646;

/// Command code: read the serial number.
pub const CMD_READ_SERIAL: u16 = 0x3682;

/// Command code: query the data-ready status word.
pub const CMD_GET_DATA_READY_STATUS: u16 = 0xE4B8;

/// Command code: read one measurement.
pub const CMD_READ_MEASUREMENT: u16 = 0xEC05;

/// Command code: read the temperature offset.
pub const CMD_GET_TEMPERATURE_OFFSET: u16 = 0x2318;

/// Command code: write the temperature offset.
pub const CMD_SET_TEMPERATURE_OFFSET: u16 = 0x241D;

/// A failure reported by the bus transport itself.
#[derive(Clone, Copy, Debug, PartialEq, Eq, Structural)]
pub struct TransportError;

/// How a driver operation fails.
#[derive(Clone, Copy, Debug, PartialEq, Eq, Structural)]
pub enum DriverError {
    /// The transport rejected or failed the outgoing command write.
    Write(TransportError),
    /// The transport failed to deliver the response.
    Read(TransportError),
    /// The response delivered was malformed or failed checksum validation.
    Decode(DecodeError),
}

/// The minimal transactional bus capability the driver is given: write bytes
/// to a device address, read bytes back from it, and pause for a command's
/// settle delay. The host environment supplies the implementation — a real
/// two-wire bus in production, a stub in tests — and nothing is assumed of
/// it: every response buffer an implementation hands back goes through full
/// validation before it is trusted.
pub trait Transport {
    /// Write `bytes` to the device at `addr`.
    fn write(&mut self, addr: u8, bytes: &[u8]) -> Result<(), TransportError>;

    /// Read `len` bytes from the device at `addr`.
    fn read(&mut self, addr: u8, len: usize) -> Result<Vec<u8>, TransportError>;

    /// Pause for `ms` milliseconds while the sensor processes a command.
    fn delay_ms(&mut self, ms: u32);
}

/// Write one command code to the sensor, serialized as 2 big-endian bytes.
fn write_command<T: Transport>(t: &mut T, code: u16) -> (r: Result<(), TransportError>) {
    let buf = encode_command(code);
    t.write(SCD41_I2C_ADDR, buf.as_slice())
}

/// Wake the sensor, then allow its 30 ms settle delay. No response; the only
/// possible failure is a rejected write.
pub fn wakeup<T: Transport>(t: &mut T) -> (r: Result<(), DriverError>)
    ensures
        r matches Err(e) ==> e is Write,
{
    match write_command(t, CMD_WAKEUP) {
        Ok(()) => {
            t.delay_ms(30);
            Ok(())
        },
        Err(e) => Err(DriverError::Write(e)),
    }
}

/// Start periodic measurement, then allow its 1 ms settle delay. No
/// response; the only possible failure is a rejected write.
pub fn start_periodic_measurement<T: Transport>(t: &mut T) -> (r: Result<(), DriverError>)
    ensures
        r matches Err(e) ==> e is Write,
{
    match write_command(t, CMD_START_PERIODIC_MEASUREMENT) {
        Ok(()) => {
            t.delay_ms(1);
            Ok(())
        },
        Err(e) => Err(DriverError::Write(e)),
    }
}

/// Stop periodic measurement, then allow its 500 ms settle delay. No
/// response; the only possible failure is a rejected write.
pub fn stop_periodic_measurement<T: Transport>(t: &mut T) -> (r: Result<(), DriverError>)
    ensures
        r matches Err(e) ==> e is Write,
{
    match write_command(t, CMD_STOP_PERIODIC_MEASUREMENT) {
        Ok(()) => {
            t.delay_ms(500);
            Ok(())
        },
        Err(e) => Err(DriverError::Write(e)),
    }
}

/// Reinitialize the sensor, then allow its 30 ms settle delay. No response;
/// the only possible failure is a rejected write.
pub fn reinit<T: Transport>(t: &mut T) -> (r: Result<(), DriverError>)
    ensures
        r matches Err(e) ==> e is Write,
{
    match write_command(t, CMD_REINIT) {
        Ok(()) => {
            t.delay_ms(30);
            Ok(())
        },
        Err(e) => Err(DriverError::Write(e)),
    }
}

/// Best-effort conditioning run once at startup: attempt wakeup, then
/// stop-periodic-measurement, then reinitialize, in that order. Each step's
/// failure is swallowed — the sensor may already be in any state — and the
/// sequence always completes without propagating an error.
pub fn clean_state<T: Transport>(t: &mut T) {
    let _ = wakeup(t);
    let _ = stop_periodic_measurement(t);
    let _ = reinit(t);
}

/// Read the sensor's 48-bit serial number: write the command, allow 1 ms,
/// read a 3-word response, validate every word's checksum, and concatenate
/// the three words big-endian, most significant word first. Whatever buffer
/// the transport hands back, a returned serial fits in 48 bits and came out
/// of a response whose every checksum verified, and a reported checksum
/// mismatch names one of the three words of a 3-word response.
pub fn read_serial<T: Transport>(t: &mut T) -> (r: Result<u64, DriverError>)
    ensures
        r matches Ok(s) ==> s < 0x1_0000_0000_0000,
        r matches Err(DriverError::Decode(DecodeError::ChecksumMismatch { word_index }))
            ==> word_index < 3,
{
    match write_command(t, CMD_READ_SERIAL) {
        Ok(()) => {},
        Err(e) => {
            return Err(DriverError::Write(e));
        },
    }
    t.delay_ms(1);
    let buf = match t.read(SCD41_I2C_ADDR, 9) {
        Ok(b) => b,
        Err(e) => {
            return Err(DriverError::Read(e));
        },
    };
    match decode_serial_response(buf.as_slice()) {
        Ok(s) => Ok(s),
        Err(e) => Err(DriverError::Decode(e)),
    }
}

/// Poll whether a measurement is ready: write the command, allow 1 ms, read
/// a 1-word response, validate its checksum, and test the status word's low
/// 11 bits. The flag is transient and recomputed on every poll. Whatever
/// buffer the transport hands back, a reported checksum mismatch names the
/// one word of a 1-word response.
pub fn get_data_ready_status<T: Transport>(t: &mut T) -> (r: Result<bool, DriverError>)
    ensures
        r matches Err(DriverError::Decode(DecodeError::ChecksumMismatch { word_index }))
            ==> word_index == 0,
{
    match write_command(t, CMD_GET_DATA_READY_STATUS) {
        Ok(()) => {},
        Err(e) => {
            return Err(DriverError::Write(e));
        },
    }
    t.delay_ms(1);
    let buf = match t.read(SCD41_I2C_ADDR, 3) {
        Ok(b) => b,
        Err(e) => {
            return Err(DriverError::Read(e));
        },
    };
    match decode_word_response(buf.as_slice()) {
        Ok(status) => Ok(data_ready_from_status(status)),
        Err(e) => Err(DriverError::Decode(e)),
    }
}

/// Read one measurement: write the command, allow 1 ms, read a 3-word
/// response, validate every word's checksum, and convert — word A is the CO2
/// count as-is, word B the raw temperature count, word C the raw humidity
/// count. Whatever buffer the transport hands back, a returned measurement's
/// converted fields lie in their physical ranges, and a reported checksum
/// mismatch names one of the three words of a 3-word response.
pub fn read_measurement<T: Transport>(t: &mut T) -> (r: Result<Measurement, DriverError>)
    ensures
        r matches Ok(m) ==> -45000 <= m.temperature_millicelsius <= 130000
            && m.humidity_millipercent <= 100000,
        r matches Err(DriverError::Decode(DecodeError::ChecksumMismatch { word_index }))
            ==> word_index < 3,
{
    match write_command(t, CMD_READ_MEASUREMENT) {
        Ok(()) => {},
        Err(e) => {
            return Err(DriverError::Write(e));
        },
    }
    t.delay_ms(1);
    let buf = match t.read(SCD41_I2C_ADDR, 9) {
        Ok(b) => b,
        Err(e) => {
            return Err(DriverError::Read(e));
        },
    };
    match decode_three_words(buf.as_slice()) {
        Ok((raw_co2, raw_temperature, raw_humidity)) => Ok(
            measurement_from_raw(raw_co2, raw_temperature, raw_humidity),
        ),
        Err(e) => Err(DriverError::Decode(e)),
    }
}

/// Read the configured temperature offset as the sensor's raw count: write
/// the command, allow 1 ms, read a 1-word response, and validate its
/// checksum. The offset in degrees Celsius is raw × 175 / 65535;
/// `crate::convert::offset_millicelsius_from_raw` performs that conversion
/// exactly in milli-units. Whatever buffer the transport hands back, a
/// reported checksum mismatch names the one word of a 1-word response.
pub fn get_temperature_offset<T: Transport>(t: &mut T) -> (r: Result<u16, DriverError>)
    ensures
        r matches Err(DriverError::Decode(DecodeError::ChecksumMismatch { word_index }))
            ==> word_index == 0,
{
    match write_command(t, CMD_GET_TEMPERATURE_OFFSET) {
        Ok(()) => {},
        Err(e) => {
            return Err(DriverError::Write(e));
        },
    }
    t.delay_ms(1);
    let buf = match t.read(SCD41_I2C_ADDR, 3) {
        Ok(b) => b,
        Err(e) => {
            return Err(DriverError::Read(e));
        },
    };
    match decode_word_response(buf.as_slice()) {
        Ok(raw) => Ok(raw),
        Err(e) => Err(DriverError::Decode(e)),
    }
}

/// Set the temperature offset, given in millidegrees Celsius. The offset is
/// converted to the sensor's raw count — mc × 65535 / 175000, truncated,
/// saturating at the 16-bit maximum — and written as one 5-byte payload: the
/// 2 command bytes, the data word's 2 bytes, and their checksum byte.
/// Fire-and-forget: no settle delay, no response; the only possible failure
/// is a rejected write.
pub fn set_temperature_offset<T: Transport>(t: &mut T, offset_millicelsius: u32) -> (r: Result<(), DriverError>)
    ensures
        r matches Err(e) ==> e is Write,
{
    let raw = offset_raw_from_millicelsius(offset_millicelsius);
    let payload = encode_command_with_word(CMD_SET_TEMPERATURE_OFFSET, raw);
    match t.write(SCD41_I2C_ADDR, payload.as_slice()) {
        Ok(()) => Ok(()),
        Err(e) => Err(DriverError::Write(e)),
    }
}

} // verus!
