use scd41::checksum::checksum;
use scd41::codec::encode_words;
use scd41::codec::DecodeError;
use scd41::driver::clean_state;
use scd41::driver::get_data_ready_status;
use scd41::driver::get_temperature_offset;
use scd41::driver::read_measurement;
use scd41::driver::read_serial;
use scd41::driver::reinit;
use scd41::driver::set_temperature_offset;
use scd41::driver::start_periodic_measurement;
use scd41::driver::stop_periodic_measurement;
use scd41::driver::wakeup;
use scd41::driver::DriverError;
use scd41::driver::Transport;
use scd41::driver::TransportError;
use scd41::driver::SCD41_I2C_ADDR;

/// A transport whose every write and read fails.
struct FailingTransport {
    writes_attempted: usize,
}

impl Transport for FailingTransport {
    fn write(&mut self, _addr: u8, _bytes: &[u8]) -> Result<(), TransportError> {
        self.writes_attempted += 1;
        Err(TransportError)
    }

    fn read(&mut self, _addr: u8, _len: usize) -> Result<Vec<u8>, TransportError> {
        Err(TransportError)
    }

    fn delay_ms(&mut self, _ms: u32) {}
}

/// A transport that records what was written and answers every read with a
/// fixed response buffer.
struct ScriptedTransport {
    written: Vec<Vec<u8>>,
    addr_seen: Vec<u8>,
    response: Vec<u8>,
}

impl Transport for ScriptedTransport {
    fn write(&mut self, addr: u8, bytes: &[u8]) -> Result<(), TransportError> {
        self.addr_seen.push(addr);
        self.written.push(bytes.to_vec());
        Ok(())
    }

    fn read(&mut self, addr: u8, _len: usize) -> Result<Vec<u8>, TransportError> {
        self.addr_seen.push(addr);
        Ok(self.response.clone())
    }

    fn delay_ms(&mut self, _ms: u32) {}
}

fn scripted(response: Vec<u8>) -> ScriptedTransport {
    ScriptedTransport { written: Vec::new(), addr_seen: Vec::new(), response }
}

/// A loopback stub: a data-carrying write stores its data word and checksum,
/// and every read plays that word back as a 1-word response.
struct LoopbackTransport {
    word_and_crc: Vec<u8>,
}

impl Transport for LoopbackTransport {
    fn write(&mut self, _addr: u8, bytes: &[u8]) -> Result<(), TransportError> {
        if bytes.len() == 5 {
            self.word_and_crc = bytes[2..5].to_vec();
        }
        Ok(())
    }

    fn read(&mut self, _addr: u8, _len: usize) -> Result<Vec<u8>, TransportError> {
        Ok(self.word_and_crc.clone())
    }

    fn delay_ms(&mut self, _ms: u32) {}
}

/// The clean-state sequence on a transport that fails every write still
/// completes without propagating an error, after attempting all three steps.
#[test]
fn clean_state_swallows_every_write_failure() {
    let mut t = FailingTransport { writes_attempted: 0 };
    clean_state(&mut t);
    assert_eq!(t.writes_attempted, 3);
}

/// A rejected command write surfaces as a write error, distinct from a read
/// error, on every operation.
#[test]
fn write_failure_is_reported_as_a_write_error() {
    let mut t = FailingTransport { writes_attempted: 0 };
    assert_eq!(wakeup(&mut t), Err(DriverError::Write(TransportError)));
    assert_eq!(start_periodic_measurement(&mut t), Err(DriverError::Write(TransportError)));
    assert_eq!(stop_periodic_measurement(&mut t), Err(DriverError::Write(TransportError)));
    assert_eq!(read_serial(&mut t), Err(DriverError::Write(TransportError)));
    assert_eq!(read_measurement(&mut t), Err(DriverError::Write(TransportError)));
    assert_eq!(set_temperature_offset(&mut t, 4000), Err(DriverError::Write(TransportError)));
}

/// A transport that accepts every write but fails every read.
struct WriteOkReadFail;

impl Transport for WriteOkReadFail {
    fn write(&mut self, _addr: u8, _bytes: &[u8]) -> Result<(), TransportError> {
        Ok(())
    }

    fn read(&mut self, _addr: u8, _len: usize) -> Result<Vec<u8>, TransportError> {
        Err(TransportError)
    }

    fn delay_ms(&mut self, _ms: u32) {}
}

/// A failed response read surfaces as a read error.
#[test]
fn read_failure_is_reported_as_a_read_error() {
    let mut t = WriteOkReadFail;
    assert_eq!(read_serial(&mut t), Err(DriverError::Read(TransportError)));
    assert_eq!(get_data_ready_status(&mut t), Err(DriverError::Read(TransportError)));
}

/// Data-ready: status 0x0001 (low 11 bits non-zero) reports true, status
/// 0x0000 reports false, and bit 15 alone is masked out.
#[test]
fn data_ready_status_masks_low_bits() {
    let mut t = scripted(vec![0x00, 0x01, checksum(0x00, 0x01)]);
    assert_eq!(get_data_ready_status(&mut t), Ok(true));
    assert_eq!(t.written, vec![vec![0xE4, 0xB8]]);
    assert_eq!(t.addr_seen, vec![SCD41_I2C_ADDR, SCD41_I2C_ADDR]);

    let mut t = scripted(vec![0x00, 0x00, checksum(0x00, 0x00)]);
    assert_eq!(get_data_ready_status(&mut t), Ok(false));

    let mut t = scripted(vec![0x80, 0x00, checksum(0x80, 0x00)]);
    assert_eq!(get_data_ready_status(&mut t), Ok(false));
}

/// A data-ready response with a corrupted checksum is a decode error at
/// word position 0.
#[test]
fn data_ready_with_bad_checksum_is_a_decode_error() {
    let mut t = scripted(vec![0x00, 0x01, checksum(0x00, 0x01) ^ 1]);
    assert_eq!(
        get_data_ready_status(&mut t),
        Err(DriverError::Decode(DecodeError::ChecksumMismatch { word_index: 0 }))
    );
}

/// Reading the serial number issues command 0x3682 and assembles the three
/// response words big-endian.
#[test]
fn read_serial_assembles_the_response_words() {
    let mut t = scripted(encode_words(&vec![0xF896, 0x31B7, 0x3BFC]));
    assert_eq!(read_serial(&mut t), Ok(0xF896_31B7_3BFC));
    assert_eq!(t.written, vec![vec![0x36, 0x82]]);
}

/// A serial response of the wrong length is a decode error.
#[test]
fn read_serial_rejects_short_responses() {
    let mut t = scripted(encode_words(&vec![0xF896]));
    assert_eq!(read_serial(&mut t), Err(DriverError::Decode(DecodeError::InvalidLength)));
}

/// Reading a measurement issues command 0xEC05, validates all three words,
/// and converts: CO2 unscaled, temperature and humidity in milli-units.
#[test]
fn read_measurement_decodes_and_converts() {
    let mut t = scripted(encode_words(&vec![500, 0x8000, 0x8000]));
    let m = read_measurement(&mut t).unwrap();
    assert_eq!(t.written, vec![vec![0xEC, 0x05]]);
    assert_eq!(m.co2, 500);
    assert_eq!(m.temperature_millicelsius, 42501);
    assert_eq!(m.humidity_millipercent, 50000);
}

/// Setting the temperature offset writes the 5-byte payload — command
/// 0x241D, the raw word, its checksum — with no response read.
#[test]
fn set_temperature_offset_writes_command_word_and_checksum() {
    let mut t = scripted(Vec::new());
    // 4000 millidegrees → raw 1497 = 0x05D9
    assert_eq!(set_temperature_offset(&mut t, 4000), Ok(()));
    assert_eq!(t.written, vec![vec![0x24, 0x1D, 0x05, 0xD9, checksum(0x05, 0xD9)]]);
}

/// Every operation puts its own 2-byte big-endian command code on the wire.
#[test]
fn each_operation_writes_its_command_code() {
    let mut t = scripted(vec![0x00, 0x00, checksum(0x00, 0x00)]);
    assert_eq!(wakeup(&mut t), Ok(()));
    assert_eq!(start_periodic_measurement(&mut t), Ok(()));
    assert_eq!(stop_periodic_measurement(&mut t), Ok(()));
    assert_eq!(reinit(&mut t), Ok(()));
    assert_eq!(get_temperature_offset(&mut t), Ok(0x0000));
    assert_eq!(
        t.written,
        vec![
            vec![0x36, 0xF6],
            vec![0x21, 0xB1],
            vec![0x3F, 0x86],
            vec![0x36, 0x46],
            vec![0x23, 0x18],
        ]
    );
}

/// Set-then-get of a 4.0 °C offset through a loopback stub returns a value
/// within one raw count's rounding error of 4.0 °C.
#[test]
fn offset_round_trip_is_within_one_raw_count() {
    let mut t = LoopbackTransport { word_and_crc: Vec::new() };
    set_temperature_offset(&mut t, 4000).unwrap();
    let raw: u16 = get_temperature_offset(&mut t).unwrap();
    let degrees: f64 = raw as f64 * 175.0 / 65535.0;
    let one_raw_count: f64 = 175.0 / 65535.0;
    assert!((degrees - 4.0).abs() <= one_raw_count);
}
