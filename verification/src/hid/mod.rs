//! HID reports of the Surface Dial, and the device interface the daemon reads
//! them through.

pub mod mock;

use std::time::Duration;
use vstd::prelude::*;

verus! {

/// Errors that can occur during HID operations.
#[derive(Debug)]
pub enum HidError {
    /// I/O error during read/write
    Io(String),
    /// Device was disconnected
    Disconnected,
    /// Read operation timed out with no data
    Timeout,
    /// Device not found
    NotFound,
    /// HID API initialization failed
    ApiError(String),
}

/// Operations on a HID device.
///
/// Implemented by the simulated dial of this library and by the application's
/// wrapper around a real device.
pub trait HidDevice {
    /// Reads one report into `buf`, waiting at most `timeout`.
    ///
    /// Returns the number of bytes read, `HidError::Timeout` when no report
    /// arrived in time.
    fn read_timeout(&mut self, buf: &mut [u8], timeout: Duration) -> Result<usize, HidError>;

    /// Writes `data` to the device.
    fn write(&mut self, data: &[u8]) -> Result<usize, HidError>;

    /// Reads a feature report into `buf` (report id, then data).
    fn get_feature_report(&mut self, buf: &mut [u8]) -> Result<usize, HidError>;

    /// Sets blocking mode.
    fn set_blocking_mode(&mut self, blocking: bool) -> Result<(), HidError>;
}

/// The report id of a standard dial report.
pub const DIAL_REPORT_ID: u8 = 0x01;

/// One input report of the Surface Dial.
#[derive(Debug, Clone, Copy, PartialEq, Eq, Structural)]
pub struct DialReport {
    /// Report ID (0x01 for standard dial reports)
    pub report_id: u8,
    /// Button state (bit 0 of the second byte)
    pub button_pressed: bool,
    /// Rotation value (-127 to 127), the third byte read as signed
    pub rotation: i8,
}

/// What `DialReport::parse` makes of a byte buffer: a standard report when
/// the buffer holds at least three bytes and starts with the dial report id.
pub open spec fn parse_report(buf: Seq<u8>) -> Option<DialReport> {
    if buf.len() < 3 || buf[0] != DIAL_REPORT_ID {
        None
    } else {
        Some(
            DialReport {
                report_id: buf[0],
                button_pressed: buf[1] % 2 == 1,
                rotation: buf[2] as i8,
            },
        )
    }
}

/// The three bytes of a report.
pub open spec fn report_bytes(r: DialReport) -> Seq<u8> {
    seq![r.report_id, if r.button_pressed { 1u8 } else { 0u8 }, r.rotation as u8]
}

impl DialReport {
    /// Parses a dial report from raw HID data; `None` when the data is not a
    /// standard dial report.
    pub fn parse(buf: &[u8]) -> (r: Option<Self>)
        ensures
            r == parse_report(buf@),
    {
        if buf.len() < 3 || buf[0] != DIAL_REPORT_ID {
            return None;
        }
        let b1 = buf[1];
        let pressed = (b1 & 0x01) != 0;
        assert(((b1 & 0x01) != 0) == (b1 % 2 == 1)) by (bit_vector);
        Some(Self { report_id: buf[0], button_pressed: pressed, rotation: buf[2] as i8 })
    }

    /// A standard dial report with the given state.
    pub fn new(button_pressed: bool, rotation: i8) -> (r: Self)
        ensures
            r == (DialReport { report_id: DIAL_REPORT_ID, button_pressed, rotation }),
    {
        Self { report_id: DIAL_REPORT_ID, button_pressed, rotation }
    }

    /// Encodes the report as its three bytes.
    pub fn to_bytes(&self) -> (b: [u8; 3])
        ensures
            b@ == report_bytes(*self),
    {
        let b = [self.report_id, if self.button_pressed { 0x01 } else { 0x00 }, self.rotation as u8];
        assert(b@ =~= report_bytes(*self));
        b
    }
}

/// Encoding a standard report and parsing the bytes gives the report back.
pub proof fn lemma_report_roundtrip(r: DialReport)
    requires
        r.report_id == DIAL_REPORT_ID,
    ensures
        parse_report(report_bytes(r)) == Some(r),
{
    let rot = r.rotation;
    assert((rot as u8) as i8 == rot) by (bit_vector);
}

/// Parsing bytes and encoding the report gives back the first three bytes,
/// with the button byte reduced to its lowest bit.
pub proof fn lemma_parse_then_encode(buf: Seq<u8>)
    requires
        parse_report(buf) is Some,
    ensures
        report_bytes(parse_report(buf)->0) == seq![buf[0], buf[1] % 2, buf[2]],
{
    let b2 = buf[2];
    assert((b2 as i8) as u8 == b2) by (bit_vector);
    assert(report_bytes(parse_report(buf)->0) =~= seq![buf[0], buf[1] % 2, buf[2]]);
}

} // verus!
