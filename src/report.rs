//! The six-byte vendor feature report that reads and writes the debounce
//! register.

use vstd::prelude::*;
use crate::debounce::{decode, decoded, encode, encoded, DebounceTime};

verus! {

/// Length of every debounce feature report, in bytes.
pub const REPORT_LEN: usize = 6;

/// Report ID of the vendor feature report.
pub const REPORT_ID: u8 = 0x05;

/// Sub-command that selects the debounce register.
pub const DEBOUNCE_SELECTOR: u8 = 0x1a;

/// Index of the payload byte within a report.
pub const PAYLOAD_INDEX: usize = 2;

/// A debounce report carrying `payload`: report ID, selector, payload and
/// three reserved zero bytes.
pub open spec fn report_bytes(payload: u8) -> Seq<u8> {
    seq![REPORT_ID, DEBOUNCE_SELECTOR, payload, 0u8, 0u8, 0u8]
}

/// The report sent to prime the debounce register for readback; it is also
/// the buffer into which the reply is received.
pub fn probe_report() -> (r: [u8; REPORT_LEN])
    ensures
        r@ == report_bytes(0),
{
    let r: [u8; REPORT_LEN] = [REPORT_ID, DEBOUNCE_SELECTOR, 0, 0, 0, 0];
    assert(r@ =~= report_bytes(0));
    r
}

/// The report that sets the debounce register to `d`.
pub fn write_report(d: DebounceTime) -> (r: [u8; REPORT_LEN])
    ensures
        r@ == report_bytes(encoded(d@) as u8),
{
    let payload = encode(d.ms());
    let r: [u8; REPORT_LEN] = [REPORT_ID, DEBOUNCE_SELECTOR, payload, 0, 0, 0];
    assert(r@ =~= report_bytes(encoded(d@) as u8));
    r
}

/// The debounce time, in milliseconds, that a reply from the device reports:
/// twice its payload byte. A reply too short to hold that byte reports
/// nothing.
pub open spec fn reply_value(reply: Seq<u8>) -> Option<u16> {
    if reply.len() > PAYLOAD_INDEX {
        Some(decoded(reply[PAYLOAD_INDEX as int] as int) as u16)
    } else {
        None
    }
}

/// Reads the debounce time out of a reply from the device.
pub fn decode_reply(reply: &[u8]) -> (r: Option<u16>)
    ensures
        r == reply_value(reply@),
{
    if reply.len() <= PAYLOAD_INDEX {
        None
    } else {
        Some(decode(reply[PAYLOAD_INDEX]))
    }
}

} // verus!
