//! Parsing of raw input-event records.
//!
//! An event device delivers fixed-layout binary records; the type, code
//! and value fields are read big-endian out of bytes 8 to 15 of a record.
//! The caller owns the device stream and hands in each filled buffer.

use vstd::prelude::*;

verus! {

/// One decoded input event.
#[derive(Clone, Copy, PartialEq, Eq, Structural, Debug)]
pub struct EventData {
    pub sec: u32,
    pub ms: u32,
    pub ev_type: u16,
    pub code: u16,
    pub value: i32,
}

/// Decode an event record from a raw buffer: `ev_type` and `code` are the
/// big-endian 16-bit words at bytes 8 and 10, `value` the big-endian
/// 32-bit word at byte 12; the seconds and milliseconds fields are not
/// filled in.
pub fn parse_event_data(buff: &[u8]) -> (e: EventData)
    requires
        buff@.len() >= 16,
    ensures
        e.sec == 0,
        e.ms == 0,
        e.ev_type == (buff@[8] as u16) * 0x100 + (buff@[9] as u16),
        e.code == (buff@[10] as u16) * 0x100 + (buff@[11] as u16),
        e.value == ((buff@[12] as u32) * 0x1000000 + (buff@[13] as u32) * 0x10000 + (
        buff@[14] as u32) * 0x100 + (buff@[15] as u32)) as i32,
{
    let b8 = *vstd::slice::slice_index_get(buff, 8);
    let b9 = *vstd::slice::slice_index_get(buff, 9);
    let b10 = *vstd::slice::slice_index_get(buff, 10);
    let b11 = *vstd::slice::slice_index_get(buff, 11);
    let b12 = *vstd::slice::slice_index_get(buff, 12);
    let b13 = *vstd::slice::slice_index_get(buff, 13);
    let b14 = *vstd::slice::slice_index_get(buff, 14);
    let b15 = *vstd::slice::slice_index_get(buff, 15);
    let value_bits = (b12 as u32) * 0x1000000 + (b13 as u32) * 0x10000 + (b14 as u32) * 0x100 + (
    b15 as u32);
    EventData {
        sec: 0,
        ms: 0,
        ev_type: (b8 as u16) * 0x100 + (b9 as u16),
        code: (b10 as u16) * 0x100 + (b11 as u16),
        value: value_bits as i32,
    }
}

} // verus!
