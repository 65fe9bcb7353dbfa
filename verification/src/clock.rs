//! Wall-clock timestamps for audit records.
//!
//! A timestamp is held as plain fields — month, day of month, 12-hour
//! clock time, milliseconds — exactly the parts the audit record shows.
//! Only reading the clock itself is delegated to an outside crate.

use vstd::prelude::*;
use chrono::Datelike;
use chrono::Timelike;

verus! {

/// A wall-clock instant, broken into the fields an audit record shows.
#[derive(Clone, Copy, PartialEq, Eq, Structural, Debug)]
pub struct Timestamp {
    /// Month of the year, 1 to 12.
    pub month: u8,
    /// Day of the month, 1 to 31.
    pub day: u8,
    /// Hour on the 12-hour clock, 1 to 12.
    pub hour12: u8,
    /// Minute, 0 to 59.
    pub minute: u8,
    /// Second, 0 to 59.
    pub second: u8,
    /// Milliseconds within the second, 0 to 999.
    pub milli: u16,
}

impl Timestamp {
    /// Every field within its calendar range.
    pub open spec fn valid(self) -> bool {
        &&& 1 <= self.month <= 12
        &&& 1 <= self.day <= 31
        &&& 1 <= self.hour12 <= 12
        &&& self.minute <= 59
        &&& self.second <= 59
        &&& self.milli <= 999
    }
}

/// Relies on chrono's `Utc::now` and the `Datelike`/`Timelike` accessors
/// `month` (1 to 12), `day` (1 to 31), `hour12` (1 to 12), `minute` and
/// `second` (0 to 59), and on `DateTime::timestamp_subsec_millis`, which
/// exceeds 999 — staying below 2000 — only during a leap second.
#[verifier::external_body]
fn utc_now_fields() -> (t: Timestamp)
    ensures
        1 <= t.month <= 12,
        1 <= t.day <= 31,
        1 <= t.hour12 <= 12,
        t.minute <= 59,
        t.second <= 59,
        t.milli <= 1999,
{
    let now = chrono::Utc::now();
    let (_, hour12) = now.hour12();
    Timestamp {
        month: now.month() as u8,
        day: now.day() as u8,
        hour12: hour12 as u8,
        minute: now.minute() as u8,
        second: now.second() as u8,
        milli: now.timestamp_subsec_millis() as u16,
    }
}

/// Read the current UTC wall-clock time. A leap-second millisecond count
/// is folded into the last ordinary millisecond, so the sub-second part
/// always has three digits.
pub fn clock_timestamp() -> (t: Timestamp)
    ensures
        t.valid(),
{
    let mut t = utc_now_fields();
    if t.milli > 999 {
        t.milli = 999;
    }
    t
}

} // verus!
