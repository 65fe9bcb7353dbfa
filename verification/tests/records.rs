use coffee_level::audit::{format_record, AuditLog};
use coffee_level::clock::{clock_timestamp, Timestamp};
use coffee_level::timefmt::{format_timestamp, month_abbrev, u32_dec, u32_pad2, u32_pad3};

#[test]
fn the_clock_yields_a_valid_timestamp() {
    let now = clock_timestamp();
    assert!((1..=12).contains(&now.month));
    assert!((1..=31).contains(&now.day));
    assert!((1..=12).contains(&now.hour12));
    assert!(now.minute <= 59);
    assert!(now.second <= 59);
    assert!(now.milli <= 999);
    // A real instant formats like any other.
    let text = format_timestamp(&now);
    assert!(text.contains(", "));
    assert_eq!(text.len(), text.rfind('.').unwrap() + 4);
}

fn ts(month: u8, day: u8, hour12: u8, minute: u8, second: u8, milli: u16) -> Timestamp {
    Timestamp { month, day, hour12, minute, second, milli }
}

#[test]
fn decimal_formatting() {
    assert_eq!(u32_dec(0), "0");
    assert_eq!(u32_dec(7), "7");
    assert_eq!(u32_dec(42), "42");
    assert_eq!(u32_dec(1234567890), "1234567890");
    assert_eq!(u32_dec(u32::MAX), "4294967295");
    assert_eq!(u32_pad2(5), "05");
    assert_eq!(u32_pad2(59), "59");
    assert_eq!(u32_pad3(7), "007");
    assert_eq!(u32_pad3(67), "067");
    assert_eq!(u32_pad3(670), "670");
}

#[test]
fn month_abbreviations() {
    let names = [
        "Jan", "Feb", "Mar", "Apr", "May", "Jun", "Jul", "Aug", "Sep", "Oct", "Nov", "Dec",
    ];
    for (i, name) in names.iter().enumerate() {
        assert_eq!(month_abbrev((i + 1) as u8), *name);
    }
}

#[test]
fn timestamp_format_matches_the_log_layout() {
    assert_eq!(format_timestamp(&ts(10, 9, 3, 5, 9, 123)), "Oct 9, 3:05:09.123");
    assert_eq!(format_timestamp(&ts(1, 31, 12, 0, 0, 0)), "Jan 31, 12:00:00.000");
    assert_eq!(format_timestamp(&ts(6, 1, 1, 59, 59, 999)), "Jun 1, 1:59:59.999");
}

#[test]
fn record_holds_timestamp_then_line() {
    let record = format_record(&ts(10, 9, 3, 5, 9, 123), "42 g");
    assert_eq!(record, "Oct 9, 3:05:09.123: 42 g\n");
}

#[test]
fn log_grows_by_one_distinct_record_per_line() {
    let mut log = AuditLog::new();
    assert_eq!(log.len(), 0);
    let first = ts(10, 9, 3, 5, 9, 123);
    let second = ts(10, 9, 3, 5, 9, 124);
    log.append(&first, "42 g");
    assert_eq!(log.len(), 1);
    let first_record = log.record_at(0).clone();
    log.append(&second, "42 g");
    assert_eq!(log.len(), 2);
    // The earlier record is untouched: the log only grows.
    assert_eq!(log.record_at(0), &first_record);
    // Same line twice: two distinct records, differing only by timestamp.
    let second_record = log.record_at(1).clone();
    assert_ne!(first_record, second_record);
    assert!(first_record.ends_with(": 42 g\n"));
    assert!(second_record.ends_with(": 42 g\n"));
    assert_eq!(first_record.len(), second_record.len());
}
