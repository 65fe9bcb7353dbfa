use coffee_level::decode::decode_line;
use coffee_level::event::parse_event_data;

#[test]
fn decode_takes_only_the_valid_prefix() {
    let mut buffer = [0u8; 512];
    let line = b"  42 g  \n";
    buffer[..line.len()].copy_from_slice(line);
    let decoded = decode_line(&buffer, line.len()).expect("valid utf-8");
    assert_eq!(decoded, "42 g");
    // Decoding past the valid prefix would keep the buffer padding: the
    // NUL bytes are not whitespace and survive the trim.
    let whole = decode_line(&buffer, buffer.len()).expect("valid utf-8");
    assert_ne!(whole, "42 g");
    assert!(whole.starts_with("42 g"));
    assert!(whole.ends_with('\0'));
}

#[test]
fn decode_of_nothing_is_the_empty_line() {
    let buffer = [0u8; 8];
    assert_eq!(decode_line(&buffer, 0).expect("empty is valid"), "");
}

#[test]
fn decode_rejects_invalid_encoding() {
    let buffer = [0xff, 0xfe, 0x20];
    assert!(decode_line(&buffer, 3).is_none());
}

#[test]
fn event_fields_are_read_big_endian() {
    let mut buffer = [0u8; 160];
    buffer[8] = 0x01;
    buffer[9] = 0x02;
    buffer[10] = 0x03;
    buffer[11] = 0x04;
    buffer[12] = 0x05;
    buffer[13] = 0x06;
    buffer[14] = 0x07;
    buffer[15] = 0x08;
    let event = parse_event_data(&buffer);
    assert_eq!(event.sec, 0);
    assert_eq!(event.ms, 0);
    assert_eq!(event.ev_type, 0x0102);
    assert_eq!(event.code, 0x0304);
    assert_eq!(event.value, 0x05060708);
    buffer[12] = 0xff;
    let negative = parse_event_data(&buffer);
    assert!(negative.value < 0);
}
