use coffee_level::line::trim_line;
use coffee_level::weight::extract_weight;

#[test]
fn trim_strips_both_ends() {
    assert_eq!(trim_line("  42 g  "), "42 g");
    assert_eq!(trim_line("42"), "42");
    assert_eq!(trim_line("   "), "");
    assert_eq!(trim_line(""), "");
    assert_eq!(trim_line("\t 42\r\n"), "42");
}

#[test]
fn trim_strips_unicode_whitespace() {
    assert_eq!(trim_line("\u{2003}x\u{00a0}"), "x");
    assert_eq!(trim_line("\u{3000}\u{2028}"), "");
}

#[test]
fn extraction_finds_first_digit_run() {
    assert_eq!(extract_weight(trim_line("  42 g  ").as_str()), Some(42));
    assert_eq!(extract_weight("abc 123 def 456"), Some(123));
    assert_eq!(extract_weight("a12b34"), Some(12));
    assert_eq!(extract_weight("007"), Some(7));
}

#[test]
fn extraction_yields_unknown_without_digits() {
    assert_eq!(extract_weight("no data"), None);
    assert_eq!(extract_weight(""), None);
    assert_eq!(extract_weight("- . -"), None);
}

#[test]
fn extraction_yields_unknown_on_overflow() {
    assert_eq!(extract_weight("weight 9999999999"), None);
    assert_eq!(extract_weight("4294967295"), Some(u32::MAX));
    assert_eq!(extract_weight("4294967296"), None);
    assert_eq!(extract_weight("99999999999999999999999999999999"), None);
}
