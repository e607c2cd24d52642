use solarman::text::{append_decimal, chars_of, contains_text, parse_decimal, text_eq};

#[test]
fn chars_of_keeps_every_character() {
    assert_eq!(chars_of("aé1"), vec!['a', 'é', '1']);
    assert_eq!(chars_of(""), Vec::<char>::new());
}

#[test]
fn text_eq_compares_whole_texts() {
    assert!(text_eq("SYSTIM1", "SYSTIM1"));
    assert!(!text_eq("SYSTIM1", "SYSTIM"));
    assert!(!text_eq("SYSTIM1", "systim1"));
    assert!(text_eq("", ""));
}

#[test]
fn contains_text_finds_runs() {
    assert!(contains_text("Standby", "Standby"));
    assert!(contains_text("Inverter Standby mode", "Standby"));
    assert!(!contains_text("Stand by", "Standby"));
    assert!(!contains_text("", "Standby"));
    assert!(contains_text("abc", ""));
    assert!(!contains_text("Stan", "Standby"));
}

#[test]
fn parse_decimal_bounds_and_syntax() {
    assert_eq!(parse_decimal("18446744073709551615", u64::MAX), Some(u64::MAX));
    assert_eq!(parse_decimal("18446744073709551616", u64::MAX), None);
    assert_eq!(parse_decimal("99999999999999999999999", u64::MAX), None);
    assert_eq!(parse_decimal("256", 255), None);
    assert_eq!(parse_decimal("+0255", 255), Some(255));
    assert_eq!(parse_decimal("+", 255), None);
    assert_eq!(parse_decimal("", 255), None);
    assert_eq!(parse_decimal("12a", 255), None);
    assert_eq!(parse_decimal("999x", 255), None);
    assert_eq!(parse_decimal("٣", 255), None);
}

#[test]
fn decimal_text_reads_back() {
    for n in [0u64, 7, 10, 255, 65535, 4294967295, 1234567890123, u64::MAX] {
        let mut text = String::new();
        append_decimal(&mut text, n);
        assert_eq!(text, n.to_string());
        assert_eq!(parse_decimal(&text, u64::MAX), Some(n));
        assert_eq!(parse_decimal(&text, n), Some(n));
    }
}

#[test]
fn append_decimal_appends() {
    let mut text = "id=".to_string();
    append_decimal(&mut text, 0);
    append_decimal(&mut text, 42);
    assert_eq!(text, "id=042");
}
