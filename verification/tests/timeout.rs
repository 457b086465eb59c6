use paymesh::util::timeout::{parse_timeout, DEFAULT_TIMEOUT_SECONDS};

#[test]
fn default_is_thirty_seconds() {
    assert_eq!(DEFAULT_TIMEOUT_SECONDS, 30);
}

#[test]
fn digits_are_read_as_decimal() {
    assert_eq!(parse_timeout("1"), Some(1));
    assert_eq!(parse_timeout("30"), Some(30));
    assert_eq!(parse_timeout("1234567890"), Some(1234567890));
}

#[test]
fn leading_zeros_do_not_count() {
    assert_eq!(parse_timeout("007"), Some(7));
    assert_eq!(parse_timeout("00000000000000000000000000000000000000012"), Some(12));
}

#[test]
fn zero_is_no_timeout() {
    assert_eq!(parse_timeout("0"), None);
    assert_eq!(parse_timeout("000"), None);
}

#[test]
fn empty_text_is_no_timeout() {
    assert_eq!(parse_timeout(""), None);
}

#[test]
fn text_with_other_characters_is_no_timeout() {
    assert_eq!(parse_timeout("30s"), None);
    assert_eq!(parse_timeout(" 30"), None);
    assert_eq!(parse_timeout("+30"), None);
    assert_eq!(parse_timeout("-30"), None);
    assert_eq!(parse_timeout("3.5"), None);
    assert_eq!(parse_timeout("0x1e"), None);
    assert_eq!(parse_timeout("3/"), None);
    assert_eq!(parse_timeout("3:"), None);
    assert_eq!(parse_timeout("\u{663}\u{660}"), None);
}

#[test]
fn largest_number_of_64_bits_is_read() {
    assert_eq!(parse_timeout("18446744073709551615"), Some(u64::MAX));
    assert_eq!(parse_timeout("18446744073709551614"), Some(u64::MAX - 1));
}

#[test]
fn number_beyond_64_bits_is_no_timeout() {
    assert_eq!(parse_timeout("18446744073709551616"), None);
    assert_eq!(parse_timeout("18446744073709551620"), None);
    assert_eq!(parse_timeout("99999999999999999999"), None);
    assert_eq!(parse_timeout("184467440737095516150"), None);
    assert_eq!(parse_timeout("100000000000000000000000000000000"), None);
}
