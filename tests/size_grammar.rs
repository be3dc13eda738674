use ssec_cli::size::{HumanSizeParser, SizeError};

fn parse(s: &str) -> Result<u64, SizeError> {
    HumanSizeParser::default().parse(s)
}

#[test]
fn megabytes_upper_case() {
    assert_eq!(parse("30MB"), Ok(30 * 1024 * 1024));
}

#[test]
fn gigabytes_lower_case() {
    assert_eq!(parse("5gb"), Ok(5 * 1024 * 1024 * 1024));
}

#[test]
fn every_unit() {
    assert_eq!(parse("7b"), Ok(7));
    assert_eq!(parse("7B"), Ok(7));
    assert_eq!(parse("7kb"), Ok(7 * 1024));
    assert_eq!(parse("7KB"), Ok(7 * 1024));
    assert_eq!(parse("7mb"), Ok(7 * 1024 * 1024));
    assert_eq!(parse("7GB"), Ok(7 * 1024 * 1024 * 1024));
}

#[test]
fn zero_and_leading_zeros() {
    assert_eq!(parse("0b"), Ok(0));
    assert_eq!(parse("007kb"), Ok(7168));
}

#[test]
fn missing_unit_is_invalid() {
    assert_eq!(parse("10"), Err(SizeError::InvalidFormat));
}

#[test]
fn unknown_unit_is_invalid() {
    assert_eq!(parse("10XB"), Err(SizeError::InvalidFormat));
}

#[test]
fn malformed_texts_are_invalid() {
    for s in ["", "MB", "kb", "10Kb", "10mB", " 10b", "10b ", "+10b", "-1b", "1.5MB", "10bb", "10 MB", "١٠b"] {
        assert_eq!(parse(s), Err(SizeError::InvalidFormat), "{s:?}");
    }
}

#[test]
fn largest_count() {
    assert_eq!(parse("18446744073709551615b"), Ok(u64::MAX));
    assert_eq!(parse("00018446744073709551615B"), Ok(u64::MAX));
}

#[test]
fn digits_too_large() {
    assert_eq!(parse("18446744073709551616b"), Err(SizeError::IntegerOverflow));
    assert_eq!(parse("99999999999999999999999GB"), Err(SizeError::IntegerOverflow));
}

#[test]
fn format_is_checked_before_range() {
    assert_eq!(parse("99999999999999999999999"), Err(SizeError::InvalidFormat));
}

#[test]
fn product_too_large() {
    assert_eq!(parse("17179869184GB"), Err(SizeError::MultiplicationOverflow));
    assert_eq!(parse("17179869183gb"), Ok(17179869183 * 1024 * 1024 * 1024));
    assert_eq!(parse("18014398509481984kb"), Err(SizeError::MultiplicationOverflow));
}
