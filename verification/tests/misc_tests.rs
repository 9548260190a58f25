//! The clock, the ticker gate and the validation status.

use stockwatch::clock::{current_year, year_of_unix_seconds};
use stockwatch::structs::{NasdaqStatus, NasdaqStatusWrap};
use stockwatch::ticker::ticker_length_ok;

#[test]
fn test_current_year() {
    // The year has four digits.
    assert_eq!(current_year().ilog10(), 3);
}

#[test]
fn years_count_flat_from_the_epoch() {
    assert_eq!(year_of_unix_seconds(0), 1970);
    assert_eq!(year_of_unix_seconds(31_535_999), 1970);
    assert_eq!(year_of_unix_seconds(31_536_000), 1971);
}

#[test]
fn ticker_length_gate() {
    assert!(ticker_length_ok("A"));
    assert!(ticker_length_ok("AAPL"));
    assert!(ticker_length_ok("ABCDE"));
    assert!(!ticker_length_ok(""));
    assert!(!ticker_length_ok("ABCDEF"));
}

#[test]
fn validation_status_is_code_two_hundred() {
    let ok = NasdaqStatusWrap { status: NasdaqStatus { rCode: 200 } };
    let bad = NasdaqStatusWrap { status: NasdaqStatus { rCode: 404 } };
    assert!(ok.is_success());
    assert!(!bad.is_success());
}
