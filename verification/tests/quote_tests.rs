//! Parsing quoted last-sale prices into fixed-point units.

use stockwatch::quote::parse_last_sale;

#[test]
fn parses_a_dollar_quote() {
    assert_eq!(parse_last_sale("$143.55"), Some(1_435_500));
}

#[test]
fn parses_four_fraction_digits() {
    assert_eq!(parse_last_sale("$0.8725"), Some(8_725));
}

#[test]
fn parses_a_whole_dollar_quote() {
    assert_eq!(parse_last_sale("$12"), Some(120_000));
}

#[test]
fn skips_any_currency_mark() {
    assert_eq!(parse_last_sale("x143.55"), Some(1_435_500));
}

#[test]
fn rejects_short_and_empty_quotes() {
    assert_eq!(parse_last_sale(""), None);
    assert_eq!(parse_last_sale("$"), None);
}

#[test]
fn rejects_non_numeric_quotes() {
    assert_eq!(parse_last_sale("N/A"), None);
    assert_eq!(parse_last_sale("$12a.50"), None);
    assert_eq!(parse_last_sale("$12.5x"), None);
}

#[test]
fn rejects_malformed_fractions() {
    assert_eq!(parse_last_sale("$.50"), None);
    assert_eq!(parse_last_sale("$5."), None);
    assert_eq!(parse_last_sale("$1.23456"), None);
    assert_eq!(parse_last_sale("$1.2.3"), None);
}

#[test]
fn rejects_prices_above_the_bound() {
    // One billion dollars is the bound; a dime more is rejected.
    assert_eq!(parse_last_sale("$1000000000.00"), Some(10_000_000_000_000));
    assert_eq!(parse_last_sale("$1000000000.10"), None);
    assert_eq!(parse_last_sale("$99999999999999999999.00"), None);
}
