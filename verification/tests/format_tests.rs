//! The display formatting of prices and deltas, on concrete values.
//! Prices are in fixed-point units: ten thousand units to the dollar.

use stockwatch::format::{
    diff_with_sign, diff_with_sign_percent, diff_without_sign, round_and_whiten, Tone,
};

#[test]
fn test_positive_diff_with_sign_percent() {
    let p = diff_with_sign_percent(50_000, 100_000);
    assert_eq!(p.text, "+100.00%");
    assert_eq!(p.tone, Tone::Green);
}

#[test]
fn test_negative_diff_with_sign_percent() {
    let p = diff_with_sign_percent(100_000, 50_000);
    assert_eq!(p.text, "-50.00%");
    assert_eq!(p.tone, Tone::Red);
}

#[test]
fn test_positive_diff_without_sign() {
    let p = diff_without_sign(50_000, 100_000);
    assert_eq!(p.text, "$5.00");
    assert_eq!(p.tone, Tone::Green);
}

#[test]
fn test_negative_diff_without_sign() {
    // The base figure is what gets displayed; the tone alone carries
    // the direction of the change.
    let p = diff_without_sign(100_000, 50_000);
    assert_eq!(p.text, "$10.00");
    assert_eq!(p.tone, Tone::Red);
}

#[test]
fn test_positive_diff_with_sign() {
    let p = diff_with_sign(50_000, 100_000);
    assert_eq!(p.text, "+$5.00");
    assert_eq!(p.tone, Tone::Green);
}

#[test]
fn test_negative_diff_with_sign() {
    let p = diff_with_sign(100_000, 50_000);
    assert_eq!(p.text, "-$5.00");
    assert_eq!(p.tone, Tone::Red);
}

#[test]
fn test_round_and_whiten() {
    let p = round_and_whiten(103_650);
    assert_eq!(p.text, "$10.37");
    assert_eq!(p.tone, Tone::White);
}

#[test]
fn zero_delta_is_non_negative() {
    let p = diff_with_sign(50_000, 50_000);
    assert_eq!(p.text, "+$0.00");
    assert_eq!(p.tone, Tone::Green);
}

#[test]
fn rounding_is_half_up() {
    assert_eq!(round_and_whiten(103_649).text, "$10.36");
    assert_eq!(round_and_whiten(103_650).text, "$10.37");
    assert_eq!(round_and_whiten(103_655).text, "$10.37");
}

#[test]
fn cents_are_zero_padded() {
    assert_eq!(round_and_whiten(50_500).text, "$5.05");
    assert_eq!(round_and_whiten(0).text, "$0.00");
}

#[test]
fn percent_of_zero_base_is_zero() {
    let p = diff_with_sign_percent(0, 100_000);
    assert_eq!(p.text, "+0.00%");
    assert_eq!(p.tone, Tone::Green);
}

#[test]
fn percent_rounds_half_up_on_magnitude() {
    // From $98.00 to $102.00 is +4.0816...%, shown as +4.08%.
    let p = diff_with_sign_percent(980_000, 1_020_000);
    assert_eq!(p.text, "+4.08%");
    // From $106.00 to $102.00 is -3.7735...%, shown as -3.77%.
    let q = diff_with_sign_percent(1_060_000, 1_020_000);
    assert_eq!(q.text, "-3.77%");
    assert_eq!(q.tone, Tone::Red);
}
