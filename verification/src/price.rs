//! Fixed-point prices.
//!
//! A price is held as an unsigned count of ten-thousandths of a dollar
//! (four decimal places), which is enough to carry every quote the data
//! source hands out. All display rounding is round-half-up to whole
//! cents, which keeps the rendered text deterministic on every machine.

use vstd::prelude::*;

use crate::digits::{dec_seq, pad2, u64_dec, u64_pad2};

verus! {

/// Fixed-point units per dollar: prices carry four decimal places.
pub const PRICE_SCALE: u64 = 10_000;

/// Largest representable price: one billion dollars, in fixed-point units.
/// Quotes above this bound are rejected at the parsing boundary, which
/// keeps every later sum, product and rounding step inside `u64`.
pub const PRICE_FP_MAX: u64 = 10_000_000_000_000;

/// `n / d`, rounded half-up: `(2n + d) / (2d)` in exact integer arithmetic.
pub open spec fn round_half_up(n: nat, d: nat) -> nat {
    (2 * n + d) / (2 * d)
}

/// A fixed-point amount reduced to whole cents, rounded half-up.
pub open spec fn fp_cents(fp: nat) -> nat {
    round_half_up(fp, 100)
}

/// Text of a value scaled by one hundred, with exactly two decimal
/// places: `1037` becomes `10.37`.
pub open spec fn two_dp_text(v: nat) -> Seq<char> {
    dec_seq(v / 100) + seq!['.'] + pad2(v % 100)
}

/// Currency text of an amount in cents: `1037` becomes `$10.37`.
pub open spec fn money_text(cents: nat) -> Seq<char> {
    seq!['$'] + two_dp_text(cents)
}

/// `n / d` rounded half-up, in executable form.
pub fn round_half_up_u64(n: u64, d: u64) -> (r: u64)
    requires
        1 <= d,
        2 * n + d <= u64::MAX,
        2 * d <= u64::MAX,
    ensures
        r == round_half_up(n as nat, d as nat),
{
    (2 * n + d) / (2 * d)
}

/// A fixed-point amount reduced to whole cents, rounded half-up.
pub fn cents_of_fp(fp: u64) -> (c: u64)
    requires
        fp <= PRICE_FP_MAX,
    ensures
        c == fp_cents(fp as nat),
{
    (2 * fp + 100) / 200
}

/// Render a value scaled by one hundred with two decimal places.
pub fn two_dp_string(v: u64) -> (s: String)
    ensures
        s@ == two_dp_text(v as nat),
{
    let mut s = u64_dec(v / 100);
    s.append(".");
    let frac = u64_pad2(v % 100);
    s.append(frac.as_str());
    proof {
        reveal_strlit(".");
        assert(s@ =~= two_dp_text(v as nat));
    }
    s
}

/// Render an amount in cents as currency text.
pub fn money_string(cents: u64) -> (s: String)
    ensures
        s@ == money_text(cents as nat),
{
    let mut s = String::from_str("$");
    let body = two_dp_string(cents);
    s.append(body.as_str());
    proof {
        reveal_strlit("$");
        assert(s@ =~= money_text(cents as nat));
    }
    s
}

} // verus!
