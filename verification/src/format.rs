//! Display formatting for prices and deltas.
//!
//! Each function returns a [`Painted`] value: the exact text to show and
//! the tone it should be shown in. Applying the tone to a terminal is a
//! presentation concern and stays outside the library; the choice of
//! tone, like the text, is pinned down here.

use vstd::prelude::*;

use crate::price::{
    fp_cents, money_text, round_half_up, two_dp_text, PRICE_FP_MAX,
};

verus! {

/// The tone a piece of display text should be shown in.
#[derive(Clone, Copy, Debug, PartialEq, Eq, Structural)]
pub enum Tone {
    White,
    Green,
    Red,
    Cyan,
}

/// A piece of display text together with its tone.
#[derive(Debug)]
pub struct Painted {
    pub text: String,
    pub tone: Tone,
}

/// The explicit sign character of a delta: zero counts as non-negative.
pub open spec fn sign_char(non_negative: bool) -> char {
    if non_negative {
        '+'
    } else {
        '-'
    }
}

/// The magnitude of the difference between two fixed-point prices.
pub open spec fn fp_diff_mag(old: nat, new: nat) -> nat {
    if new >= old {
        (new - old) as nat
    } else {
        (old - new) as nat
    }
}

/// The percentage change from `old` to `new`, in hundredths of a
/// percent, rounded half-up on the magnitude. A zero base would divide
/// by zero; the watcher's policy is to report such a change as zero.
pub open spec fn percent_hundredths(old: nat, new: nat) -> nat {
    if old == 0 {
        0
    } else {
        round_half_up(fp_diff_mag(old, new) * 10_000, old)
    }
}

/// A price rounded to cents, shown in white: `$10.37`.
pub fn round_and_whiten(num: u64) -> (p: Painted)
    requires
        num <= PRICE_FP_MAX,
    ensures
        p.text@ == money_text(fp_cents(num as nat)),
        p.tone == Tone::White,
{
    let cents = crate::price::cents_of_fp(num);
    Painted { text: crate::price::money_string(cents), tone: Tone::White }
}

/// The signed change from `old` to `new`: `+$5.00` in green when the
/// change is non-negative, `-$5.00` in red otherwise.
pub fn diff_with_sign(old: u64, new: u64) -> (p: Painted)
    requires
        old <= PRICE_FP_MAX,
        new <= PRICE_FP_MAX,
    ensures
        p.text@ == seq![sign_char(new >= old)] + money_text(
            fp_cents(fp_diff_mag(old as nat, new as nat)),
        ),
        p.tone == (if new >= old {
            Tone::Green
        } else {
            Tone::Red
        }),
{
    let non_negative = new >= old;
    let mag = if new >= old {
        new - old
    } else {
        old - new
    };
    let cents = crate::price::cents_of_fp(mag);
    let mut text = if non_negative {
        String::from_str("+")
    } else {
        String::from_str("-")
    };
    let body = crate::price::money_string(cents);
    text.append(body.as_str());
    proof {
        reveal_strlit("+");
        reveal_strlit("-");
        assert(text@ =~= seq![sign_char(new >= old)] + money_text(
            fp_cents(fp_diff_mag(old as nat, new as nat)),
        ));
    }
    Painted { text, tone: if non_negative { Tone::Green } else { Tone::Red } }
}

/// The base figure `old` rounded to cents, toned by the sign of the
/// change from `old` to `new`: the text shows the base, the tone shows
/// the direction.
pub fn diff_without_sign(old: u64, new: u64) -> (p: Painted)
    requires
        old <= PRICE_FP_MAX,
        new <= PRICE_FP_MAX,
    ensures
        p.text@ == money_text(fp_cents(old as nat)),
        p.tone == (if new >= old {
            Tone::Green
        } else {
            Tone::Red
        }),
{
    let non_negative = new >= old;
    let cents = crate::price::cents_of_fp(old);
    Painted {
        text: crate::price::money_string(cents),
        tone: if non_negative { Tone::Green } else { Tone::Red },
    }
}

/// The signed percentage change from `old` to `new`: `+100.00%` in
/// green or `-50.00%` in red. A zero base is reported as `+0.00%`.
pub fn diff_with_sign_percent(old: u64, new: u64) -> (p: Painted)
    requires
        old <= PRICE_FP_MAX,
        new <= PRICE_FP_MAX,
    ensures
        p.text@ == seq![sign_char(new >= old)] + two_dp_text(
            percent_hundredths(old as nat, new as nat),
        ) + seq!['%'],
        p.tone == (if new >= old {
            Tone::Green
        } else {
            Tone::Red
        }),
{
    let non_negative = new >= old;
    let mag = if new >= old {
        new - old
    } else {
        old - new
    };
    let ph = if old == 0 {
        0
    } else {
        crate::price::round_half_up_u64(mag * 10_000, old)
    };
    let mut text = if non_negative {
        String::from_str("+")
    } else {
        String::from_str("-")
    };
    let body = crate::price::two_dp_string(ph);
    text.append(body.as_str());
    text.append("%");
    proof {
        reveal_strlit("+");
        reveal_strlit("-");
        reveal_strlit("%");
        assert(text@ =~= seq![sign_char(new >= old)] + two_dp_text(
            percent_hundredths(old as nat, new as nat),
        ) + seq!['%']);
    }
    Painted { text, tone: if non_negative { Tone::Green } else { Tone::Red } }
}

} // verus!
