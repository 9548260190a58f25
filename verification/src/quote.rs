//! Parsing quoted last-sale prices.
//!
//! The quote source sends the last sale price as text with a leading
//! currency mark, such as `$143.55`. The mark is skipped; the rest
//! must be decimal digits with an optional point followed by one to
//! four fraction digits. Anything else — or a value above the price
//! bound — is no price, and the tick that received it fails.

use vstd::prelude::*;

use crate::price::PRICE_FP_MAX;

verus! {

/// A decimal digit character.
pub open spec fn is_digit_char(c: char) -> bool {
    48 <= c as u32 <= 57
}

/// The numeric value of a digit character.
pub open spec fn digit_val(c: char) -> nat
    recommends
        is_digit_char(c),
{
    (c as u32 - 48) as nat
}

/// Every character of the sequence is a decimal digit.
pub open spec fn all_digits(s: Seq<char>) -> bool {
    forall|i: int| 0 <= i < s.len() ==> is_digit_char(#[trigger] s[i])
}

/// The value of a digit sequence, most significant digit first.
pub open spec fn digits_val(s: Seq<char>) -> nat
    decreases s.len(),
{
    if s.len() == 0 {
        0
    } else {
        digits_val(s.drop_last()) * 10 + digit_val(s.last())
    }
}

/// The index of the first decimal point, or the length when there is
/// none.
pub open spec fn dot_pos(s: Seq<char>) -> int
    decreases s.len(),
{
    if s.len() == 0 {
        0
    } else if s.first() == '.' {
        0
    } else {
        1 + dot_pos(s.drop_first())
    }
}

/// The fixed-point weight of one fraction digit at the given fraction
/// width: one to four digits after the point.
pub open spec fn frac_scale(n: nat) -> nat {
    if n <= 1 {
        1000
    } else if n == 2 {
        100
    } else if n == 3 {
        10
    } else {
        1
    }
}

/// The shape of a quoted amount after the currency mark: at least one
/// integer digit, and either no decimal point or a point followed by
/// one to four fraction digits.
pub open spec fn quote_shape(s: Seq<char>) -> bool {
    let d = dot_pos(s);
    &&& 1 <= d
    &&& all_digits(s.subrange(0, d))
    &&& (d < s.len() ==> {
        &&& d + 1 < s.len()
        &&& s.len() <= d + 5
        &&& all_digits(s.subrange(d + 1, s.len() as int))
    })
}

/// The fixed-point value of a well-shaped quoted amount.
pub open spec fn quote_fp(s: Seq<char>) -> nat
    recommends
        quote_shape(s),
{
    let d = dot_pos(s);
    if d >= s.len() {
        digits_val(s) * 10000
    } else {
        digits_val(s.subrange(0, d)) * 10000 + digits_val(
            s.subrange(d + 1, s.len() as int),
        ) * frac_scale((s.len() - d - 1) as nat)
    }
}

/// A scan that saw no point before `k`, and a point at `k` if `k` is
/// inside the sequence, pins down `dot_pos`.
proof fn lemma_dot_pos_from_scan(s: Seq<char>, k: int)
    requires
        0 <= k <= s.len(),
        forall|j: int| 0 <= j < k ==> s[j] != '.',
        k < s.len() ==> s[k] == '.',
        k == s.len() ==> (forall|j: int| 0 <= j < s.len() ==> s[j] != '.'),
    ensures
        dot_pos(s) == if k < s.len() {
            k
        } else {
            s.len() as int
        },
    decreases s.len(),
{
    if s.len() == 0 {
    } else if k == 0 {
    } else {
        assert(s.first() != '.');
        let t = s.drop_first();
        assert(forall|j: int| 0 <= j < t.len() ==> t[j] == s[j + 1]);
        lemma_dot_pos_from_scan(t, k - 1);
    }
}

/// The value of a digit prefix never shrinks as the prefix grows.
proof fn lemma_digits_val_prefix_mono(s: Seq<char>, j: int, k: int)
    requires
        0 <= j <= k <= s.len(),
    ensures
        digits_val(s.subrange(0, j)) <= digits_val(s.subrange(0, k)),
    decreases k - j,
{
    if j < k {
        lemma_digits_val_prefix_mono(s, j, k - 1);
        let p = s.subrange(0, k);
        assert(p.drop_last() =~= s.subrange(0, k - 1));
        assert(digits_val(s.subrange(0, k - 1)) * 10 >= digits_val(s.subrange(0, k - 1)));
    }
}

/// Parse a quoted last-sale price into fixed-point units. The first
/// character — the currency mark, whatever it is — is skipped; the
/// rest must be a well-shaped amount no larger than the price bound.
pub fn parse_last_sale(s: &str) -> (r: Option<u64>)
    ensures
        r is Some <==> s@.len() >= 2 && quote_shape(s@.skip(1)) && quote_fp(s@.skip(1))
            <= PRICE_FP_MAX,
        r is Some ==> r->Some_0 == quote_fp(s@.skip(1)),
{
    let n = s.unicode_len();
    if n < 2 {
        return None;
    }
    let t = s.substring_char(1, n);
    proof {
        assert(t@ =~= s@.skip(1));
    }
    let m = n - 1;

    // Find the first decimal point, if any.
    let mut dot: usize = m;
    let mut i: usize = 0;
    while i < m && dot == m
        invariant
            m == t@.len(),
            i <= m,
            dot <= m,
            dot == m ==> (forall|j: int| 0 <= j < i ==> t@[j] != '.'),
            dot < m ==> (t@[dot as int] == '.' && (forall|j: int| 0 <= j < dot ==> t@[j] != '.')),
        decreases m - i + (if dot == m { 1int } else { 0int }),
    {
        if t.get_char(i) == '.' {
            dot = i;
        } else {
            i += 1;
        }
    }
    proof {
        lemma_dot_pos_from_scan(t@, dot as int);
        assert(dot_pos(t@) == dot as int);
    }

    if dot == 0 {
        return None;
    }

    // The integer part: all digits, accumulated with a cap that keeps
    // every later product within the price bound.
    let mut val: u64 = 0;
    let mut j: usize = 0;
    proof {
        assert(t@.subrange(0, 0) =~= Seq::<char>::empty());
    }
    while j < dot
        invariant
            s@.len() >= 2,
            t@ == s@.skip(1),
            m == t@.len(),
            1 <= dot <= m,
            dot_pos(t@) == dot as int,
            j <= dot,
            val == digits_val(t@.subrange(0, j as int)),
            val <= 1_000_000_000,
            forall|jj: int| 0 <= jj < j ==> is_digit_char(#[trigger] t@[jj]),
        decreases dot - j,
    {
        let c = t.get_char(j);
        let u = c as u32;
        if u < 48 || u > 57 {
            proof {
                assert(t@.subrange(0, dot as int)[j as int] == t@[j as int]);
                assert(!all_digits(t@.subrange(0, dot as int)));
            }
            return None;
        }
        let d: u64 = (u - 48) as u64;
        let next = val * 10 + d;
        proof {
            let p = t@.subrange(0, j + 1);
            assert(p.drop_last() =~= t@.subrange(0, j as int));
            assert(p.last() == t@[j as int]);
        }
        if next > 1_000_000_000 {
            proof {
                lemma_digits_val_prefix_mono(t@, j + 1, dot as int);
                if quote_shape(t@) {
                    let iv = digits_val(t@.subrange(0, dot as int));
                    assert(iv >= next);
                    assert(iv * 10000 > 10_000_000_000_000) by (nonlinear_arith)
                        requires
                            iv >= next,
                            next > 1_000_000_000,
                    ;
                    if dot as int >= t@.len() {
                        assert(t@.subrange(0, dot as int) =~= t@);
                    }
                    assert(quote_fp(t@) > PRICE_FP_MAX);
                }
            }
            return None;
        }
        val = next;
        j += 1;
    }

    // The fraction part, when a point is present: one to four digits.
    let mut fval: u64 = 0;
    let mut scale: u64 = 10000;
    if dot < m {
        let k = m - dot - 1;
        if k == 0 || k > 4 {
            return None;
        }
        scale = if k == 1 {
            1000
        } else if k == 2 {
            100
        } else if k == 3 {
            10
        } else {
            1
        };
        let mut f: usize = 0;
        proof {
            assert(t@.subrange(dot + 1, dot + 1) =~= Seq::<char>::empty());
        }
        while f < k
            invariant
                s@.len() >= 2,
                t@ == s@.skip(1),
                m == t@.len(),
                1 <= dot,
                dot + 1 + k == m,
                dot_pos(t@) == dot as int,
                1 <= k <= 4,
                f <= k,
                fval == digits_val(t@.subrange(dot + 1, dot + 1 + f)),
                fval < 10_000,
                forall|jj: int| dot + 1 <= jj < dot + 1 + f ==> is_digit_char(#[trigger] t@[jj]),
            decreases k - f,
        {
            let c = t.get_char(dot + 1 + f);
            let u = c as u32;
            if u < 48 || u > 57 {
                proof {
                    let fr = t@.subrange(dot + 1, m as int);
                    assert(fr[f as int] == t@[dot + 1 + f]);
                    assert(!all_digits(fr));
                }
                return None;
            }
            let d: u64 = (u - 48) as u64;
            proof {
                let p = t@.subrange(dot + 1, dot + 1 + f + 1);
                assert(p.drop_last() =~= t@.subrange(dot + 1, dot + 1 + f));
                assert(p.last() == t@[dot + 1 + f]);
                lemma_frac_bound(t@, dot as int, f as int);
            }
            fval = fval * 10 + d;
            f += 1;
        }
        proof {
            let fr = t@.subrange(dot + 1, m as int);
            assert(t@.subrange(dot + 1, dot + 1 + k) =~= fr);
            assert(forall|ii: int| 0 <= ii < fr.len() ==> fr[ii] == t@[dot + 1 + ii]);
            assert(all_digits(fr));
            if k == 1 {
                lemma_digits_val_lt_ten(fr);
            } else if k == 2 {
                lemma_digits_val_lt_hundred(fr);
            } else if k == 3 {
                lemma_digits_val_lt_thousand(fr);
            }
            assert(fval * scale < 10000);
        }
    }

    let fp = val * 10000 + fval * scale;
    if fp > PRICE_FP_MAX {
        return None;
    }
    proof {
        let ip = t@.subrange(0, dot as int);
        assert(forall|ii: int| 0 <= ii < ip.len() ==> ip[ii] == t@[ii]);
        assert(all_digits(ip));
        if dot == m {
            assert(ip =~= t@);
        }
        assert(quote_shape(t@));
        assert(quote_fp(t@) == fp as nat);
    }
    Some(fp)
}

/// A fraction prefix of at most three digits stays below one thousand,
/// so one more digit keeps it below ten thousand.
proof fn lemma_frac_bound(s: Seq<char>, d: int, f: int)
    requires
        0 <= d,
        d + 1 + f <= s.len(),
        0 <= f <= 3,
        forall|jj: int| d + 1 <= jj < d + 1 + f ==> is_digit_char(#[trigger] s[jj]),
    ensures
        digits_val(s.subrange(d + 1, d + 1 + f)) < 1000,
{
    lemma_digits_val_lt_thousand(s.subrange(d + 1, d + 1 + f));
}

/// A digit sequence of at most three digits is worth less than one
/// thousand.
proof fn lemma_digits_val_lt_thousand(s: Seq<char>)
    requires
        s.len() <= 3,
        all_digits(s),
    ensures
        digits_val(s) < 1000,
{
    if s.len() > 0 {
        assert(all_digits(s.drop_last())) by {
            assert(forall|i: int| 0 <= i < s.len() - 1 ==> s.drop_last()[i] == s[i]);
        }
        lemma_digits_val_lt_hundred(s.drop_last());
        assert(is_digit_char(s.last()));
        assert(digit_val(s.last()) <= 9);
    }
}

/// A digit sequence of at most two digits is worth less than one
/// hundred.
proof fn lemma_digits_val_lt_hundred(s: Seq<char>)
    requires
        s.len() <= 2,
        all_digits(s),
    ensures
        digits_val(s) < 100,
{
    if s.len() > 0 {
        assert(all_digits(s.drop_last())) by {
            assert(forall|i: int| 0 <= i < s.len() - 1 ==> s.drop_last()[i] == s[i]);
        }
        lemma_digits_val_lt_ten(s.drop_last());
        assert(digit_val(s.last()) <= 9);
    }
}

/// A digit sequence of at most one digit is worth less than ten.
proof fn lemma_digits_val_lt_ten(s: Seq<char>)
    requires
        s.len() <= 1,
        all_digits(s),
    ensures
        digits_val(s) < 10,
{
    if s.len() > 0 {
        assert(is_digit_char(s[s.len() - 1]));
        assert(s.drop_last().len() == 0);
        assert(digits_val(s.drop_last()) == 0);
        assert(digit_val(s.last()) <= 9);
    }
}

} // verus!
