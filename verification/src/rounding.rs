//! Round-half-to-even ("banker's rounding") of exact fractions to a whole
//! number of cents, the single rounding rule used for every reported total.

use vstd::prelude::*;
use vstd::arithmetic::div_mod::{lemma_fundamental_div_mod, lemma_fundamental_div_mod_converse};

verus! {

/// The integer nearest to `p / q`, with a tie (exactly halfway) going to the
/// even neighbour. Meaningful for `q > 0`; `p / q` and `p % q` are Euclidean,
/// so `d` is the floor of the quotient and `0 <= r < q`.
pub open spec fn round_half_even(p: int, q: int) -> int
    recommends
        q > 0,
{
    let d = p / q;
    let r = p % q;
    if 2 * r < q {
        d
    } else if 2 * r > q {
        d + 1
    } else if d % 2 == 0 {
        d
    } else {
        d + 1
    }
}

/// The rounded two-decimal representative of the fraction `num / den`,
/// counted in hundredths (cents).
pub open spec fn rounded_cents(num: int, den: int) -> int
    recommends
        den > 0,
{
    round_half_even(100 * num, den)
}

fn round_half_even_u128(p: u128, q: u128) -> (r: u128)
    requires
        0 < q <= u128::MAX / 2,
    ensures
        r == round_half_even(p as int, q as int),
        r <= p,
{
    let d = p / q;
    let m = p % q;
    proof {
        lemma_fundamental_div_mod(p as int, q as int);
        assert(d <= q * d) by (nonlinear_arith)
            requires
                q >= 1,
                d >= 0,
        ;
    }
    if 2 * m < q {
        d
    } else if 2 * m > q {
        d + 1
    } else if d % 2 == 0 {
        d
    } else {
        d + 1
    }
}

/// Rounding is symmetric around zero: negating the fraction negates the
/// rounded value, because a tie between two neighbours picks the even one on
/// either side of zero.
pub proof fn lemma_round_half_even_neg(p: int, q: int)
    requires
        q > 0,
        p >= 0,
    ensures
        round_half_even(-p, q) == -round_half_even(p, q),
{
    let d = p / q;
    let r = p % q;
    lemma_fundamental_div_mod(p, q);
    if r == 0 {
        assert(-p == (-d) * q + 0) by (nonlinear_arith)
            requires
                p == q * d,
        ;
        lemma_fundamental_div_mod_converse(-p, q, -d, 0);
    } else {
        assert(-p == (-d - 1) * q + (q - r)) by (nonlinear_arith)
            requires
                p == q * d + r,
        ;
        lemma_fundamental_div_mod_converse(-p, q, -d - 1, q - r);
        if 2 * r == q {
            lemma_fundamental_div_mod(d, 2);
            if d % 2 == 0 {
                lemma_fundamental_div_mod_converse(-d - 1, 2, -(d / 2) - 1, 1);
            } else {
                lemma_fundamental_div_mod_converse(-d - 1, 2, -(d / 2) - 1, 0);
            }
        }
    }
}

/// Rounding is idempotent: rounding the two-decimal amount that a first
/// rounding produced (the fraction `cents / 100`) changes nothing.
pub proof fn lemma_round_idempotent(num: int, den: int)
    requires
        den > 0,
    ensures
        rounded_cents(rounded_cents(num, den), 100) == rounded_cents(num, den),
{
    let n = rounded_cents(num, den);
    lemma_fundamental_div_mod_converse(100 * n, 100, n, 0);
}

/// A bound on the fraction gives a bound on its rounded value: when
/// `|100 * num / den| <= b`, the rounded cents lie within `b + 1`.
pub proof fn lemma_rounded_cents_bound(num: int, den: int, b: int)
    requires
        den > 0,
        b >= 0,
        -(b * den) <= 100 * num <= b * den,
    ensures
        -(b + 1) <= rounded_cents(num, den) <= b + 1,
{
    let p = 100 * num;
    let d = p / den;
    lemma_fundamental_div_mod(p, den);
    assert(d <= b) by {
        if d > b {
            assert(den * d + p % den > b * den) by (nonlinear_arith)
                requires
                    d >= b + 1,
                    den > 0,
                    p % den >= 0,
            ;
        }
    }
    assert(d >= -b) by {
        if d < -b {
            assert(den * d + p % den < -(b * den)) by (nonlinear_arith)
                requires
                    d <= -b - 1,
                    den > 0,
                    p % den < den,
            ;
        }
    }
}

/// The exact fraction `num / den`, rounded half-to-even to a whole number of
/// cents: the executable form of `rounded_cents`.
pub fn round_to_cents(num: i128, den: i128) -> (r: i128)
    requires
        0 < den,
        -(i128::MAX / 100) <= num <= i128::MAX / 100,
    ensures
        r == rounded_cents(num as int, den as int),
{
    if num >= 0 {
        let p: u128 = (num as u128) * 100;
        let c = round_half_even_u128(p, den as u128);
        c as i128
    } else {
        let p: u128 = ((-num) as u128) * 100;
        let c = round_half_even_u128(p, den as u128);
        proof {
            lemma_round_half_even_neg(p as int, den as int);
        }
        -(c as i128)
    }
}

} // verus!
