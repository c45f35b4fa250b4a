//! Integer division rounded to the nearest quotient, with the facts about it
//! that the codec's proofs need.
//!
//! Halves round up. Both divisors used by the codec are odd, so a quotient
//! that lies exactly halfway between two integers cannot occur there; the
//! tie-breaking direction is stated only for completeness.

use vstd::prelude::*;

verus! {

use vstd::arithmetic::div_mod::lemma_fundamental_div_mod;
use vstd::arithmetic::div_mod::lemma_mod_division_less_than_divisor;
use vstd::arithmetic::div_mod::lemma_div_pos_is_pos;
use vstd::arithmetic::div_mod::lemma_div_is_ordered;
use vstd::arithmetic::div_mod::lemma_div_nonincreasing;
use vstd::arithmetic::div_mod::lemma_div_by_multiple;
use vstd::arithmetic::div_mod::lemma_mod_multiples_basic;

/// `num / den` rounded to the nearest integer, halves rounded up.
pub open spec fn round_div(num: int, den: int) -> int
    recommends
        0 < den,
        0 <= num,
{
    if 2 * (num % den) >= den {
        num / den + 1
    } else {
        num / den
    }
}

/// The rounded quotient is the nearest integer to the exact quotient:
/// it is never negative, and `den * round_div(num, den)` misses `num`
/// by at most half of `den` in either direction.
pub proof fn lemma_round_div_error(num: int, den: int)
    requires
        0 < den,
        0 <= num,
    ensures
        0 <= round_div(num, den),
        -den <= 2 * (den * round_div(num, den) - num),
        2 * (den * round_div(num, den) - num) <= den,
{
    lemma_fundamental_div_mod(num, den);
    lemma_mod_division_less_than_divisor(num, den);
    lemma_div_pos_is_pos(num, den);
    let q = num / den;
    let r = num % den;
    if 2 * r >= den {
        assert(den * (q + 1) == den * q + den) by (nonlinear_arith);
    }
}

/// A numerator of at most `k` whole divisors rounds to a quotient of at most `k`.
pub proof fn lemma_round_div_le(num: int, den: int, k: int)
    requires
        0 < den,
        0 <= num,
        num <= k * den,
    ensures
        round_div(num, den) <= k,
{
    lemma_round_div_error(num, den);
    let rd = round_div(num, den);
    assert(2 * (den * rd) <= 2 * num + den);
    assert(2 * (den * rd) <= 2 * (k * den) + den);
    assert(2 * rd <= 2 * k + 1) by (nonlinear_arith)
        requires
            0 < den,
            2 * (den * rd) <= 2 * (k * den) + den,
    ;
}

/// Rounding division is monotone in the numerator.
pub proof fn lemma_round_div_ordered(a: int, b: int, den: int)
    requires
        0 < den,
        0 <= a,
        a <= b,
    ensures
        round_div(a, den) <= round_div(b, den),
{
    lemma_div_is_ordered(a, b, den);
    lemma_fundamental_div_mod(a, den);
    lemma_fundamental_div_mod(b, den);
    lemma_mod_division_less_than_divisor(a, den);
    lemma_mod_division_less_than_divisor(b, den);
    let qa = a / den;
    let qb = b / den;
    if qa == qb {
        assert(a % den <= b % den);
    }
}

/// An exact multiple of the divisor rounds to the exact quotient.
pub proof fn lemma_round_div_exact(k: int, den: int)
    requires
        0 < den,
        0 <= k,
    ensures
        round_div(k * den, den) == k,
{
    lemma_div_by_multiple(k, den);
    lemma_mod_multiples_basic(k, den);
}

/// Executable rounding division over `u64`, proved to match `round_div`.
pub(crate) fn round_div_u64(num: u64, den: u64) -> (r: u64)
    requires
        0 < den,
        den <= 0x7fff_ffff_ffff_ffff,
        num < 0xffff_ffff_ffff_ffff,
    ensures
        r == round_div(num as int, den as int),
{
    let q: u64 = num / den;
    let rem: u64 = num % den;
    proof {
        lemma_div_nonincreasing(num as int, den as int);
        lemma_mod_division_less_than_divisor(num as int, den as int);
    }
    if 2 * rem >= den {
        q + 1
    } else {
        q
    }
}

} // verus!
