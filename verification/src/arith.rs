//! Ratio arithmetic for fee computation: an exact floor of
//! `amount * rate` where the rate is given in atomics of `10^-18`.

use vstd::arithmetic::div_mod::{
    lemma_div_is_ordered, lemma_fundamental_div_mod, lemma_hoist_over_denominator,
    lemma_mod_division_less_than_divisor, lemma_div_multiples_vanish,
};
use vstd::arithmetic::mul::{lemma_mul_inequality, lemma_mul_is_distributive_add_other_way};
use vstd::prelude::*;

use crate::state::FEE_DENOM;

verus! {

/// The exact mathematical fee: `floor(amount * atomics / FEE_DENOM)`.
pub open spec fn mul_ratio(amount: u128, atomics: u64) -> int {
    (amount * atomics) / (FEE_DENOM as int)
}

/// A rate of at most one keeps the fee at or below the amount.
pub proof fn lemma_mul_ratio_le(amount: u128, atomics: u64)
    requires
        atomics <= FEE_DENOM,
    ensures
        0 <= mul_ratio(amount, atomics) <= amount,
{
    let d = FEE_DENOM as int;
    lemma_mul_inequality(atomics as int, d, amount as int);
    assert(amount * atomics == atomics * amount) by {
        vstd::arithmetic::mul::lemma_mul_is_commutative(amount as int, atomics as int);
    }
    lemma_div_is_ordered(amount * atomics, amount * d, d);
    lemma_div_multiples_vanish(amount as int, d);
    assert(amount * d == d * amount) by {
        vstd::arithmetic::mul::lemma_mul_is_commutative(amount as int, d);
    }
    vstd::arithmetic::div_mod::lemma_div_pos_is_pos(amount * atomics, d);
    vstd::arithmetic::mul::lemma_mul_nonnegative(amount as int, atomics as int);
}

/// Compute `floor(amount * atomics / FEE_DENOM)` without overflow, by
/// splitting the amount into its quotient and remainder by `FEE_DENOM`.
pub fn multiply_ratio_floor(amount: u128, atomics: u64) -> (fee: u128)
    requires
        atomics <= FEE_DENOM,
    ensures
        fee == mul_ratio(amount, atomics),
        fee <= amount,
{
    let d: u128 = FEE_DENOM as u128;
    let q: u128 = amount / d;
    let r: u128 = amount % d;
    let a: u128 = atomics as u128;

    proof {
        let di = d as int;
        lemma_fundamental_div_mod(amount as int, di);
        lemma_mod_division_less_than_divisor(amount as int, di);
        // q * a stays within the amount, so the multiplication is safe
        lemma_mul_inequality(a as int, di, q as int);
        assert(q * a == a * q && q * d == d * q) by {
            vstd::arithmetic::mul::lemma_mul_is_commutative(q as int, a as int);
            vstd::arithmetic::mul::lemma_mul_is_commutative(q as int, d as int);
        }
        vstd::arithmetic::mul::lemma_mul_nonnegative(r as int, a as int);
        // r * a is bounded by d * d, which fits comfortably in u128
        lemma_mul_inequality(r as int, di, a as int);
        lemma_mul_inequality(a as int, di, di);
        assert(r * a == a * r && d * a == a * d) by {
            vstd::arithmetic::mul::lemma_mul_is_commutative(r as int, a as int);
            vstd::arithmetic::mul::lemma_mul_is_commutative(d as int, a as int);
        }
    }

    let part_whole: u128 = q * a;
    let part_frac: u128 = (r * a) / d;

    proof {
        let di = d as int;
        // (q * d + r) * a == (q * a) * d + r * a
        assert((q * d + r) * a == q * d * a + r * a) by {
            lemma_mul_is_distributive_add_other_way(a as int, q * d, r as int);
        }
        assert(q * d * a == q * a * (d as int)) by (nonlinear_arith);
        // hoist the whole part over the denominator
        lemma_hoist_over_denominator(r * a, q * a, FEE_DENOM as nat);
        lemma_mul_ratio_le(amount, atomics);
    }

    part_whole + part_frac
}

} // verus!
