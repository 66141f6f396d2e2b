//! Randomness aggregation: each revealed seed is mapped to a 128-bit value
//! (the little-endian reading of the first 16 bytes of its SHA-256 digest),
//! and all values are folded into one number below 1000 by the decentralized
//! combination primitive of the `dd_algorithms_lib` crate, which sums its
//! inputs modulo their count.

use vstd::prelude::*;

use crate::crypto::{sha256_digest, sha256_of};
use crate::error::ContractError;

verus! {

/// The sum of a sequence of 128-bit values, as a mathematical integer.
pub open spec fn sum_u128(s: Seq<u128>) -> int
    decreases s.len(),
{
    if s.len() == 0 {
        0
    } else {
        sum_u128(s.drop_last()) + s.last()
    }
}

pub proof fn lemma_sum_push(s: Seq<u128>, x: u128)
    ensures
        sum_u128(s.push(x)) == sum_u128(s) + x,
{
    assert(s.push(x).drop_last() =~= s);
}

/// 256 raised to a power; the value range of a little-endian byte prefix.
pub open spec fn pow256(k: nat) -> int
    decreases k,
{
    if k == 0 {
        1
    } else {
        256 * pow256((k - 1) as nat)
    }
}

/// The value of the first `k` bytes of `s`, read as a little-endian integer.
pub open spec fn le_value(s: Seq<u8>, k: int) -> int
    decreases k,
{
    if k <= 0 {
        0
    } else {
        le_value(s, k - 1) + s[k - 1] * pow256((k - 1) as nat)
    }
}

pub proof fn lemma_le_value_bound(s: Seq<u8>, k: int)
    requires
        0 <= k <= s.len(),
    ensures
        0 <= le_value(s, k) < pow256(k as nat),
    decreases k,
{
    if k > 0 {
        lemma_le_value_bound(s, k - 1);
        assert(s[k - 1] * pow256((k - 1) as nat) <= 255 * pow256((k - 1) as nat)) by {
            vstd::arithmetic::mul::lemma_mul_inequality(
                s[k - 1] as int,
                255,
                pow256((k - 1) as nat),
            );
        }
        assert(pow256((k - 1) as nat) + 255 * pow256((k - 1) as nat) == 256 * pow256(
            (k - 1) as nat,
        ));
        assert(s[k - 1] * pow256((k - 1) as nat) >= 0) by {
            vstd::arithmetic::mul::lemma_mul_nonnegative(s[k - 1] as int, pow256((k - 1) as nat));
        }
    }
}

pub proof fn lemma_le_value_nonneg(s: Seq<u8>, k: int)
    ensures
        le_value(s, k) >= 0,
    decreases k,
{
    if k > 0 {
        lemma_le_value_nonneg(s, k - 1);
        lemma_pow256_positive((k - 1) as nat);
        vstd::arithmetic::mul::lemma_mul_nonnegative(s[k - 1] as int, pow256((k - 1) as nat));
    }
}

pub proof fn lemma_pow256_positive(k: nat)
    ensures
        pow256(k) > 0,
    decreases k,
{
    if k > 0 {
        lemma_pow256_positive((k - 1) as nat);
    }
}

/// The 128-bit value a seed contributes: the little-endian reading of the
/// first 16 bytes of the SHA-256 digest of its UTF-8 bytes.
pub open spec fn seed_value(seed: Seq<char>) -> int {
    le_value(sha256_of(vstd::utf8::encode_utf8(seed)), 16)
}

pub proof fn lemma_seed_value_nonneg(seed: Seq<char>)
    ensures
        seed_value(seed) >= 0,
{
    lemma_le_value_nonneg(sha256_of(vstd::utf8::encode_utf8(seed)), 16);
}

/// Map a seed string to its 128-bit contribution.
pub fn seed_to_u128(input: &str) -> (r: u128)
    ensures
        r == seed_value(input@),
{
    let digest = sha256_digest(input.as_bytes());
    let ghost bytes = digest@;
    let mut result: u128 = 0;
    let mut factor: u128 = 1;
    for i in 0..16usize
        invariant
            bytes == digest@,
            bytes.len() == 32,
            i <= 15 ==> factor == pow256(i as nat),
            result == le_value(bytes, i as int),
            0 <= result < pow256(i as nat),
            i <= 16,
    {
        proof {
            reveal_with_fuel(pow256, 17);
            lemma_le_value_bound(bytes, i as int);
            assert((digest@[i as int] as int) * pow256(i as nat) <= 255 * pow256(i as nat)) by {
                vstd::arithmetic::mul::lemma_mul_inequality(
                    digest@[i as int] as int,
                    255,
                    pow256(i as nat),
                );
            }
            assert((digest@[i as int] as int) * pow256(i as nat) >= 0) by {
                vstd::arithmetic::mul::lemma_mul_nonnegative(
                    digest@[i as int] as int,
                    pow256(i as nat),
                );
            }
        }
        let b = digest[i];
        result = result + (b as u128) * factor;
        if i < 15 {
            factor = factor * 256;
        }
        proof {
            lemma_le_value_bound(bytes, i + 1 as int);
        }
    }
    result
}

/// Relies on dd_algorithms_lib::get_one_dd_rand_num: with matching count and
/// at least one value, it writes the sum of the values modulo their count
/// and returns Ok. Inputs below the count keep its running sum from
/// overflowing, so the call cannot fail or panic here.
#[verifier::external_body]
fn dd_fold_sum_mod(values: &Vec<u128>, n: usize) -> (r: Result<u128, ContractError>)
    requires
        values@.len() == n,
        n >= 1,
        forall|i: int| 0 <= i < values@.len() ==> values@[i] < n,
    ensures
        r is Ok,
        r->Ok_0 == (sum_u128(values@) % (n as int)) as u128,
{
    let mut out: u128 = 0;
    match dd_algorithms_lib::get_one_dd_rand_num(values, n, &mut out) {
        Ok(()) => Ok(out),
        Err(_) => Err(ContractError::RandomGenerationFailed),
    }
}

/// Fold one more contribution into the running aggregate, modulo 1000,
/// through the decentralized combination primitive.
pub fn combine_mod_1000(acc: u128, w: u128) -> (r: Result<u128, ContractError>)
    requires
        acc < 1000,
        w < 1000,
    ensures
        r == Ok::<u128, ContractError>(((acc + w) % 1000) as u128),
{
    let mut values: Vec<u128> = Vec::new();
    values.push(acc);
    values.push(w);
    proof {
        assert(values@ =~= Seq::empty().push(acc).push(w));
        lemma_sum_push(Seq::empty().push(acc), w);
        lemma_sum_push(Seq::empty(), acc);
    }
    while values.len() < 1000
        invariant
            2 <= values@.len() <= 1000,
            sum_u128(values@) == acc + w,
            forall|i: int| 0 <= i < values@.len() ==> values@[i] < 1000,
        decreases 1000 - values@.len(),
    {
        proof {
            lemma_sum_push(values@, 0);
        }
        values.push(0);
    }
    match dd_fold_sum_mod(&values, 1000) {
        Ok(v) => Ok(v),
        Err(e) => Err(e),
    }
}

} // verus!
