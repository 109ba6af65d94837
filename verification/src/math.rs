//! Ledger primitives: checked basis-point arithmetic, the proportional-share
//! calculator, and the solvency-protection formula used by the emergency
//! safety valve. Every other component builds on these.
use vstd::prelude::*;

use crate::constants::BPS_DENOMINATOR;

verus! {

/// The product of two unsigned 64-bit values is bounded by the square of
/// their maximum, and so fits in 128 bits.
pub proof fn lemma_u64_mul_fits(a: u64, b: u64)
    by (nonlinear_arith)
    ensures
        a * b <= u64::MAX * u64::MAX,
        a * b < u128::MAX,
{
}

/// A proportional part never exceeds the whole: when `part <= whole`,
/// `balance * part / whole <= balance`.
pub proof fn lemma_mul_div_le(balance: int, part: int, whole: int)
    by (nonlinear_arith)
    requires
        0 <= balance,
        0 <= part <= whole,
        0 < whole,
    ensures
        balance * part / whole <= balance,
{
}

/// A proportional share is monotone in the balance it is taken from.
pub proof fn lemma_mul_div_mono(balance1: int, balance2: int, part: int, whole: int)
    by (nonlinear_arith)
    requires
        0 <= balance1 <= balance2,
        0 <= part,
        0 < whole,
    ensures
        balance1 * part / whole <= balance2 * part / whole,
{
}

/// Division keeps order on the dividends.
pub proof fn lemma_div_mono(a: int, b: int, d: int)
    by (nonlinear_arith)
    requires
        a <= b,
        0 < d,
    ensures
        a / d <= b / d,
{
}

/// `floor(x / d) >= t` exactly when `x >= t * d`.
pub proof fn lemma_div_ge_iff(x: int, d: int, t: int)
    by (nonlinear_arith)
    requires
        0 < d,
    ensures
        (x / d >= t) <==> (x >= t * d),
{
}

/// The smaller of two values.
pub fn min_u64(a: u64, b: u64) -> (r: u64)
    ensures
        r == if a <= b {
            a as int
        } else {
            b as int
        },
{
    if a <= b {
        a
    } else {
        b
    }
}

/// `balance * part / whole`, exactly, for a part of a whole. The result is a
/// floor and never exceeds the balance.
pub fn proportional_u64(balance: u64, part: u64, whole: u64) -> (r: u64)
    requires
        part <= whole,
        whole > 0,
    ensures
        r == balance * part / (whole as int),
        r <= balance,
{
    proof {
        lemma_u64_mul_fits(balance, part);
        lemma_mul_div_le(balance as int, part as int, whole as int);
    }
    let p: u128 = (balance as u128) * (part as u128);
    (p / (whole as u128)) as u64
}

/// The basis-point share `amount * bps / 10000`, exactly.
pub fn bps_share(amount: u64, bps: u16) -> (r: u64)
    requires
        bps <= BPS_DENOMINATOR,
    ensures
        r == amount * bps / (BPS_DENOMINATOR as int),
        r <= amount,
{
    proof {
        lemma_u64_mul_fits(amount, bps as u64);
        lemma_mul_div_le(amount as int, bps as int, BPS_DENOMINATOR as int);
    }
    let p: u128 = (amount as u128) * (bps as u128);
    (p / (BPS_DENOMINATOR as u128)) as u64
}

/// The basis-point share rounded up, as the traded asset's own fee
/// withholding rounds: `(amount * bps + 9999) / 10000`, exactly.
pub fn bps_share_ceil(amount: u64, bps: u16) -> (r: u64)
    requires
        bps <= BPS_DENOMINATOR,
    ensures
        r == (amount * bps + BPS_DENOMINATOR - 1) / (BPS_DENOMINATOR as int),
        r <= amount,
{
    proof {
        lemma_u64_mul_fits(amount, bps as u64);
        assert((amount * bps + 9999) / 10000 <= amount) by (nonlinear_arith)
            requires
                bps <= 10000,
                0 <= amount,
        ;
    }
    let p: u128 = (amount as u128) * (bps as u128) + (BPS_DENOMINATOR as u128 - 1);
    (p / (BPS_DENOMINATOR as u128)) as u64
}

// ------------------------------------------------------------
// Solvency-protected extraction
// ------------------------------------------------------------

/// The least funding-asset reserve that must stay in the pool so that the
/// original principal is preserved if every outstanding token were sold back:
/// `ceil(principal * supply / pool_tokens)`, widened by the 0.1% rounding
/// margin, `ceil(k * 1001 / 1000)`. Meaningful only for `pool_tokens > 0`.
pub open spec fn min_reserve(principal: int, supply: int, pool_tokens: int) -> int {
    let base = (principal * supply + pool_tokens - 1) / pool_tokens;
    (base * 1001 + 999) / 1000
}

/// What the safety valve may extract from a funding-asset balance of
/// `pool_funding` without dipping into the solvency reserve:
/// `max(0, pool_funding - min_reserve)`. With no tokens left in the pool
/// nothing is extracted.
pub open spec fn extractable(
    pool_funding: int,
    pool_tokens: int,
    supply: int,
    principal: int,
) -> int {
    if pool_tokens <= 0 {
        0
    } else if pool_funding > min_reserve(principal, supply, pool_tokens) {
        pool_funding - min_reserve(principal, supply, pool_tokens)
    } else {
        0
    }
}

/// Solvency-protected extraction: how much of the funding-asset balance
/// `pool_funding` may leave the pool-adjacent holding account while the
/// reserve `min_reserve(principal, supply, pool_tokens)` stays behind for the
/// outstanding tokens. Exact, with all intermediate products checked: when a
/// checked step overflows, the reserve already exceeds any 64-bit balance and
/// nothing is extractable.
pub fn solvency_extractable(pool_funding: u64, pool_tokens: u64, supply: u64, principal: u64) -> (r:
    u64)
    ensures
        r == extractable(pool_funding as int, pool_tokens as int, supply as int, principal as int),
{
    if pool_tokens == 0 {
        return 0;
    }
    proof {
        lemma_u64_mul_fits(principal, supply);
    }
    let prod: u128 = (principal as u128) * (supply as u128);
    // prod + pool_tokens - 1 stays within u128: prod is at most
    // u64::MAX * u64::MAX and the addend is below u64::MAX.
    let base: u128 = (prod + (pool_tokens as u128) - 1) / (pool_tokens as u128);
    let ghost base_i = (principal * supply + pool_tokens - 1) as int / pool_tokens as int;
    match base.checked_mul(1001) {
        Some(scaled) => {
            let reserve: u128 = if scaled == 0 {
                0
            } else {
                (scaled - 1) / 1000 + 1
            };
            proof {
                if scaled > 0 {
                    assert((scaled as int - 1) / 1000 + 1 == (scaled as int + 999) / 1000)
                        by (nonlinear_arith)
                        requires scaled >= 1;
                }
                assert(reserve == min_reserve(principal as int, supply as int, pool_tokens as int));
            }
            if (pool_funding as u128) > reserve {
                (pool_funding as u128 - reserve) as u64
            } else {
                0
            }
        },
        None => {
            // base * 1001 exceeds u128, so the reserve exceeds any u64 balance.
            proof {
                assert(base_i * 1001 > u128::MAX);
                lemma_div_mono(u128::MAX as int + 1, base_i * 1001 + 999, 1000);
                assert((u128::MAX as int + 1) / 1000 > u64::MAX);
                assert(min_reserve(principal as int, supply as int, pool_tokens as int) > u64::MAX);
            }
            0
        },
    }
}

} // verus!
