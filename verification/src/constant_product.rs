//! Constant-product invariant: a swap preserves `reserve_a * reserve_b`,
//! rounding the new destination reserve up and then taking back from the
//! trader any source tokens the rounding left unused.

use vstd::prelude::*;
use vstd::arithmetic::div_mod::{
    lemma_div_is_ordered, lemma_div_is_ordered_by_denominator, lemma_fundamental_div_mod,
    lemma_mod_pos_bound,
};

use crate::calculator::{ceil_div_int, lemma_ceil_div, lemma_ceil_div_le, to_model, SwapWithoutFeesResult};
use crate::error::SwapError;

verus! {

/// The swap arithmetic leaves the working 128-bit width: either the
/// invariant product or the grown source reserve is not representable.
pub open spec fn cp_overflow(
    source_amount: int,
    swap_source_amount: int,
    swap_destination_amount: int,
) -> bool {
    ||| swap_source_amount * swap_destination_amount > u128::MAX as int
    ||| swap_source_amount + source_amount > u128::MAX as int
}

/// The swap is a zero trade: there is nothing to divide by, the
/// invariant rounds to an empty quotient, or no destination tokens
/// would leave the pool.
pub open spec fn cp_degenerate(
    source_amount: int,
    swap_source_amount: int,
    swap_destination_amount: int,
) -> bool {
    let k = swap_source_amount * swap_destination_amount;
    let n = swap_source_amount + source_amount;
    ||| n == 0
    ||| k / n == 0
    ||| swap_destination_amount - ceil_div_int(k, n) == 0
}

/// Exact outcome of a constant-product swap of `source_amount` against
/// reserves `(swap_source_amount, swap_destination_amount)`: the pair
/// `(source tokens taken, destination tokens paid)`, or the error. The
/// new destination reserve is `q = ceil(k / n)` with `k` the old
/// product and `n` the grown source reserve; when the division leaves
/// a remainder, the new source reserve is re-derived as `ceil(k / q)`
/// so the trader is charged no more source tokens than the invariant
/// needs.
pub open spec fn cp_swap_model(
    source_amount: int,
    swap_source_amount: int,
    swap_destination_amount: int,
) -> Result<(int, int), SwapError> {
    let k = swap_source_amount * swap_destination_amount;
    let n = swap_source_amount + source_amount;
    if cp_overflow(source_amount, swap_source_amount, swap_destination_amount) {
        Err(SwapError::CalculationFailure)
    } else if cp_degenerate(source_amount, swap_source_amount, swap_destination_amount) {
        Err(SwapError::ZeroTradingTokens)
    } else {
        let q = ceil_div_int(k, n);
        let new_source = if k % n == 0 {
            n
        } else {
            ceil_div_int(k, q)
        };
        Ok((new_source - swap_source_amount, swap_destination_amount - q))
    }
}

/// Constant-product swap; see `cp_swap_model` for the exact outcome.
pub fn swap(
    source_amount: u128,
    swap_source_amount: u128,
    swap_destination_amount: u128,
) -> (r: Result<SwapWithoutFeesResult, SwapError>)
    ensures
        to_model(r) == cp_swap_model(
            source_amount as int,
            swap_source_amount as int,
            swap_destination_amount as int,
        ),
        r matches Ok(v) ==> 0 < v.source_amount_swapped <= source_amount,
        r matches Ok(v) ==> 0 < v.destination_amount_swapped < swap_destination_amount,
{
    let k = match swap_source_amount.checked_mul(swap_destination_amount) {
        Some(k) => k,
        None => {
            return Err(SwapError::CalculationFailure);
        },
    };
    let n = match swap_source_amount.checked_add(source_amount) {
        Some(n) => n,
        None => {
            return Err(SwapError::CalculationFailure);
        },
    };
    if n == 0 {
        return Err(SwapError::ZeroTradingTokens);
    }
    let quotient_floor = k / n;
    if quotient_floor == 0 {
        return Err(SwapError::ZeroTradingTokens);
    }
    let remainder = k % n;
    proof {
        lemma_ceil_div(k as int, n as int);
        lemma_mod_pos_bound(k as int, n as int);
    }
    let new_destination: u128;
    let new_source: u128;
    if remainder == 0 {
        new_destination = quotient_floor;
        new_source = n;
    } else {
        proof {
            // `n == 1` would leave no remainder, so `n >= 2` and the
            // floor quotient has room for the ceiling bump.
            lemma_fundamental_div_mod(k as int, 1);
            lemma_mod_pos_bound(k as int, 1);
            assert(n >= 2);
            lemma_div_is_ordered_by_denominator(k as int, 2, n as int);
            lemma_div_is_ordered(k as int, u128::MAX as int, 2);
        }
        let q = quotient_floor + 1;
        let source_floor = k / q;
        let remainder_q = k % q;
        proof {
            lemma_ceil_div(k as int, q as int);
            lemma_div_is_ordered_by_denominator(k as int, 2, q as int);
        }
        new_destination = q;
        new_source = if remainder_q > 0 {
            source_floor + 1
        } else {
            source_floor
        };
    }
    proof {
        let ki = k as int;
        let ni = n as int;
        let src = swap_source_amount as int;
        let dst = swap_destination_amount as int;
        assert(ki <= dst * ni) by (nonlinear_arith)
            requires
                ki == src * dst,
                src <= ni,
                dst >= 0,
        ;
        lemma_ceil_div_le(ki, ni, dst);
        assert(new_destination == ceil_div_int(ki, ni));
        assert(new_destination <= swap_destination_amount);
    }
    let destination_amount_swapped = swap_destination_amount - new_destination;
    if destination_amount_swapped == 0 {
        return Err(SwapError::ZeroTradingTokens);
    }
    proof {
        let ki = k as int;
        let ni = n as int;
        let qi = new_destination as int;
        let src = swap_source_amount as int;
        let dst = swap_destination_amount as int;
        if k % n == 0 {
            // An unchanged source reserve would mean an exact quotient
            // equal to the old destination reserve, an empty trade.
            assert(new_source == ni);
            if src == ni {
                lemma_fundamental_div_mod(ki, ni);
                assert(ki == ni * dst) by (nonlinear_arith)
                    requires
                        ki == src * dst,
                        src == ni,
                ;
                assert(dst == ki / ni) by {
                    vstd::arithmetic::div_mod::lemma_fundamental_div_mod_converse(ki, ni, dst, 0);
                }
                assert(false);
            }
            assert(src < ni);
        } else {
            lemma_ceil_div(ki, qi);
            assert(new_source == ceil_div_int(ki, qi));
            // Lower bound: charging less than the old reserve would put
            // the ceiling below `src`, yet `src * q < k`.
            if src == 0 {
                assert(ki == 0) by (nonlinear_arith)
                    requires
                        ki == src * dst,
                        src == 0,
                ;
                vstd::arithmetic::div_mod::lemma_div_of0(ni);
                assert(false);
            }
            assert(src >= 1);
            assert(src * qi < ki) by (nonlinear_arith)
                requires
                    ki == src * dst,
                    qi < dst,
                    src >= 1,
            ;
            if new_source <= src {
                assert(qi * (new_source as int) <= qi * src) by (nonlinear_arith)
                    requires
                        new_source <= src,
                        qi >= 0,
                ;
                assert(qi * src == src * qi) by (nonlinear_arith);
                assert(false);
            }
            // Upper bound: the invariant is already reached at `n`.
            assert(ni * qi >= ki);
            assert(qi >= 0);
            lemma_ceil_div_le(ki, qi, ni);
            assert(new_source <= ni);
        }
    }
    let source_amount_swapped = new_source - swap_source_amount;
    Ok(SwapWithoutFeesResult { source_amount_swapped, destination_amount_swapped })
}

/// Invariant preservation: once a constant-product swap succeeds, the
/// product of the updated reserves is at least the product of the old
/// reserves — rounding never lets value leave the pool.
pub proof fn lemma_constant_product_invariant(
    source_amount: int,
    swap_source_amount: int,
    swap_destination_amount: int,
    source_swapped: int,
    destination_swapped: int,
)
    requires
        0 <= source_amount,
        0 <= swap_source_amount,
        0 <= swap_destination_amount,
        cp_swap_model(source_amount, swap_source_amount, swap_destination_amount)
            == Ok::<(int, int), SwapError>((source_swapped, destination_swapped)),
    ensures
        (swap_source_amount + source_swapped) * (swap_destination_amount - destination_swapped)
            >= swap_source_amount * swap_destination_amount,
{
    let src = swap_source_amount;
    let dst = swap_destination_amount;
    assert(src * dst >= 0) by (nonlinear_arith)
        requires
            src >= 0,
            dst >= 0,
    ;
    let k = src * dst;
    let n = src + source_amount;
    let q = ceil_div_int(k, n);
    lemma_ceil_div(k, n);
    if k % n == 0 {
        lemma_fundamental_div_mod(k, n);
        assert(n * q >= k);
        assert(q * n == n * q) by (nonlinear_arith);
    } else {
        lemma_ceil_div(k, q);
        let new_source = ceil_div_int(k, q);
        assert(q * new_source >= k);
        assert(new_source * q == q * new_source) by (nonlinear_arith);
    }
}

/// A larger fee-reduced input never pays out less: with the same
/// reserves, growing the source amount grows the destination amount.
pub proof fn lemma_cp_destination_monotonic(
    amount_small: int,
    amount_large: int,
    swap_source_amount: int,
    swap_destination_amount: int,
    swapped_small: (int, int),
    swapped_large: (int, int),
)
    requires
        0 <= amount_small <= amount_large,
        0 <= swap_source_amount,
        0 <= swap_destination_amount,
        cp_swap_model(amount_small, swap_source_amount, swap_destination_amount)
            == Ok::<(int, int), SwapError>(swapped_small),
        cp_swap_model(amount_large, swap_source_amount, swap_destination_amount)
            == Ok::<(int, int), SwapError>(swapped_large),
    ensures
        swapped_small.1 <= swapped_large.1,
{
    let src = swap_source_amount;
    let dst = swap_destination_amount;
    assert(src * dst >= 0) by (nonlinear_arith)
        requires
            src >= 0,
            dst >= 0,
    ;
    let k = src * dst;
    let n_small = src + amount_small;
    let n_large = src + amount_large;
    let q_small = ceil_div_int(k, n_small);
    lemma_ceil_div(k, n_small);
    assert(q_small * n_large >= q_small * n_small) by (nonlinear_arith)
        requires
            n_small <= n_large,
            q_small >= 0,
    ;
    assert(q_small * n_small == n_small * q_small) by (nonlinear_arith);
    lemma_ceil_div_le(k, n_large, q_small);
}

} // verus!
