//! Stable invariant: a blend of constant-sum and constant-product
//! behaviour, parameterized by an amplification coefficient. The
//! invariant value `D` and the new destination reserve are found by a
//! bounded Newton-style fixed-point iteration; exceeding the iteration
//! cap or leaving the 128-bit working width is an arithmetic failure,
//! never an approximate result.

use vstd::prelude::*;

use crate::calculator::{to_model, SwapWithoutFeesResult};
use crate::error::SwapError;

verus! {

/// Cap on the fixed-point iterations of either solve.
pub const MAX_ITERATIONS: u32 = 32;

/// The iteration has converged when two successive iterates differ by
/// at most this many tokens.
pub const CONVERGENCE_TOLERANCE: u128 = 1;

/// Amplification is scaled by this factor (the curve has two coins, so
/// `leverage = amp * n_coins^2`).
pub const LEVERAGE_FACTOR: u64 = 4;

/// Two successive iterates within the convergence tolerance.
pub open spec fn within_tolerance(next: int, prev: int) -> bool {
    -(CONVERGENCE_TOLERANCE as int) <= next - prev <= CONVERGENCE_TOLERANCE as int
}

/// One Newton step for the invariant `D`, over checked 128-bit
/// arithmetic: `None` when an intermediate leaves the width or a
/// divisor vanishes. `dp` approximates `D^3 / (4ab)` by staged floor
/// divisions; the step maps `d` to
/// `(leverage*sum + 2*dp) * d / ((leverage-1)*d + 3*dp)`.
pub open spec fn d_step_model(leverage: int, sum_x: int, xa2: int, xb2: int, d: int) -> Option<
    int,
> {
    if d * d > u128::MAX as int {
        None
    } else if xa2 == 0 {
        None
    } else {
        let dp1 = d * d / xa2;
        if dp1 * d > u128::MAX as int {
            None
        } else if xb2 == 0 {
            None
        } else {
            let dp = dp1 * d / xb2;
            if leverage * sum_x > u128::MAX as int {
                None
            } else if 2 * dp > u128::MAX as int {
                None
            } else if leverage * sum_x + 2 * dp > u128::MAX as int {
                None
            } else if (leverage * sum_x + 2 * dp) * d > u128::MAX as int {
                None
            } else if (leverage - 1) * d > u128::MAX as int {
                None
            } else if 3 * dp > u128::MAX as int {
                None
            } else if (leverage - 1) * d + 3 * dp > u128::MAX as int {
                None
            } else if (leverage - 1) * d + 3 * dp == 0 {
                None
            } else {
                Some(((leverage * sum_x + 2 * dp) * d) / ((leverage - 1) * d + 3 * dp))
            }
        }
    }
}

/// The `D` iteration from iterate `d` with `fuel` steps left: the
/// first iterate within tolerance of its predecessor, or `None` on a
/// failed step or an exhausted cap.
pub open spec fn d_iterate(leverage: int, sum_x: int, xa2: int, xb2: int, d: int, fuel: nat) -> Option<
    int,
>
    decreases fuel,
{
    if fuel == 0 {
        None
    } else {
        match d_step_model(leverage, sum_x, xa2, xb2, d) {
            None => None,
            Some(d_next) => if within_tolerance(d_next, d) {
                Some(d_next)
            } else {
                d_iterate(leverage, sum_x, xa2, xb2, d_next, (fuel - 1) as nat)
            },
        }
    }
}

/// The invariant value `D` for reserves `(amount_a, amount_b)`: zero
/// for an empty pool, otherwise the bounded iteration seeded with the
/// reserve sum.
pub open spec fn compute_d_model(leverage: int, amount_a: int, amount_b: int) -> Option<int> {
    if amount_a + amount_b == 0 {
        Some(0)
    } else {
        d_iterate(
            leverage,
            amount_a + amount_b,
            2 * amount_a,
            2 * amount_b,
            amount_a + amount_b,
            MAX_ITERATIONS as nat,
        )
    }
}

/// One Newton step for the new destination reserve `y`, solving
/// `y^2 + (b_coef - d) y = c`: maps `y` to
/// `(y^2 + c) / (2y + b_coef - d)`, `None` outside the width or on a
/// vanished divisor.
pub open spec fn y_step_model(b_coef: int, c: int, d: int, y: int) -> Option<int> {
    if y * y > u128::MAX as int {
        None
    } else if y * y + c > u128::MAX as int {
        None
    } else if 2 * y > u128::MAX as int {
        None
    } else if 2 * y + b_coef > u128::MAX as int {
        None
    } else if 2 * y + b_coef < d {
        None
    } else if 2 * y + b_coef - d == 0 {
        None
    } else {
        Some((y * y + c) / (2 * y + b_coef - d))
    }
}

/// The `y` iteration with `fuel` steps left; as `d_iterate`.
pub open spec fn y_iterate(b_coef: int, c: int, d: int, y: int, fuel: nat) -> Option<int>
    decreases fuel,
{
    if fuel == 0 {
        None
    } else {
        match y_step_model(b_coef, c, d, y) {
            None => None,
            Some(y_next) => if within_tolerance(y_next, y) {
                Some(y_next)
            } else {
                y_iterate(b_coef, c, d, y_next, (fuel - 1) as nat)
            },
        }
    }
}

/// The new destination reserve given the grown source reserve and the
/// invariant `d_val`: `c` approximates `D^3 / (4 x leverage)` by staged
/// floor divisions, `b_coef = x + D / leverage`, and the bounded
/// iteration is seeded with `D`.
pub open spec fn compute_y_model(leverage: int, new_source_amount: int, d_val: int) -> Option<
    int,
> {
    if new_source_amount == 0 {
        None
    } else if d_val * d_val > u128::MAX as int {
        None
    } else if 2 * new_source_amount > u128::MAX as int {
        None
    } else {
        let t2 = d_val * d_val / (2 * new_source_amount);
        if t2 * d_val > u128::MAX as int {
            None
        } else if 2 * leverage > u128::MAX as int {
            None
        } else {
            let c = t2 * d_val / (2 * leverage);
            if new_source_amount + d_val / leverage > u128::MAX as int {
                None
            } else {
                y_iterate(
                    new_source_amount + d_val / leverage,
                    c,
                    d_val,
                    d_val,
                    MAX_ITERATIONS as nat,
                )
            }
        }
    }
}

/// Exact outcome of a stable swap: a zero input or an output the pool
/// cannot pay is a degenerate trade; a failed or non-convergent solve
/// is an arithmetic failure; otherwise the pool takes the whole input
/// and pays the destination reserve down to the solved `y`.
pub open spec fn stable_swap_model(
    amp: int,
    source_amount: int,
    swap_source_amount: int,
    swap_destination_amount: int,
) -> Result<(int, int), SwapError> {
    let leverage = amp * LEVERAGE_FACTOR as int;
    if source_amount == 0 {
        Err(SwapError::ZeroTradingTokens)
    } else {
        match compute_d_model(leverage, swap_source_amount, swap_destination_amount) {
            None => Err(SwapError::CalculationFailure),
            Some(d_val) => match compute_y_model(
                leverage,
                swap_source_amount + source_amount,
                d_val,
            ) {
                None => Err(SwapError::CalculationFailure),
                Some(y) => if swap_destination_amount <= y {
                    Err(SwapError::ZeroTradingTokens)
                } else {
                    Ok((source_amount, swap_destination_amount - y))
                },
            },
        }
    }
}

/// One unfolding of `d_iterate` with fuel left.
proof fn lemma_d_iterate_unfold(leverage: int, sum_x: int, xa2: int, xb2: int, d: int, fuel: nat)
    requires
        fuel >= 1,
    ensures
        d_iterate(leverage, sum_x, xa2, xb2, d, fuel) == match d_step_model(
            leverage,
            sum_x,
            xa2,
            xb2,
            d,
        ) {
            None => None::<int>,
            Some(d_next) => if within_tolerance(d_next, d) {
                Some(d_next)
            } else {
                d_iterate(leverage, sum_x, xa2, xb2, d_next, (fuel - 1) as nat)
            },
        },
{
}

/// One unfolding of `y_iterate` with fuel left.
proof fn lemma_y_iterate_unfold(b_coef: int, c: int, d: int, y: int, fuel: nat)
    requires
        fuel >= 1,
    ensures
        y_iterate(b_coef, c, d, y, fuel) == match y_step_model(b_coef, c, d, y) {
            None => None::<int>,
            Some(y_next) => if within_tolerance(y_next, y) {
                Some(y_next)
            } else {
                y_iterate(b_coef, c, d, y_next, (fuel - 1) as nat)
            },
        },
{
}

/// The invariant value `D`; see `compute_d_model`.
pub fn compute_d(leverage: u128, amount_a: u128, amount_b: u128) -> (r: Option<u128>)
    requires
        4 <= leverage,
        amount_a <= u64::MAX,
        amount_b <= u64::MAX,
    ensures
        match r {
            Some(d) => compute_d_model(leverage as int, amount_a as int, amount_b as int) == Some(
                d as int,
            ),
            None => compute_d_model(leverage as int, amount_a as int, amount_b as int) is None,
        },
{
    let sum_x = amount_a + amount_b;
    if sum_x == 0 {
        return Some(0);
    }
    let xa2 = amount_a * 2;
    let xb2 = amount_b * 2;
    let mut d: u128 = sum_x;
    let mut i: u32 = 0;
    while i < MAX_ITERATIONS
        invariant
            4 <= leverage,
            i <= MAX_ITERATIONS,
            0 < sum_x == amount_a + amount_b,
            xa2 == 2 * amount_a,
            xb2 == 2 * amount_b,
            compute_d_model(leverage as int, amount_a as int, amount_b as int) == d_iterate(
                leverage as int,
                sum_x as int,
                xa2 as int,
                xb2 as int,
                d as int,
                (MAX_ITERATIONS - i) as nat,
            ),
        decreases MAX_ITERATIONS - i,
    {
        proof {
            lemma_d_iterate_unfold(
                leverage as int,
                sum_x as int,
                xa2 as int,
                xb2 as int,
                d as int,
                (MAX_ITERATIONS - i) as nat,
            );
        }
        let dd = match d.checked_mul(d) {
            Some(v) => v,
            None => {
                return None;
            },
        };
        if xa2 == 0 {
            return None;
        }
        let dp1 = dd / xa2;
        let dp1d = match dp1.checked_mul(d) {
            Some(v) => v,
            None => {
                return None;
            },
        };
        if xb2 == 0 {
            return None;
        }
        let d_product = dp1d / xb2;
        let leverage_sum = match leverage.checked_mul(sum_x) {
            Some(v) => v,
            None => {
                return None;
            },
        };
        let dp_2 = match d_product.checked_mul(2) {
            Some(v) => v,
            None => {
                return None;
            },
        };
        let numerator_base = match leverage_sum.checked_add(dp_2) {
            Some(v) => v,
            None => {
                return None;
            },
        };
        let numerator = match numerator_base.checked_mul(d) {
            Some(v) => v,
            None => {
                return None;
            },
        };
        let leverage_sub = match (leverage - 1).checked_mul(d) {
            Some(v) => v,
            None => {
                return None;
            },
        };
        let dp_3 = match d_product.checked_mul(3) {
            Some(v) => v,
            None => {
                return None;
            },
        };
        let denominator = match leverage_sub.checked_add(dp_3) {
            Some(v) => v,
            None => {
                return None;
            },
        };
        if denominator == 0 {
            return None;
        }
        let d_next = numerator / denominator;
        let converged = if d_next > d {
            d_next - d <= CONVERGENCE_TOLERANCE
        } else {
            d - d_next <= CONVERGENCE_TOLERANCE
        };
        if converged {
            return Some(d_next);
        }
        d = d_next;
        i = i + 1;
    }
    None
}

/// The new destination reserve `y`; see `compute_y_model`.
pub fn compute_y(leverage: u128, new_source_amount: u128, d_val: u128) -> (r: Option<u128>)
    requires
        4 <= leverage,
    ensures
        match r {
            Some(y) => compute_y_model(
                leverage as int,
                new_source_amount as int,
                d_val as int,
            ) == Some(y as int),
            None => compute_y_model(leverage as int, new_source_amount as int, d_val as int)
                is None,
        },
{
    if new_source_amount == 0 {
        return None;
    }
    let dd = match d_val.checked_mul(d_val) {
        Some(v) => v,
        None => {
            return None;
        },
    };
    let x2 = match new_source_amount.checked_mul(2) {
        Some(v) => v,
        None => {
            return None;
        },
    };
    let t2 = dd / x2;
    let t2d = match t2.checked_mul(d_val) {
        Some(v) => v,
        None => {
            return None;
        },
    };
    let leverage_2 = match leverage.checked_mul(2) {
        Some(v) => v,
        None => {
            return None;
        },
    };
    let c = t2d / leverage_2;
    let b_coef = match new_source_amount.checked_add(d_val / leverage) {
        Some(v) => v,
        None => {
            return None;
        },
    };
    let mut y: u128 = d_val;
    let mut i: u32 = 0;
    while i < MAX_ITERATIONS
        invariant
            i <= MAX_ITERATIONS,
            compute_y_model(leverage as int, new_source_amount as int, d_val as int) == y_iterate(
                b_coef as int,
                c as int,
                d_val as int,
                y as int,
                (MAX_ITERATIONS - i) as nat,
            ),
        decreases MAX_ITERATIONS - i,
    {
        proof {
            lemma_y_iterate_unfold(
                b_coef as int,
                c as int,
                d_val as int,
                y as int,
                (MAX_ITERATIONS - i) as nat,
            );
        }
        let yy = match y.checked_mul(y) {
            Some(v) => v,
            None => {
                return None;
            },
        };
        let numerator = match yy.checked_add(c) {
            Some(v) => v,
            None => {
                return None;
            },
        };
        let y2 = match y.checked_mul(2) {
            Some(v) => v,
            None => {
                return None;
            },
        };
        let y2b = match y2.checked_add(b_coef) {
            Some(v) => v,
            None => {
                return None;
            },
        };
        if y2b < d_val {
            return None;
        }
        let denominator = y2b - d_val;
        if denominator == 0 {
            return None;
        }
        let y_next = numerator / denominator;
        let converged = if y_next > y {
            y_next - y <= CONVERGENCE_TOLERANCE
        } else {
            y - y_next <= CONVERGENCE_TOLERANCE
        };
        if converged {
            return Some(y_next);
        }
        y = y_next;
        i = i + 1;
    }
    None
}

/// Stable swap; see `stable_swap_model` for the exact outcome.
pub fn swap(
    source_amount: u128,
    swap_source_amount: u128,
    swap_destination_amount: u128,
    amp: u64,
) -> (r: Result<SwapWithoutFeesResult, SwapError>)
    requires
        1 <= amp,
        source_amount <= u64::MAX,
        swap_source_amount <= u64::MAX,
        swap_destination_amount <= u64::MAX,
    ensures
        to_model(r) == stable_swap_model(
            amp as int,
            source_amount as int,
            swap_source_amount as int,
            swap_destination_amount as int,
        ),
        r matches Ok(v) ==> 0 < v.source_amount_swapped <= source_amount,
        r matches Ok(v) ==> 0 < v.destination_amount_swapped <= swap_destination_amount,
{
    if source_amount == 0 {
        return Err(SwapError::ZeroTradingTokens);
    }
    let leverage = (amp as u128) * (LEVERAGE_FACTOR as u128);
    let d_val = match compute_d(leverage, swap_source_amount, swap_destination_amount) {
        Some(v) => v,
        None => {
            return Err(SwapError::CalculationFailure);
        },
    };
    let new_source_amount = swap_source_amount + source_amount;
    let y = match compute_y(leverage, new_source_amount, d_val) {
        Some(v) => v,
        None => {
            return Err(SwapError::CalculationFailure);
        },
    };
    if swap_destination_amount <= y {
        return Err(SwapError::ZeroTradingTokens);
    }
    let destination_amount_swapped = swap_destination_amount - y;
    Ok(
        SwapWithoutFeesResult {
            source_amount_swapped: source_amount,
            destination_amount_swapped,
        },
    )
}

} // verus!
