//! Shared primitives of the curve calculators: trade and rounding
//! directions, result records, the proportional pool-token conversion
//! and the ceiling-division facts the curve proofs rest on.

use vstd::prelude::*;
use vstd::arithmetic::div_mod::{lemma_fundamental_div_mod, lemma_fundamental_div_mod_converse};

use crate::constant_price;
use crate::constant_price::price_swap_model;
use crate::constant_product;
use crate::constant_product::cp_swap_model;
use crate::error::SwapError;
use crate::offset;
use crate::offset::offset_swap_model;
use crate::stable;
use crate::stable::stable_swap_model;

verus! {

/// Pool tokens minted by the first deposit, shared by every curve kind
/// so liquidity-token precision is uniform.
pub const INITIAL_SWAP_POOL_AMOUNT: u128 = 1_000_000_000;

/// Which reserve is supplied and which is received in a swap.
#[derive(Clone, Copy, Debug, PartialEq, Eq, Structural)]
pub enum TradeDirection {
    AtoB,
    BtoA,
}

/// Rounding bias of a proportional conversion: `Ceiling` on deposit
/// (the caller must supply at least the exact share), `Floor` on
/// withdrawal (the caller receives at most the exact share).
#[derive(Clone, Copy, Debug, PartialEq, Eq, Structural)]
pub enum RoundDirection {
    Floor,
    Ceiling,
}

/// Outcome of the invariant computation alone, before the trading fee
/// is added back to the source side.
#[derive(Clone, Copy, Debug, PartialEq, Eq, Structural)]
pub struct SwapWithoutFeesResult {
    pub source_amount_swapped: u128,
    pub destination_amount_swapped: u128,
}

/// Trading-token amounts corresponding to a pool-token quantity.
#[derive(Clone, Copy, Debug, PartialEq, Eq, Structural)]
pub struct TradingTokensResult {
    pub token_a_amount: u128,
    pub token_b_amount: u128,
}

/// Ceiling of `a / b` for non-negative `a` and positive `b`.
pub open spec fn ceil_div_int(a: int, b: int) -> int {
    (a + b - 1) / b
}

/// The exact rational share `reserve * pool_tokens / supply`, rounded
/// per the requested direction.
pub open spec fn proportional_amount(
    pool_tokens: int,
    supply: int,
    reserve: int,
    round_direction: RoundDirection,
) -> int {
    match round_direction {
        RoundDirection::Floor => pool_tokens * reserve / supply,
        RoundDirection::Ceiling => ceil_div_int(pool_tokens * reserve, supply),
    }
}

/// A swap outcome as a mathematical pair, for stating contracts.
pub open spec fn to_model(r: Result<SwapWithoutFeesResult, SwapError>) -> Result<
    (int, int),
    SwapError,
> {
    match r {
        Ok(v) => Ok((v.source_amount_swapped as int, v.destination_amount_swapped as int)),
        Err(e) => Err(e),
    }
}

/// A curve calculator: one of the four invariant kinds, carrying its
/// configuration scalar. A closed sum type, so dispatch is a single
/// exhaustive match.
#[derive(Clone, Copy, Debug, PartialEq, Eq, Structural)]
pub enum CurveCalculator {
    /// Preserves `reserve_a * reserve_b`.
    ConstantProduct,
    /// Fixed exchange rate: units of token A per unit of token B.
    ConstantPrice { token_b_price: u64 },
    /// Blended constant-sum/constant-product invariant with an
    /// amplification coefficient.
    Stable { amp: u64 },
    /// Constant product over a token-B reserve shifted by a fixed
    /// virtual amount.
    Offset { token_b_offset: u64 },
}

/// Exact outcome of the fee-reduced swap for each curve kind.
pub open spec fn swap_without_fees_model(
    calc: CurveCalculator,
    source_amount: int,
    swap_source_amount: int,
    swap_destination_amount: int,
    trade_direction: TradeDirection,
) -> Result<(int, int), SwapError> {
    match calc {
        CurveCalculator::ConstantProduct => cp_swap_model(
            source_amount,
            swap_source_amount,
            swap_destination_amount,
        ),
        CurveCalculator::ConstantPrice { token_b_price } => price_swap_model(
            token_b_price as int,
            source_amount,
            trade_direction,
        ),
        CurveCalculator::Stable { amp } => stable_swap_model(
            amp as int,
            source_amount,
            swap_source_amount,
            swap_destination_amount,
        ),
        CurveCalculator::Offset { token_b_offset } => offset_swap_model(
            token_b_offset as int,
            source_amount,
            swap_source_amount,
            swap_destination_amount,
            trade_direction,
        ),
    }
}

impl CurveCalculator {
    /// The configuration scalar is in the admissible range of its kind.
    pub open spec fn spec_valid_config(self) -> bool {
        match self {
            CurveCalculator::ConstantProduct => true,
            CurveCalculator::ConstantPrice { token_b_price } => token_b_price >= 1,
            CurveCalculator::Stable { amp } => amp >= 1,
            CurveCalculator::Offset { token_b_offset } => token_b_offset >= 1,
        }
    }

    /// Both initial reserves are large enough for the kind: curves with
    /// a shifted or priced token-B side tolerate an empty B reserve.
    pub open spec fn spec_supply_valid(self, token_a_amount: int, token_b_amount: int) -> bool {
        match self {
            CurveCalculator::ConstantProduct => token_a_amount > 0 && token_b_amount > 0,
            CurveCalculator::ConstantPrice { .. } => token_a_amount > 0,
            CurveCalculator::Stable { .. } => token_a_amount > 0 && token_b_amount > 0,
            CurveCalculator::Offset { .. } => token_a_amount > 0,
        }
    }

    /// Rejects a configuration scalar outside the admissible range of
    /// the curve kind.
    pub fn validate(&self) -> (r: Result<(), SwapError>)
        ensures
            r is Ok <==> self.spec_valid_config(),
            r is Err ==> r == Result::<(), SwapError>::Err(SwapError::InvalidCurve),
    {
        let valid = match self {
            CurveCalculator::ConstantProduct => true,
            CurveCalculator::ConstantPrice { token_b_price } => *token_b_price >= 1,
            CurveCalculator::Stable { amp } => *amp >= 1,
            CurveCalculator::Offset { token_b_offset } => *token_b_offset >= 1,
        };
        if valid {
            Ok(())
        } else {
            Err(SwapError::InvalidCurve)
        }
    }

    /// Rejects initial reserves that would make a degenerate pool.
    pub fn validate_supply(&self, token_a_amount: u64, token_b_amount: u64) -> (r: Result<
        (),
        SwapError,
    >)
        ensures
            r is Ok <==> self.spec_supply_valid(token_a_amount as int, token_b_amount as int),
            r is Err ==> r == Result::<(), SwapError>::Err(SwapError::EmptySupply),
    {
        let valid = match self {
            CurveCalculator::ConstantProduct => token_a_amount > 0 && token_b_amount > 0,
            CurveCalculator::ConstantPrice { .. } => token_a_amount > 0,
            CurveCalculator::Stable { .. } => token_a_amount > 0 && token_b_amount > 0,
            CurveCalculator::Offset { .. } => token_a_amount > 0,
        };
        if valid {
            Ok(())
        } else {
            Err(SwapError::EmptySupply)
        }
    }

    /// Pool tokens minted by the first deposit; the same fixed amount
    /// for every curve kind.
    pub fn new_pool_supply(&self) -> (r: u128)
        ensures
            r == INITIAL_SWAP_POOL_AMOUNT,
    {
        INITIAL_SWAP_POOL_AMOUNT
    }

    /// Whether proportional deposits and withdrawals are defined. The
    /// offset curve's virtual token-B liquidity makes a proportional
    /// share ill-defined, so it refuses them.
    pub fn allows_deposits(&self) -> (r: bool)
        ensures
            r == !(self is Offset),
    {
        match self {
            CurveCalculator::Offset { .. } => false,
            _ => true,
        }
    }

    /// The fee-reduced swap for this curve kind; see
    /// `swap_without_fees_model` for the exact outcome.
    pub fn swap_without_fees(
        &self,
        source_amount: u128,
        swap_source_amount: u128,
        swap_destination_amount: u128,
        trade_direction: TradeDirection,
    ) -> (r: Result<SwapWithoutFeesResult, SwapError>)
        requires
            self.spec_valid_config(),
            source_amount <= u64::MAX,
            swap_source_amount <= u64::MAX,
            swap_destination_amount <= u64::MAX,
        ensures
            to_model(r) == swap_without_fees_model(
                *self,
                source_amount as int,
                swap_source_amount as int,
                swap_destination_amount as int,
                trade_direction,
            ),
            r matches Ok(v) ==> 0 < v.source_amount_swapped <= source_amount,
            r matches Ok(v) ==> 0 < v.destination_amount_swapped,
    {
        match self {
            CurveCalculator::ConstantProduct => constant_product::swap(
                source_amount,
                swap_source_amount,
                swap_destination_amount,
            ),
            CurveCalculator::ConstantPrice { token_b_price } => constant_price::swap(
                source_amount,
                *token_b_price,
                trade_direction,
            ),
            CurveCalculator::Stable { amp } => stable::swap(
                source_amount,
                swap_source_amount,
                swap_destination_amount,
                *amp,
            ),
            CurveCalculator::Offset { token_b_offset } => offset::swap(
                source_amount,
                swap_source_amount,
                swap_destination_amount,
                *token_b_offset,
                trade_direction,
            ),
        }
    }

    /// Proportional conversion of pool tokens into trading-token
    /// amounts: `reserve * pool_tokens / supply` on each side, rounded
    /// per `round_direction`. Undefined (`None`) exactly when the
    /// supply is zero. The share depends only on reserves and supply,
    /// so every curve kind converts the same way.
    pub fn pool_tokens_to_trading_tokens(
        &self,
        pool_tokens: u128,
        pool_token_supply: u128,
        swap_token_a_amount: u128,
        swap_token_b_amount: u128,
        round_direction: RoundDirection,
    ) -> (r: Option<TradingTokensResult>)
        requires
            pool_tokens <= u64::MAX,
            pool_token_supply <= u64::MAX,
            swap_token_a_amount <= u64::MAX,
            swap_token_b_amount <= u64::MAX,
        ensures
            r is Some <==> pool_token_supply > 0,
            r matches Some(v) ==> {
                &&& v.token_a_amount == proportional_amount(
                    pool_tokens as int,
                    pool_token_supply as int,
                    swap_token_a_amount as int,
                    round_direction,
                )
                &&& v.token_b_amount == proportional_amount(
                    pool_tokens as int,
                    pool_token_supply as int,
                    swap_token_b_amount as int,
                    round_direction,
                )
            },
    {
        if pool_token_supply == 0 {
            return None;
        }
        let token_a_amount = rounded_share(
            pool_tokens,
            pool_token_supply,
            swap_token_a_amount,
            round_direction,
        );
        let token_b_amount = rounded_share(
            pool_tokens,
            pool_token_supply,
            swap_token_b_amount,
            round_direction,
        );
        Some(TradingTokensResult { token_a_amount, token_b_amount })
    }
}

/// Basic facts about `ceil_div_int`: its relation to floor division,
/// and that it is the least integer whose product with the divisor
/// reaches the dividend.
pub proof fn lemma_ceil_div(a: int, b: int)
    requires
        0 <= a,
        0 < b,
    ensures
        ceil_div_int(a, b) == if a % b == 0 {
            a / b
        } else {
            a / b + 1
        },
        b * ceil_div_int(a, b) >= a,
        b * ceil_div_int(a, b) < a + b,
        ceil_div_int(a, b) >= 0,
        a > 0 ==> ceil_div_int(a, b) >= 1,
{
    lemma_fundamental_div_mod(a, b);
    let q = a / b;
    let r = a % b;
    if r == 0 {
        assert(a + b - 1 == q * b + (b - 1)) by (nonlinear_arith)
            requires
                a == b * q + r,
                r == 0,
        ;
        lemma_fundamental_div_mod_converse(a + b - 1, b, q, b - 1);
        assert(b * q >= a) by (nonlinear_arith)
            requires
                a == b * q + r,
                r == 0,
        ;
    } else {
        assert(a + b - 1 == (q + 1) * b + (r - 1)) by (nonlinear_arith)
            requires
                a == b * q + r,
        ;
        lemma_fundamental_div_mod_converse(a + b - 1, b, q + 1, r - 1);
        assert(b * (q + 1) >= a && b * (q + 1) < a + b) by (nonlinear_arith)
            requires
                a == b * q + r,
                0 < r < b,
        ;
    }
    if a > 0 && ceil_div_int(a, b) <= 0 {
        assert(b * ceil_div_int(a, b) <= 0) by (nonlinear_arith)
            requires
                b > 0,
                ceil_div_int(a, b) <= 0,
        ;
    }
}

/// `ceil_div_int(a, b)` is at most any `m` with `m * b >= a`.
pub proof fn lemma_ceil_div_le(a: int, b: int, m: int)
    requires
        0 <= a,
        0 < b,
        0 <= m,
        m * b >= a,
    ensures
        ceil_div_int(a, b) <= m,
{
    lemma_ceil_div(a, b);
    let c = ceil_div_int(a, b);
    if c > m {
        assert(b * c >= b * (m + 1)) by (nonlinear_arith)
            requires
                b > 0,
                c >= m + 1,
        ;
        assert(b * (m + 1) == m * b + b) by (nonlinear_arith);
        assert(b * c < a + b);
        assert(m * b < a);
        assert(false);
    }
}

/// Floor division never exceeds ceiling division of the same fraction.
pub proof fn lemma_floor_le_ceil(a: int, b: int)
    requires
        0 <= a,
        0 < b,
    ensures
        a / b <= ceil_div_int(a, b),
{
    lemma_ceil_div(a, b);
}

/// One side of the proportional conversion.
fn rounded_share(pool_tokens: u128, supply: u128, reserve: u128, round_direction: RoundDirection) -> (r:
    u128)
    requires
        0 < supply <= u64::MAX,
        pool_tokens <= u64::MAX,
        reserve <= u64::MAX,
    ensures
        r == proportional_amount(pool_tokens as int, supply as int, reserve as int, round_direction),
{
    proof {
        assert(pool_tokens * reserve <= (u64::MAX as int) * (u64::MAX as int)) by (nonlinear_arith)
            requires
                pool_tokens <= u64::MAX,
                reserve <= u64::MAX,
        ;
    }
    let numerator: u128 = pool_tokens * reserve;
    let floor_share: u128 = numerator / supply;
    match round_direction {
        RoundDirection::Floor => floor_share,
        RoundDirection::Ceiling => {
            let remainder: u128 = numerator % supply;
            proof {
                lemma_ceil_div(numerator as int, supply as int);
            }
            if remainder > 0 {
                floor_share + 1
            } else {
                floor_share
            }
        },
    }
}

/// Rounding direction correctness: the ceiling share never falls below
/// the exact rational share, and the floor share never exceeds it,
/// comparing `share * supply` against `pool_tokens * reserve`.
pub proof fn lemma_proportional_rounding(pool_tokens: int, supply: int, reserve: int)
    requires
        0 <= pool_tokens,
        0 < supply,
        0 <= reserve,
    ensures
        proportional_amount(pool_tokens, supply, reserve, RoundDirection::Ceiling) * supply
            >= pool_tokens * reserve,
        proportional_amount(pool_tokens, supply, reserve, RoundDirection::Floor) * supply
            <= pool_tokens * reserve,
{
    assert(pool_tokens * reserve >= 0) by (nonlinear_arith)
        requires
            pool_tokens >= 0,
            reserve >= 0,
    ;
    let n = pool_tokens * reserve;
    lemma_ceil_div(n, supply);
    assert(ceil_div_int(n, supply) * supply == supply * ceil_div_int(n, supply)) by (nonlinear_arith);
    lemma_fundamental_div_mod(n, supply);
    assert((n / supply) * supply == supply * (n / supply)) by (nonlinear_arith);
    assert(n % supply >= 0) by {
        vstd::arithmetic::div_mod::lemma_mod_pos_bound(n, supply);
    }
}

/// Round-trip bound: depositing `pool_tokens` (a `Ceiling` conversion)
/// and then immediately withdrawing the same pool-token amount at the
/// same supply and reserves (a `Floor` conversion of what is left
/// after any withdrawal fee) never returns more than was deposited —
/// fees and rounding only ever favor the pool.
pub proof fn lemma_pool_tokens_round_trip(
    pool_tokens: int,
    pool_tokens_after_fee: int,
    supply: int,
    reserve: int,
)
    requires
        0 <= pool_tokens_after_fee <= pool_tokens,
        0 < supply,
        0 <= reserve,
    ensures
        proportional_amount(pool_tokens_after_fee, supply, reserve, RoundDirection::Floor)
            <= proportional_amount(pool_tokens, supply, reserve, RoundDirection::Ceiling),
{
    assert(0 <= pool_tokens_after_fee * reserve <= pool_tokens * reserve) by (nonlinear_arith)
        requires
            0 <= pool_tokens_after_fee <= pool_tokens,
            reserve >= 0,
    ;
    vstd::arithmetic::div_mod::lemma_div_is_ordered(
        pool_tokens_after_fee * reserve,
        pool_tokens * reserve,
        supply,
    );
    lemma_floor_le_ceil(pool_tokens * reserve, supply);
}

} // verus!
