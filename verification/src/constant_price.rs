//! Constant-price invariant: a fixed exchange rate `token_b_price`
//! (units of token A per unit of token B), independent of the reserves.

use vstd::prelude::*;
use vstd::arithmetic::div_mod::{lemma_fundamental_div_mod, lemma_mod_pos_bound};

use crate::calculator::{to_model, SwapWithoutFeesResult, TradeDirection};
use crate::error::SwapError;

verus! {

/// Exact outcome of a constant-price swap. Selling B buys
/// `source_amount * token_b_price` of A. Selling A buys
/// `floor(source_amount / token_b_price)` of B, and the source amount
/// is cut down to the spent multiple of the price so the remainder
/// stays with the trader. A resulting zero on either side is a
/// degenerate trade.
pub open spec fn price_swap_model(
    token_b_price: int,
    source_amount: int,
    trade_direction: TradeDirection,
) -> Result<(int, int), SwapError> {
    match trade_direction {
        TradeDirection::BtoA => {
            let destination = source_amount * token_b_price;
            if destination > u128::MAX as int {
                Err(SwapError::CalculationFailure)
            } else if source_amount == 0 || destination == 0 {
                Err(SwapError::ZeroTradingTokens)
            } else {
                Ok((source_amount, destination))
            }
        },
        TradeDirection::AtoB => {
            if token_b_price == 0 {
                Err(SwapError::CalculationFailure)
            } else {
                let destination = source_amount / token_b_price;
                let source = source_amount - source_amount % token_b_price;
                if source == 0 || destination == 0 {
                    Err(SwapError::ZeroTradingTokens)
                } else {
                    Ok((source, destination))
                }
            }
        },
    }
}

/// Constant-price swap; see `price_swap_model` for the exact outcome.
pub fn swap(source_amount: u128, token_b_price: u64, trade_direction: TradeDirection) -> (r:
    Result<SwapWithoutFeesResult, SwapError>)
    requires
        source_amount <= u64::MAX,
    ensures
        to_model(r) == price_swap_model(
            token_b_price as int,
            source_amount as int,
            trade_direction,
        ),
        r matches Ok(v) ==> 0 < v.source_amount_swapped <= source_amount,
        r matches Ok(v) ==> 0 < v.destination_amount_swapped,
{
    match trade_direction {
        TradeDirection::BtoA => {
            proof {
                assert(source_amount * token_b_price <= (u64::MAX as int) * (u64::MAX as int))
                    by (nonlinear_arith)
                    requires
                        0 <= source_amount <= u64::MAX,
                        0 <= token_b_price <= u64::MAX,
                ;
            }
            let destination_amount_swapped = source_amount * (token_b_price as u128);
            if source_amount == 0 || destination_amount_swapped == 0 {
                Err(SwapError::ZeroTradingTokens)
            } else {
                Ok(
                    SwapWithoutFeesResult {
                        source_amount_swapped: source_amount,
                        destination_amount_swapped,
                    },
                )
            }
        },
        TradeDirection::AtoB => {
            if token_b_price == 0 {
                return Err(SwapError::CalculationFailure);
            }
            let price = token_b_price as u128;
            let destination_amount_swapped = source_amount / price;
            let remainder = source_amount % price;
            proof {
                lemma_mod_pos_bound(source_amount as int, price as int);
                lemma_fundamental_div_mod(source_amount as int, price as int);
                vstd::arithmetic::div_mod::lemma_div_pos_is_pos(
                    source_amount as int,
                    price as int,
                );
                assert((price as int) * (source_amount as int / price as int) >= 0)
                    by (nonlinear_arith)
                    requires
                        price > 0,
                        source_amount as int / price as int >= 0,
                ;
            }
            let source_amount_swapped = source_amount - remainder;
            if source_amount_swapped == 0 || destination_amount_swapped == 0 {
                Err(SwapError::ZeroTradingTokens)
            } else {
                Ok(SwapWithoutFeesResult { source_amount_swapped, destination_amount_swapped })
            }
        },
    }
}

/// A larger fee-reduced input never pays out less at a fixed price.
pub proof fn lemma_price_destination_monotonic(
    token_b_price: int,
    amount_small: int,
    amount_large: int,
    trade_direction: TradeDirection,
    swapped_small: (int, int),
    swapped_large: (int, int),
)
    requires
        0 <= amount_small <= amount_large,
        0 <= token_b_price,
        price_swap_model(token_b_price, amount_small, trade_direction)
            == Ok::<(int, int), SwapError>(swapped_small),
        price_swap_model(token_b_price, amount_large, trade_direction)
            == Ok::<(int, int), SwapError>(swapped_large),
    ensures
        swapped_small.1 <= swapped_large.1,
{
    match trade_direction {
        TradeDirection::BtoA => {
            assert(amount_small * token_b_price <= amount_large * token_b_price)
                by (nonlinear_arith)
                requires
                    amount_small <= amount_large,
                    token_b_price >= 0,
            ;
        },
        TradeDirection::AtoB => {
            vstd::arithmetic::div_mod::lemma_div_is_ordered(
                amount_small,
                amount_large,
                token_b_price,
            );
        },
    }
}

} // verus!
