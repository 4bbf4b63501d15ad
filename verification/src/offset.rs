//! Offset invariant: constant product over an effective token-B
//! reserve shifted up by a fixed `token_b_offset`, supporting one-sided
//! virtual liquidity.

use vstd::prelude::*;

use crate::calculator::{to_model, SwapWithoutFeesResult, TradeDirection};
use crate::constant_product;
use crate::constant_product::{cp_swap_model, lemma_constant_product_invariant};
use crate::error::SwapError;

verus! {

/// Exact outcome of an offset swap: the constant-product outcome over
/// the effective reserves, with the offset added to whichever side
/// holds token B.
pub open spec fn offset_swap_model(
    token_b_offset: int,
    source_amount: int,
    swap_source_amount: int,
    swap_destination_amount: int,
    trade_direction: TradeDirection,
) -> Result<(int, int), SwapError> {
    match trade_direction {
        TradeDirection::AtoB => cp_swap_model(
            source_amount,
            swap_source_amount,
            swap_destination_amount + token_b_offset,
        ),
        TradeDirection::BtoA => cp_swap_model(
            source_amount,
            swap_source_amount + token_b_offset,
            swap_destination_amount,
        ),
    }
}

/// Offset swap; see `offset_swap_model` for the exact outcome. The
/// destination amount is computed against the effective reserve and may
/// exceed the real one; the composition layer rejects such a swap.
pub fn swap(
    source_amount: u128,
    swap_source_amount: u128,
    swap_destination_amount: u128,
    token_b_offset: u64,
    trade_direction: TradeDirection,
) -> (r: Result<SwapWithoutFeesResult, SwapError>)
    requires
        swap_source_amount <= u64::MAX,
        swap_destination_amount <= u64::MAX,
    ensures
        to_model(r) == offset_swap_model(
            token_b_offset as int,
            source_amount as int,
            swap_source_amount as int,
            swap_destination_amount as int,
            trade_direction,
        ),
        r matches Ok(v) ==> 0 < v.source_amount_swapped <= source_amount,
        r matches Ok(v) ==> 0 < v.destination_amount_swapped,
{
    match trade_direction {
        TradeDirection::AtoB => {
            let effective_destination = swap_destination_amount + (token_b_offset as u128);
            constant_product::swap(source_amount, swap_source_amount, effective_destination)
        },
        TradeDirection::BtoA => {
            let effective_source = swap_source_amount + (token_b_offset as u128);
            constant_product::swap(source_amount, effective_source, swap_destination_amount)
        },
    }
}

/// Invariant preservation for the offset curve, stated of the
/// effective reserves: the product of the updated effective reserves
/// never falls below the product of the old effective reserves. (Of
/// the raw reserves no such law holds: a swap may legitimately drain
/// the real token-B side while the virtual offset stands in for it.)
pub proof fn lemma_offset_invariant(
    token_b_offset: int,
    source_amount: int,
    swap_source_amount: int,
    swap_destination_amount: int,
    source_swapped: int,
    destination_swapped: int,
    trade_direction: TradeDirection,
)
    requires
        0 <= token_b_offset,
        0 <= source_amount,
        0 <= swap_source_amount,
        0 <= swap_destination_amount,
        offset_swap_model(
            token_b_offset,
            source_amount,
            swap_source_amount,
            swap_destination_amount,
            trade_direction,
        ) == Ok::<(int, int), SwapError>((source_swapped, destination_swapped)),
    ensures
        trade_direction == TradeDirection::AtoB ==> (swap_source_amount + source_swapped) * (
        swap_destination_amount + token_b_offset - destination_swapped) >= swap_source_amount * (
        swap_destination_amount + token_b_offset),
        trade_direction == TradeDirection::BtoA ==> (swap_source_amount + token_b_offset
            + source_swapped) * (swap_destination_amount - destination_swapped) >= (
        swap_source_amount + token_b_offset) * swap_destination_amount,
{
    match trade_direction {
        TradeDirection::AtoB => {
            lemma_constant_product_invariant(
                source_amount,
                swap_source_amount,
                swap_destination_amount + token_b_offset,
                source_swapped,
                destination_swapped,
            );
        },
        TradeDirection::BtoA => {
            lemma_constant_product_invariant(
                source_amount,
                swap_source_amount + token_b_offset,
                swap_destination_amount,
                source_swapped,
                destination_swapped,
            );
        },
    }
}

} // verus!
