//! Swap scenarios across the four curve kinds.

use solswap::base::{CurveType, SwapCurve};
use solswap::calculator::{CurveCalculator, TradeDirection};
use solswap::error::SwapError;
use solswap::fees::CurveFees;

fn no_fees() -> CurveFees {
    CurveFees {
        trade_fee_numerator: 0,
        trade_fee_denominator: 0,
        owner_trade_fee_numerator: 0,
        owner_trade_fee_denominator: 0,
        owner_withdraw_fee_numerator: 0,
        owner_withdraw_fee_denominator: 0,
        host_fee_numerator: 0,
        host_fee_denominator: 0,
    }
}

fn trade_fee(numerator: u64, denominator: u64) -> CurveFees {
    CurveFees {
        trade_fee_numerator: numerator,
        trade_fee_denominator: denominator,
        ..no_fees()
    }
}

fn constant_product_curve() -> SwapCurve {
    SwapCurve {
        curve_type: CurveType::ConstantProduct,
        calculator: CurveCalculator::ConstantProduct,
    }
}

#[test]
fn scenario_constant_product_no_fee() {
    let curve = constant_product_curve();
    let result = curve
        .swap(100, 1000, 1000, TradeDirection::AtoB, &no_fees())
        .unwrap();
    // New destination reserve is ceil(1000*1000 / 1100) = 910.
    assert_eq!(result.destination_amount_swapped, 90);
    // The ceiling rounding leaves one source token with the trader:
    // 910 * 1099 >= 1_000_000 already holds.
    assert_eq!(result.source_amount_swapped, 99);
    assert_eq!(result.new_swap_source_amount, 1099);
    assert_eq!(result.new_swap_destination_amount, 910);
    assert_eq!(result.trade_fee, 0);
    assert_eq!(result.owner_fee, 0);
    // The reserve product never decreases.
    assert!(
        result.new_swap_source_amount * result.new_swap_destination_amount >= 1000u128 * 1000u128
    );
}

#[test]
fn scenario_trading_fee_reduces_input() {
    let curve = constant_product_curve();
    let fees = trade_fee(3, 1000);
    let result = curve
        .swap(100, 1000, 1000, TradeDirection::AtoB, &fees)
        .unwrap();
    // floor(100 * 3 / 1000) = 0 is raised to the minimum fee of one
    // token, so the curve sees a source amount of 99.
    assert_eq!(result.trade_fee, 1);
    assert_eq!(result.destination_amount_swapped, 90);
    assert_eq!(result.source_amount_swapped, 100);
    assert_eq!(result.new_swap_source_amount, 1100);
    assert_eq!(result.new_swap_destination_amount, 910);
}

#[test]
fn scenario_zero_trade_guard() {
    let curve = constant_product_curve();
    let result = curve.swap(0, 1_000_000, 1_000_000, TradeDirection::AtoB, &no_fees());
    assert_eq!(result.unwrap_err(), SwapError::ZeroTradingTokens);
}

#[test]
fn scenario_stable_non_convergence() {
    let curve = SwapCurve {
        curve_type: CurveType::Stable,
        calculator: CurveCalculator::Stable { amp: 100 },
    };
    // A pathological amplification/reserve combination: the invariant
    // iteration still oscillates when the cap is reached.
    let result = curve.swap(10, 1_000_000_000, 1000, TradeDirection::AtoB, &no_fees());
    assert_eq!(result.unwrap_err(), SwapError::CalculationFailure);
}

#[test]
fn stable_swap_converges_on_balanced_reserves() {
    let curve = SwapCurve {
        curve_type: CurveType::Stable,
        calculator: CurveCalculator::Stable { amp: 1 },
    };
    let result = curve.swap(100, 1000, 1000, TradeDirection::AtoB, &no_fees()).unwrap();
    assert_eq!(result.source_amount_swapped, 100);
    assert_eq!(result.destination_amount_swapped, 97);
    assert_eq!(result.new_swap_source_amount, 1100);
    assert_eq!(result.new_swap_destination_amount, 903);
}

#[test]
fn stable_invariant_solver_exact_values() {
    // Balanced reserves: D is the reserve sum, found in one step.
    assert_eq!(solswap::stable::compute_d(4, 1000, 1000), Some(2000));
    // Skewed reserves pull D below the sum.
    assert_eq!(solswap::stable::compute_d(400, 5000, 100), Some(4959));
    assert_eq!(solswap::stable::compute_d(40, 123_456, 654_321), Some(762_535));
    // The destination solve behind `stable_swap_converges_on_balanced_reserves`.
    assert_eq!(solswap::stable::compute_y(4, 1100, 2000), Some(903));
}

#[test]
fn stable_swap_rejects_zero_input() {
    let curve = SwapCurve {
        curve_type: CurveType::Stable,
        calculator: CurveCalculator::Stable { amp: 1 },
    };
    let result = curve.swap(0, 1000, 1000, TradeDirection::AtoB, &no_fees());
    assert_eq!(result.unwrap_err(), SwapError::ZeroTradingTokens);
}

#[test]
fn constant_price_b_to_a_multiplies() {
    let curve = SwapCurve {
        curve_type: CurveType::ConstantPrice,
        calculator: CurveCalculator::ConstantPrice { token_b_price: 2 },
    };
    let result = curve.swap(50, 1000, 1000, TradeDirection::BtoA, &no_fees()).unwrap();
    assert_eq!(result.source_amount_swapped, 50);
    assert_eq!(result.destination_amount_swapped, 100);
    assert_eq!(result.new_swap_source_amount, 1050);
    assert_eq!(result.new_swap_destination_amount, 900);
}

#[test]
fn constant_price_a_to_b_floors_and_returns_remainder() {
    let curve = SwapCurve {
        curve_type: CurveType::ConstantPrice,
        calculator: CurveCalculator::ConstantPrice { token_b_price: 2 },
    };
    let result = curve.swap(101, 1000, 1000, TradeDirection::AtoB, &no_fees()).unwrap();
    // 101 / 2 = 50 destination tokens; the odd source token stays with
    // the trader.
    assert_eq!(result.destination_amount_swapped, 50);
    assert_eq!(result.source_amount_swapped, 100);
}

#[test]
fn constant_price_zero_output_is_degenerate() {
    let curve = SwapCurve {
        curve_type: CurveType::ConstantPrice,
        calculator: CurveCalculator::ConstantPrice { token_b_price: 2 },
    };
    let result = curve.swap(1, 1000, 1000, TradeDirection::AtoB, &no_fees());
    assert_eq!(result.unwrap_err(), SwapError::ZeroTradingTokens);
}

#[test]
fn constant_price_output_beyond_reserve_fails() {
    let curve = SwapCurve {
        curve_type: CurveType::ConstantPrice,
        calculator: CurveCalculator::ConstantPrice { token_b_price: 1000 },
    };
    // 50 * 1000 = 50_000 of token A, but the pool holds only 1000.
    let result = curve.swap(50, 1000, 1000, TradeDirection::BtoA, &no_fees());
    assert_eq!(result.unwrap_err(), SwapError::CalculationFailure);
}

#[test]
fn offset_swap_uses_effective_reserve() {
    let curve = SwapCurve {
        curve_type: CurveType::Offset,
        calculator: CurveCalculator::Offset { token_b_offset: 1000 },
    };
    // Effective destination reserve 2000: invariant 1000 * 2000, new
    // effective destination ceil(2_000_000 / 2000) = 1000, so the whole
    // real reserve is paid out.
    let result = curve.swap(1000, 1000, 1000, TradeDirection::AtoB, &no_fees()).unwrap();
    assert_eq!(result.destination_amount_swapped, 1000);
    assert_eq!(result.new_swap_destination_amount, 0);
    assert_eq!(result.source_amount_swapped, 1000);
}

#[test]
fn offset_swap_b_to_a_shifts_source_side() {
    let curve = SwapCurve {
        curve_type: CurveType::Offset,
        calculator: CurveCalculator::Offset { token_b_offset: 1000 },
    };
    // Effective source reserve 2000: invariant 2000 * 1000, new source
    // 2500, new destination 2_000_000 / 2500 = 800 exactly.
    let result = curve.swap(500, 1000, 1000, TradeDirection::BtoA, &no_fees()).unwrap();
    assert_eq!(result.source_amount_swapped, 500);
    assert_eq!(result.destination_amount_swapped, 200);
    assert_eq!(result.new_swap_destination_amount, 800);
}

#[test]
fn offset_swap_never_pays_more_than_real_reserve() {
    let curve = SwapCurve {
        curve_type: CurveType::Offset,
        calculator: CurveCalculator::Offset { token_b_offset: 1000 },
    };
    // The effective invariant asks for more than the pool holds.
    let result = curve.swap(100, 100, 100, TradeDirection::AtoB, &no_fees());
    assert_eq!(result.unwrap_err(), SwapError::CalculationFailure);
}

#[test]
fn swap_conservation_across_curves() {
    let curves = [
        constant_product_curve(),
        SwapCurve {
            curve_type: CurveType::ConstantPrice,
            calculator: CurveCalculator::ConstantPrice { token_b_price: 3 },
        },
        SwapCurve {
            curve_type: CurveType::Stable,
            calculator: CurveCalculator::Stable { amp: 10 },
        },
        SwapCurve {
            curve_type: CurveType::Offset,
            calculator: CurveCalculator::Offset { token_b_offset: 500 },
        },
    ];
    for curve in curves.iter() {
        if let Ok(result) = curve.swap(250, 10_000, 9_000, TradeDirection::AtoB, &trade_fee(1, 100))
        {
            // Never produces more than the pool holds, and a positive
            // output always costs a positive input.
            assert!(result.destination_amount_swapped <= 9_000);
            assert!(result.destination_amount_swapped > 0);
            assert!(result.source_amount_swapped > 0);
            assert_eq!(
                result.new_swap_source_amount,
                10_000 + result.source_amount_swapped
            );
            assert_eq!(
                result.new_swap_destination_amount,
                9_000 - result.destination_amount_swapped
            );
        }
    }
}

#[test]
fn higher_trading_fee_never_pays_more() {
    let curve = constant_product_curve();
    let low = curve
        .swap(100, 1000, 1000, TradeDirection::AtoB, &no_fees())
        .unwrap();
    let high = curve
        .swap(100, 1000, 1000, TradeDirection::AtoB, &trade_fee(100, 1000))
        .unwrap();
    // Fee 10%: the curve sees 90 source tokens and pays ceil-rounded
    // 1000 - ceil(1_000_000 / 1090) = 82.
    assert_eq!(high.trade_fee, 10);
    assert_eq!(high.destination_amount_swapped, 82);
    assert!(high.destination_amount_swapped <= low.destination_amount_swapped);
}

#[test]
fn owner_fee_is_cut_of_trading_fee() {
    let curve = constant_product_curve();
    let fees = CurveFees {
        trade_fee_numerator: 10,
        trade_fee_denominator: 100,
        owner_trade_fee_numerator: 2,
        owner_trade_fee_denominator: 10,
        ..no_fees()
    };
    let result = curve
        .swap(1000, 100_000, 100_000, TradeDirection::BtoA, &fees)
        .unwrap();
    // Trading fee floor(1000 * 10 / 100) = 100; owner cut
    // floor(100 * 2 / 10) = 20.
    assert_eq!(result.trade_fee, 100);
    assert_eq!(result.owner_fee, 20);
    assert!(result.owner_fee <= result.trade_fee);
}
