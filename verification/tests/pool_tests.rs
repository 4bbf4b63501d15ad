//! Fees, pool-token conversions, validation and curve construction.

use solswap::base::{build_curve, CurveInput, CurveType, SwapConstraints, SwapCurve};
use solswap::calculator::{CurveCalculator, RoundDirection, INITIAL_SWAP_POOL_AMOUNT};
use solswap::error::SwapError;
use solswap::fees::CurveFees;

fn zero_fees() -> CurveFees {
    CurveFees {
        trade_fee_numerator: 0,
        trade_fee_denominator: 0,
        owner_trade_fee_numerator: 0,
        owner_trade_fee_denominator: 0,
        owner_withdraw_fee_numerator: 0,
        owner_withdraw_fee_denominator: 0,
        host_fee_numerator: 0,
        host_fee_denominator: 0,
    }
}

#[test]
fn fees_validate_accepts_zero_and_proper_fractions() {
    assert!(zero_fees().validate().is_ok());
    let fees = CurveFees {
        trade_fee_numerator: 3,
        trade_fee_denominator: 1000,
        owner_trade_fee_numerator: 1,
        owner_trade_fee_denominator: 6,
        owner_withdraw_fee_numerator: 2,
        owner_withdraw_fee_denominator: 100,
        host_fee_numerator: 1,
        host_fee_denominator: 5,
    };
    assert!(fees.validate().is_ok());
}

#[test]
fn fees_validate_rejects_zero_denominator() {
    let fees = CurveFees {
        trade_fee_numerator: 3,
        trade_fee_denominator: 0,
        ..zero_fees()
    };
    assert_eq!(fees.validate().unwrap_err(), SwapError::InvalidFee);
}

#[test]
fn fees_validate_rejects_rate_above_one() {
    let fees = CurveFees {
        owner_withdraw_fee_numerator: 7,
        owner_withdraw_fee_denominator: 5,
        ..zero_fees()
    };
    assert_eq!(fees.validate().unwrap_err(), SwapError::InvalidFee);
}

#[test]
fn trading_fee_floors_the_product() {
    let fees = CurveFees {
        trade_fee_numerator: 3,
        trade_fee_denominator: 1000,
        ..zero_fees()
    };
    assert_eq!(fees.trading_fee(10_000), 30);
    assert_eq!(fees.trading_fee(1234), 3);
    assert_eq!(fees.trading_fee(0), 0);
}

#[test]
fn trading_fee_minimum_is_one_token() {
    let fees = CurveFees {
        trade_fee_numerator: 3,
        trade_fee_denominator: 1000,
        ..zero_fees()
    };
    // floor(100 * 3 / 1000) = 0, charged as 1.
    assert_eq!(fees.trading_fee(100), 1);
}

#[test]
fn zero_rate_charges_nothing() {
    let fees = zero_fees();
    assert_eq!(fees.trading_fee(1_000_000), 0);
    assert_eq!(fees.owner_trading_fee(1_000_000), 0);
    assert_eq!(fees.owner_withdraw_fee(1_000_000), 0);
    assert_eq!(fees.host_fee(1_000_000), 0);
}

#[test]
fn owner_withdraw_fee_applies_to_pool_tokens() {
    let fees = CurveFees {
        owner_withdraw_fee_numerator: 2,
        owner_withdraw_fee_denominator: 100,
        ..zero_fees()
    };
    assert_eq!(fees.owner_withdraw_fee(5000), 100);
}

#[test]
fn host_fee_never_exceeds_owner_fee() {
    let fees = CurveFees {
        host_fee_numerator: 1,
        host_fee_denominator: 5,
        ..zero_fees()
    };
    assert_eq!(fees.host_fee(100), 20);
    // Even when the floor vanishes, the minimum fee stays within the
    // owner fee it is carved from.
    assert_eq!(fees.host_fee(1), 1);
    assert_eq!(fees.host_fee(0), 0);
    for owner_fee in [0u128, 1, 2, 3, 10, 99, 1000] {
        assert!(fees.host_fee(owner_fee) <= owner_fee);
    }
}

#[test]
fn pool_tokens_floor_and_ceiling() {
    let calc = CurveCalculator::ConstantProduct;
    let floor = calc
        .pool_tokens_to_trading_tokens(10, 100, 1000, 57, RoundDirection::Floor)
        .unwrap();
    assert_eq!(floor.token_a_amount, 100);
    assert_eq!(floor.token_b_amount, 5);
    let ceiling = calc
        .pool_tokens_to_trading_tokens(10, 100, 1000, 57, RoundDirection::Ceiling)
        .unwrap();
    assert_eq!(ceiling.token_a_amount, 100);
    assert_eq!(ceiling.token_b_amount, 6);
}

#[test]
fn pool_tokens_undefined_for_zero_supply() {
    let calc = CurveCalculator::ConstantProduct;
    assert!(calc
        .pool_tokens_to_trading_tokens(10, 0, 1000, 1000, RoundDirection::Floor)
        .is_none());
}

#[test]
fn deposit_then_withdraw_never_gains() {
    let calc = CurveCalculator::Stable { amp: 10 };
    for (pool_tokens, supply, reserve_a, reserve_b) in
        [(1u128, 7u128, 13u128, 999u128), (10, 100, 1000, 57), (33, 1000, 123_456, 789)]
    {
        let deposited = calc
            .pool_tokens_to_trading_tokens(
                pool_tokens,
                supply,
                reserve_a,
                reserve_b,
                RoundDirection::Ceiling,
            )
            .unwrap();
        let withdrawn = calc
            .pool_tokens_to_trading_tokens(
                pool_tokens,
                supply,
                reserve_a,
                reserve_b,
                RoundDirection::Floor,
            )
            .unwrap();
        assert!(withdrawn.token_a_amount <= deposited.token_a_amount);
        assert!(withdrawn.token_b_amount <= deposited.token_b_amount);
    }
}

#[test]
fn new_pool_supply_is_uniform() {
    assert_eq!(CurveCalculator::ConstantProduct.new_pool_supply(), INITIAL_SWAP_POOL_AMOUNT);
    assert_eq!(
        CurveCalculator::Offset { token_b_offset: 5 }.new_pool_supply(),
        INITIAL_SWAP_POOL_AMOUNT
    );
    assert_eq!(INITIAL_SWAP_POOL_AMOUNT, 1_000_000_000);
}

#[test]
fn only_offset_refuses_deposits() {
    assert!(CurveCalculator::ConstantProduct.allows_deposits());
    assert!(CurveCalculator::ConstantPrice { token_b_price: 1 }.allows_deposits());
    assert!(CurveCalculator::Stable { amp: 1 }.allows_deposits());
    assert!(!CurveCalculator::Offset { token_b_offset: 1 }.allows_deposits());
}

#[test]
fn validate_checks_configuration_scalar() {
    assert!(CurveCalculator::ConstantProduct.validate().is_ok());
    assert!(CurveCalculator::ConstantPrice { token_b_price: 2 }.validate().is_ok());
    assert_eq!(
        CurveCalculator::ConstantPrice { token_b_price: 0 }.validate().unwrap_err(),
        SwapError::InvalidCurve
    );
    assert_eq!(
        CurveCalculator::Stable { amp: 0 }.validate().unwrap_err(),
        SwapError::InvalidCurve
    );
    assert_eq!(
        CurveCalculator::Offset { token_b_offset: 0 }.validate().unwrap_err(),
        SwapError::InvalidCurve
    );
}

#[test]
fn validate_supply_per_curve_kind() {
    assert!(CurveCalculator::ConstantProduct.validate_supply(1, 1).is_ok());
    assert_eq!(
        CurveCalculator::ConstantProduct.validate_supply(0, 5).unwrap_err(),
        SwapError::EmptySupply
    );
    assert_eq!(
        CurveCalculator::ConstantProduct.validate_supply(5, 0).unwrap_err(),
        SwapError::EmptySupply
    );
    assert_eq!(
        CurveCalculator::Stable { amp: 1 }.validate_supply(5, 0).unwrap_err(),
        SwapError::EmptySupply
    );
    // The shifted or priced token-B side tolerates an empty reserve.
    assert!(CurveCalculator::Offset { token_b_offset: 9 }.validate_supply(5, 0).is_ok());
    assert!(CurveCalculator::ConstantPrice { token_b_price: 9 }.validate_supply(5, 0).is_ok());
    assert_eq!(
        CurveCalculator::Offset { token_b_offset: 9 }.validate_supply(0, 5).unwrap_err(),
        SwapError::EmptySupply
    );
}

#[test]
fn build_curve_maps_discriminants() {
    let cp = build_curve(&CurveInput { curve_type: 0, curve_parameters: 0 }).unwrap();
    assert_eq!(cp.curve_type, CurveType::ConstantProduct);
    assert_eq!(cp.calculator, CurveCalculator::ConstantProduct);

    let price = build_curve(&CurveInput { curve_type: 1, curve_parameters: 42 }).unwrap();
    assert_eq!(price.curve_type, CurveType::ConstantPrice);
    assert_eq!(price.calculator, CurveCalculator::ConstantPrice { token_b_price: 42 });

    let stable = build_curve(&CurveInput { curve_type: 2, curve_parameters: 85 }).unwrap();
    assert_eq!(stable.curve_type, CurveType::Stable);
    assert_eq!(stable.calculator, CurveCalculator::Stable { amp: 85 });

    let offset = build_curve(&CurveInput { curve_type: 3, curve_parameters: 7 }).unwrap();
    assert_eq!(offset.curve_type, CurveType::Offset);
    assert_eq!(offset.calculator, CurveCalculator::Offset { token_b_offset: 7 });
}

#[test]
fn build_curve_rejects_unknown_discriminant() {
    let result = build_curve(&CurveInput { curve_type: 4, curve_parameters: 0 });
    assert_eq!(result.unwrap_err(), SwapError::UnsupportedCurveType);
    let result = build_curve(&CurveInput { curve_type: 255, curve_parameters: 0 });
    assert_eq!(result.unwrap_err(), SwapError::UnsupportedCurveType);
}

#[test]
fn constraints_accept_listed_curve_types() {
    let allowed = [CurveType::ConstantProduct, CurveType::Stable];
    let constraints = SwapConstraints { owner_key: "owner", valid_curve_types: &allowed };
    let cp = SwapCurve {
        curve_type: CurveType::ConstantProduct,
        calculator: CurveCalculator::ConstantProduct,
    };
    assert!(constraints.validate_curve(&cp).is_ok());
    let offset = SwapCurve {
        curve_type: CurveType::Offset,
        calculator: CurveCalculator::Offset { token_b_offset: 1 },
    };
    assert_eq!(
        constraints.validate_curve(&offset).unwrap_err(),
        SwapError::UnsupportedCurveType
    );
}

#[test]
fn constraints_with_empty_list_reject_all() {
    let allowed: [CurveType; 0] = [];
    let constraints = SwapConstraints { owner_key: "owner", valid_curve_types: &allowed };
    let cp = SwapCurve {
        curve_type: CurveType::ConstantProduct,
        calculator: CurveCalculator::ConstantProduct,
    };
    assert_eq!(constraints.validate_curve(&cp).unwrap_err(), SwapError::UnsupportedCurveType);
}
