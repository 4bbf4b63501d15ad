//! Composition root: binds a curve-type tag to a concrete calculator,
//! deducts the trading fee, applies the invariant and returns the new
//! reserves.

use vstd::prelude::*;

use crate::calculator::{
    swap_without_fees_model, CurveCalculator, SwapWithoutFeesResult, TradeDirection,
};
use crate::error::SwapError;
use crate::fees::{fee_amount, CurveFees};

verus! {

/// Tag selecting one of the four curve kinds.
#[derive(Clone, Copy, Debug, PartialEq, Eq, Structural)]
pub enum CurveType {
    ConstantProduct,
    ConstantPrice,
    Stable,
    Offset,
}

/// Raw pool configuration: a curve-type discriminant and one scalar
/// whose meaning depends on the kind (price, amplification or offset;
/// unused for the constant product).
#[derive(Clone, Copy, Debug, PartialEq, Eq, Structural)]
pub struct CurveInput {
    pub curve_type: u8,
    pub curve_parameters: u64,
}

/// Outcome of a swap: exact amounts moved, the updated reserves, and
/// the fees charged.
#[derive(Clone, Copy, Debug, PartialEq, Eq, Structural)]
pub struct SwapResult {
    /// New amount of the source token held by the pool.
    pub new_swap_source_amount: u128,
    /// New amount of the destination token held by the pool.
    pub new_swap_destination_amount: u128,
    /// Source tokens taken from the trader, trading fee included.
    pub source_amount_swapped: u128,
    /// Destination tokens paid to the trader.
    pub destination_amount_swapped: u128,
    /// Trading fee retained by the reserves.
    pub trade_fee: u128,
    /// The owner's cut of the trading fee.
    pub owner_fee: u128,
}

/// A curve-type tag bound to its concrete calculator.
#[derive(Clone, Copy, Debug, PartialEq, Eq, Structural)]
pub struct SwapCurve {
    pub curve_type: CurveType,
    pub calculator: CurveCalculator,
}

impl CurveType {
    /// Decodes the wire discriminant; values beyond the known kinds are
    /// unsupported.
    pub fn try_from_u8(value: u8) -> (r: Result<CurveType, SwapError>)
        ensures
            value == 0 ==> r == Result::<CurveType, SwapError>::Ok(CurveType::ConstantProduct),
            value == 1 ==> r == Result::<CurveType, SwapError>::Ok(CurveType::ConstantPrice),
            value == 2 ==> r == Result::<CurveType, SwapError>::Ok(CurveType::Stable),
            value == 3 ==> r == Result::<CurveType, SwapError>::Ok(CurveType::Offset),
            value > 3 ==> r == Result::<CurveType, SwapError>::Err(SwapError::UnsupportedCurveType),
    {
        match value {
            0 => Ok(CurveType::ConstantProduct),
            1 => Ok(CurveType::ConstantPrice),
            2 => Ok(CurveType::Stable),
            3 => Ok(CurveType::Offset),
            _ => Err(SwapError::UnsupportedCurveType),
        }
    }
}

/// The calculator a configuration denotes, by discriminant.
pub open spec fn curve_of_input(input: CurveInput) -> SwapCurve {
    if input.curve_type == 0 {
        SwapCurve { curve_type: CurveType::ConstantProduct, calculator: CurveCalculator::ConstantProduct }
    } else if input.curve_type == 1 {
        SwapCurve {
            curve_type: CurveType::ConstantPrice,
            calculator: CurveCalculator::ConstantPrice { token_b_price: input.curve_parameters },
        }
    } else if input.curve_type == 2 {
        SwapCurve {
            curve_type: CurveType::Stable,
            calculator: CurveCalculator::Stable { amp: input.curve_parameters },
        }
    } else {
        SwapCurve {
            curve_type: CurveType::Offset,
            calculator: CurveCalculator::Offset { token_b_offset: input.curve_parameters },
        }
    }
}

/// Builds the curve denoted by a raw configuration record. The scalar
/// is not range-checked here; `CurveCalculator::validate` is the
/// construction-time check.
pub fn build_curve(curve_input: &CurveInput) -> (r: Result<SwapCurve, SwapError>)
    ensures
        curve_input.curve_type <= 3 ==> r == Result::<SwapCurve, SwapError>::Ok(
            curve_of_input(*curve_input),
        ),
        curve_input.curve_type > 3 ==> r == Result::<SwapCurve, SwapError>::Err(
            SwapError::UnsupportedCurveType,
        ),
        r matches Ok(c) ==> c.consistent(),
{
    let curve_type = match CurveType::try_from_u8(curve_input.curve_type) {
        Ok(t) => t,
        Err(e) => {
            return Err(e);
        },
    };
    let calculator = match curve_type {
        CurveType::ConstantProduct => CurveCalculator::ConstantProduct,
        CurveType::ConstantPrice => CurveCalculator::ConstantPrice {
            token_b_price: curve_input.curve_parameters,
        },
        CurveType::Stable => CurveCalculator::Stable { amp: curve_input.curve_parameters },
        CurveType::Offset => CurveCalculator::Offset {
            token_b_offset: curve_input.curve_parameters,
        },
    };
    Ok(SwapCurve { curve_type, calculator })
}

/// Exact outcome of a composed swap: the trading fee comes off the
/// input, the curve is applied to the reduced amount, the fee is added
/// back to the source side (it stays in the pool), and a destination
/// amount beyond the real reserve is an arithmetic failure.
pub open spec fn swap_curve_model(
    calc: CurveCalculator,
    fees: CurveFees,
    source_amount: int,
    swap_source_amount: int,
    swap_destination_amount: int,
    trade_direction: TradeDirection,
) -> Result<(int, int), SwapError> {
    let fee = fee_amount(
        source_amount,
        fees.trade_fee_numerator as int,
        fees.trade_fee_denominator as int,
    );
    match swap_without_fees_model(
        calc,
        source_amount - fee,
        swap_source_amount,
        swap_destination_amount,
        trade_direction,
    ) {
        Err(e) => Err(e),
        Ok(p) => if p.1 > swap_destination_amount {
            Err(SwapError::CalculationFailure)
        } else {
            Ok((p.0 + fee, p.1))
        },
    }
}

/// A composed swap outcome as a mathematical pair, for contracts.
pub open spec fn swap_result_to_model(r: Result<SwapResult, SwapError>) -> Result<
    (int, int),
    SwapError,
> {
    match r {
        Ok(v) => Ok((v.source_amount_swapped as int, v.destination_amount_swapped as int)),
        Err(e) => Err(e),
    }
}

impl SwapCurve {
    /// The tag names the variant the calculator holds.
    pub open spec fn consistent(self) -> bool {
        match self.calculator {
            CurveCalculator::ConstantProduct => self.curve_type == CurveType::ConstantProduct,
            CurveCalculator::ConstantPrice { .. } => self.curve_type == CurveType::ConstantPrice,
            CurveCalculator::Stable { .. } => self.curve_type == CurveType::Stable,
            CurveCalculator::Offset { .. } => self.curve_type == CurveType::Offset,
        }
    }

    /// Consistent tag and admissible configuration scalar.
    pub open spec fn wf(self) -> bool {
        self.consistent() && self.calculator.spec_valid_config()
    }

    /// Swaps `source_amount` against the reserves: deducts the trading
    /// fee, applies the curve invariant to the reduced amount and
    /// returns the amounts moved, the new reserves and the fees. See
    /// `swap_curve_model` for the exact outcome.
    pub fn swap(
        &self,
        source_amount: u128,
        swap_source_amount: u128,
        swap_destination_amount: u128,
        trade_direction: TradeDirection,
        fees: &CurveFees,
    ) -> (r: Result<SwapResult, SwapError>)
        requires
            self.wf(),
            fees.valid(),
            source_amount <= u64::MAX,
            swap_source_amount <= u64::MAX,
            swap_destination_amount <= u64::MAX,
        ensures
            swap_result_to_model(r) == swap_curve_model(
                self.calculator,
                *fees,
                source_amount as int,
                swap_source_amount as int,
                swap_destination_amount as int,
                trade_direction,
            ),
            r matches Ok(v) ==> {
                &&& v.trade_fee == fee_amount(
                    source_amount as int,
                    fees.trade_fee_numerator as int,
                    fees.trade_fee_denominator as int,
                )
                &&& v.owner_fee == fee_amount(
                    v.trade_fee as int,
                    fees.owner_trade_fee_numerator as int,
                    fees.owner_trade_fee_denominator as int,
                )
                &&& v.new_swap_source_amount == swap_source_amount + v.source_amount_swapped
                &&& v.new_swap_destination_amount == swap_destination_amount
                    - v.destination_amount_swapped
                &&& 0 < v.source_amount_swapped <= source_amount
                &&& 0 < v.destination_amount_swapped <= swap_destination_amount
            },
    {
        let trade_fee = fees.trading_fee(source_amount);
        let owner_fee = fees.owner_trading_fee(trade_fee);
        let source_amount_less_fees = source_amount - trade_fee;
        let result = match self.calculator.swap_without_fees(
            source_amount_less_fees,
            swap_source_amount,
            swap_destination_amount,
            trade_direction,
        ) {
            Ok(v) => v,
            Err(e) => {
                return Err(e);
            },
        };
        if result.destination_amount_swapped > swap_destination_amount {
            return Err(SwapError::CalculationFailure);
        }
        let source_amount_swapped = result.source_amount_swapped + trade_fee;
        Ok(
            SwapResult {
                new_swap_source_amount: swap_source_amount + source_amount_swapped,
                new_swap_destination_amount: swap_destination_amount
                    - result.destination_amount_swapped,
                source_amount_swapped,
                destination_amount_swapped: result.destination_amount_swapped,
                trade_fee,
                owner_fee,
            },
        )
    }
}

/// Invariant preservation through the composition: with the trading
/// fee retained by the source reserve, a successful constant-product
/// swap never decreases the product of the reserves.
pub proof fn lemma_swap_curve_invariant_constant_product(
    fees: CurveFees,
    source_amount: int,
    swap_source_amount: int,
    swap_destination_amount: int,
    trade_direction: TradeDirection,
    swapped: (int, int),
)
    requires
        0 <= source_amount,
        0 <= swap_source_amount,
        0 <= swap_destination_amount,
        fees.valid(),
        swap_curve_model(
            CurveCalculator::ConstantProduct,
            fees,
            source_amount,
            swap_source_amount,
            swap_destination_amount,
            trade_direction,
        ) == Ok::<(int, int), SwapError>(swapped),
    ensures
        (swap_source_amount + swapped.0) * (swap_destination_amount - swapped.1)
            >= swap_source_amount * swap_destination_amount,
{
    let tn = fees.trade_fee_numerator as int;
    let td = fees.trade_fee_denominator as int;
    let fee = fee_amount(source_amount, tn, td);
    crate::fees::lemma_fee_le_amount(source_amount, tn, td);
    crate::constant_product::lemma_constant_product_invariant(
        source_amount - fee,
        swap_source_amount,
        swap_destination_amount,
        swapped.0 - fee,
        swapped.1,
    );
    assert((swap_source_amount + swapped.0) * (swap_destination_amount - swapped.1) >= (
    swap_source_amount + swapped.0 - fee) * (swap_destination_amount - swapped.1))
        by (nonlinear_arith)
        requires
            fee >= 0,
            swap_destination_amount - swapped.1 >= 0,
    ;
}

/// Fee monotonicity through the composition: with the same reserves
/// and input, a trading-fee rate no smaller as a rational never pays
/// out more destination tokens. Stated of the three closed-form
/// curves; the stable curve's iterative solve is outside its reach.
pub proof fn lemma_swap_fee_monotonic(
    calc: CurveCalculator,
    fees_low: CurveFees,
    fees_high: CurveFees,
    source_amount: int,
    swap_source_amount: int,
    swap_destination_amount: int,
    trade_direction: TradeDirection,
    swapped_low: (int, int),
    swapped_high: (int, int),
)
    requires
        !(calc is Stable),
        0 <= source_amount,
        0 <= swap_source_amount,
        0 <= swap_destination_amount,
        fees_low.valid(),
        fees_high.valid(),
        fees_low.trade_fee_denominator > 0,
        fees_high.trade_fee_denominator > 0,
        fees_low.trade_fee_numerator * fees_high.trade_fee_denominator
            <= fees_high.trade_fee_numerator * fees_low.trade_fee_denominator,
        swap_curve_model(
            calc,
            fees_low,
            source_amount,
            swap_source_amount,
            swap_destination_amount,
            trade_direction,
        ) == Ok::<(int, int), SwapError>(swapped_low),
        swap_curve_model(
            calc,
            fees_high,
            source_amount,
            swap_source_amount,
            swap_destination_amount,
            trade_direction,
        ) == Ok::<(int, int), SwapError>(swapped_high),
    ensures
        swapped_high.1 <= swapped_low.1,
{
    let nl = fees_low.trade_fee_numerator as int;
    let dl = fees_low.trade_fee_denominator as int;
    let nh = fees_high.trade_fee_numerator as int;
    let dh = fees_high.trade_fee_denominator as int;
    let fee_low = fee_amount(source_amount, nl, dl);
    let fee_high = fee_amount(source_amount, nh, dh);
    crate::fees::lemma_fee_monotonic(source_amount, nl, dl, nh, dh);
    crate::fees::lemma_fee_le_amount(source_amount, nl, dl);
    crate::fees::lemma_fee_le_amount(source_amount, nh, dh);
    match calc {
        CurveCalculator::ConstantProduct => {
            crate::constant_product::lemma_cp_destination_monotonic(
                source_amount - fee_high,
                source_amount - fee_low,
                swap_source_amount,
                swap_destination_amount,
                (swapped_high.0 - fee_high, swapped_high.1),
                (swapped_low.0 - fee_low, swapped_low.1),
            );
        },
        CurveCalculator::ConstantPrice { token_b_price } => {
            crate::constant_price::lemma_price_destination_monotonic(
                token_b_price as int,
                source_amount - fee_high,
                source_amount - fee_low,
                trade_direction,
                (swapped_high.0 - fee_high, swapped_high.1),
                (swapped_low.0 - fee_low, swapped_low.1),
            );
        },
        CurveCalculator::Stable { .. } => {
        },
        CurveCalculator::Offset { token_b_offset } => {
            match trade_direction {
                TradeDirection::AtoB => {
                    crate::constant_product::lemma_cp_destination_monotonic(
                        source_amount - fee_high,
                        source_amount - fee_low,
                        swap_source_amount,
                        swap_destination_amount + token_b_offset,
                        (swapped_high.0 - fee_high, swapped_high.1),
                        (swapped_low.0 - fee_low, swapped_low.1),
                    );
                },
                TradeDirection::BtoA => {
                    crate::constant_product::lemma_cp_destination_monotonic(
                        source_amount - fee_high,
                        source_amount - fee_low,
                        swap_source_amount + token_b_offset,
                        swap_destination_amount,
                        (swapped_high.0 - fee_high, swapped_high.1),
                        (swapped_low.0 - fee_low, swapped_low.1),
                    );
                },
            }
        },
    }
}

/// Deployment-level policy: the curve types a pool is allowed to use,
/// and the key owning the program's fee accounts.
pub struct SwapConstraints<'a> {
    pub owner_key: &'a str,
    pub valid_curve_types: &'a [CurveType],
}

impl<'a> SwapConstraints<'a> {
    /// Accepts exactly the curves whose type is listed; a recognized
    /// but disallowed type fails the same way as an unknown one.
    pub fn validate_curve(&self, swap_curve: &SwapCurve) -> (r: Result<(), SwapError>)
        ensures
            r is Ok <==> exists|i: int|
                0 <= i < self.valid_curve_types@.len() && self.valid_curve_types@[i]
                    == swap_curve.curve_type,
            r is Err ==> r == Result::<(), SwapError>::Err(SwapError::UnsupportedCurveType),
    {
        let types: &[CurveType] = self.valid_curve_types;
        let count = types.len();
        let mut index: usize = 0;
        while index < count
            invariant
                count == types@.len(),
                index <= count,
                types@ == self.valid_curve_types@,
                forall|j: int| 0 <= j < index ==> types@[j] != swap_curve.curve_type,
            decreases count - index,
        {
            if types[index] == swap_curve.curve_type {
                return Ok(());
            }
            index = index + 1;
        }
        Err(SwapError::UnsupportedCurveType)
    }
}

} // verus!
