//! Fee policy: pure functions computing the trading fee, the owner's
//! cut of it, the withdrawal fee and the host fee from a gross token
//! amount, given rational fee rates.

use vstd::prelude::*;
use vstd::arithmetic::div_mod::{
    lemma_div_is_ordered, lemma_div_multiples_vanish, lemma_fundamental_div_mod,
};

use crate::error::SwapError;

verus! {

/// A fee rate `numerator / denominator` is admissible when it is zero
/// or a well-defined fraction of at most one.
pub open spec fn fraction_valid(numerator: int, denominator: int) -> bool {
    numerator == 0 || (denominator > 0 && numerator <= denominator)
}

/// `floor(amount * numerator / denominator)`.
pub open spec fn floor_fee(amount: int, numerator: int, denominator: int) -> int {
    amount * numerator / denominator
}

/// The fee charged on `amount`: zero when the rate or the amount is
/// zero, otherwise the floored product, raised to one token when the
/// floor would vanish, so that a positive rate on a positive amount
/// never rounds to a free trade.
pub open spec fn fee_amount(amount: int, numerator: int, denominator: int) -> int {
    if numerator == 0 || amount == 0 {
        0
    } else if floor_fee(amount, numerator, denominator) == 0 {
        1
    } else {
        floor_fee(amount, numerator, denominator)
    }
}

/// Fee configuration of a pool: the trading fee retained by the
/// reserves, the owner's cut of the trading fee, the fee on
/// withdrawals, and the host's sub-share of the owner fee.
#[derive(Clone, Copy, Debug, PartialEq, Eq, Structural)]
pub struct CurveFees {
    pub trade_fee_numerator: u64,
    pub trade_fee_denominator: u64,
    pub owner_trade_fee_numerator: u64,
    pub owner_trade_fee_denominator: u64,
    pub owner_withdraw_fee_numerator: u64,
    pub owner_withdraw_fee_denominator: u64,
    pub host_fee_numerator: u64,
    pub host_fee_denominator: u64,
}

impl CurveFees {
    /// All four rates are admissible.
    pub open spec fn valid(self) -> bool {
        &&& fraction_valid(self.trade_fee_numerator as int, self.trade_fee_denominator as int)
        &&& fraction_valid(
            self.owner_trade_fee_numerator as int,
            self.owner_trade_fee_denominator as int,
        )
        &&& fraction_valid(
            self.owner_withdraw_fee_numerator as int,
            self.owner_withdraw_fee_denominator as int,
        )
        &&& fraction_valid(self.host_fee_numerator as int, self.host_fee_denominator as int)
    }

    /// Rejects a configuration holding any rate with a zero denominator
    /// under a non-zero numerator, or a rate above one.
    pub fn validate(&self) -> (r: Result<(), SwapError>)
        ensures
            r is Ok <==> self.valid(),
            r is Err ==> r == Result::<(), SwapError>::Err(SwapError::InvalidFee),
    {
        if validate_fraction(self.trade_fee_numerator, self.trade_fee_denominator)
            && validate_fraction(self.owner_trade_fee_numerator, self.owner_trade_fee_denominator)
            && validate_fraction(
            self.owner_withdraw_fee_numerator,
            self.owner_withdraw_fee_denominator,
        ) && validate_fraction(self.host_fee_numerator, self.host_fee_denominator) {
            Ok(())
        } else {
            Err(SwapError::InvalidFee)
        }
    }

    /// Trading fee charged on a swap input amount.
    pub fn trading_fee(&self, trading_tokens: u128) -> (r: u128)
        requires
            trading_tokens <= u64::MAX,
            fraction_valid(self.trade_fee_numerator as int, self.trade_fee_denominator as int),
        ensures
            r == fee_amount(
                trading_tokens as int,
                self.trade_fee_numerator as int,
                self.trade_fee_denominator as int,
            ),
            r <= trading_tokens,
    {
        calculate_fee(trading_tokens, self.trade_fee_numerator, self.trade_fee_denominator)
    }

    /// The owner's cut, taken out of a trading fee already charged.
    pub fn owner_trading_fee(&self, trade_fee: u128) -> (r: u128)
        requires
            trade_fee <= u64::MAX,
            fraction_valid(
                self.owner_trade_fee_numerator as int,
                self.owner_trade_fee_denominator as int,
            ),
        ensures
            r == fee_amount(
                trade_fee as int,
                self.owner_trade_fee_numerator as int,
                self.owner_trade_fee_denominator as int,
            ),
            r <= trade_fee,
    {
        calculate_fee(trade_fee, self.owner_trade_fee_numerator, self.owner_trade_fee_denominator)
    }

    /// Fee charged on a withdrawal, in pool tokens.
    pub fn owner_withdraw_fee(&self, pool_tokens: u128) -> (r: u128)
        requires
            pool_tokens <= u64::MAX,
            fraction_valid(
                self.owner_withdraw_fee_numerator as int,
                self.owner_withdraw_fee_denominator as int,
            ),
        ensures
            r == fee_amount(
                pool_tokens as int,
                self.owner_withdraw_fee_numerator as int,
                self.owner_withdraw_fee_denominator as int,
            ),
            r <= pool_tokens,
    {
        calculate_fee(
            pool_tokens,
            self.owner_withdraw_fee_numerator,
            self.owner_withdraw_fee_denominator,
        )
    }

    /// The host's sub-share of an owner fee already taken; it never
    /// exceeds the owner fee it is carved from.
    pub fn host_fee(&self, owner_fee: u128) -> (r: u128)
        requires
            owner_fee <= u64::MAX,
            fraction_valid(self.host_fee_numerator as int, self.host_fee_denominator as int),
        ensures
            r == fee_amount(
                owner_fee as int,
                self.host_fee_numerator as int,
                self.host_fee_denominator as int,
            ),
            r <= owner_fee,
    {
        calculate_fee(owner_fee, self.host_fee_numerator, self.host_fee_denominator)
    }
}

/// One rate check: zero numerator passes with any denominator; a
/// non-zero numerator needs a positive denominator at least as large.
fn validate_fraction(numerator: u64, denominator: u64) -> (r: bool)
    ensures
        r == fraction_valid(numerator as int, denominator as int),
{
    numerator == 0 || (denominator > 0 && numerator <= denominator)
}

/// Shared fee computation; see `fee_amount`.
fn calculate_fee(token_amount: u128, fee_numerator: u64, fee_denominator: u64) -> (r: u128)
    requires
        token_amount <= u64::MAX,
        fraction_valid(fee_numerator as int, fee_denominator as int),
    ensures
        r == fee_amount(token_amount as int, fee_numerator as int, fee_denominator as int),
        r <= token_amount,
{
    if fee_numerator == 0 || token_amount == 0 {
        0
    } else {
        proof {
            assert(token_amount * (fee_numerator as int) <= (u64::MAX as int) * (u64::MAX as int))
                by (nonlinear_arith)
                requires
                    token_amount <= u64::MAX,
                    fee_numerator <= u64::MAX,
                    token_amount >= 0,
            ;
            lemma_floor_fee_le_amount(token_amount as int, fee_numerator as int, fee_denominator as int);
        }
        let fee: u128 = token_amount * (fee_numerator as u128) / (fee_denominator as u128);
        if fee == 0 {
            1
        } else {
            fee
        }
    }
}

/// With an admissible positive rate, the floored fee never exceeds the
/// amount it is charged on.
proof fn lemma_floor_fee_le_amount(amount: int, numerator: int, denominator: int)
    requires
        0 <= amount,
        0 < numerator <= denominator,
    ensures
        0 <= floor_fee(amount, numerator, denominator) <= amount,
{
    assert(amount * numerator <= amount * denominator) by (nonlinear_arith)
        requires
            0 <= amount,
            numerator <= denominator,
    ;
    assert(amount * numerator >= 0) by (nonlinear_arith)
        requires
            0 <= amount,
            0 <= numerator,
    ;
    lemma_div_is_ordered(amount * numerator, amount * denominator, denominator);
    lemma_div_multiples_vanish(amount, denominator);
    assert(amount * denominator == denominator * amount) by (nonlinear_arith);
    vstd::arithmetic::div_mod::lemma_div_pos_is_pos(amount * numerator, denominator);
}

/// The fee never exceeds the amount it is charged on.
pub proof fn lemma_fee_le_amount(amount: int, numerator: int, denominator: int)
    requires
        0 <= amount,
        0 <= numerator,
        fraction_valid(numerator, denominator),
    ensures
        0 <= fee_amount(amount, numerator, denominator) <= amount,
{
    if numerator != 0 && amount != 0 {
        lemma_floor_fee_le_amount(amount, numerator, denominator);
    }
}

/// Fee monotonicity: a rate no smaller (as a rational,
/// `n1/d1 <= n2/d2`) never charges a smaller fee on the same amount.
pub proof fn lemma_fee_monotonic(amount: int, n1: int, d1: int, n2: int, d2: int)
    requires
        0 <= amount,
        0 <= n1,
        0 <= n2,
        fraction_valid(n1, d1),
        fraction_valid(n2, d2),
        d1 > 0,
        d2 > 0,
        n1 * d2 <= n2 * d1,
    ensures
        fee_amount(amount, n1, d1) <= fee_amount(amount, n2, d2),
{
    if n1 == 0 || amount == 0 {
        if n2 > 0 && amount > 0 {
            lemma_floor_fee_le_amount(amount, n2, d2);
        }
    } else {
        assert(n2 > 0) by (nonlinear_arith)
            requires
                n1 * d2 <= n2 * d1,
                n1 > 0,
                n2 >= 0,
                d2 > 0,
                d1 > 0,
        ;
        assert((amount * n1) * d2 <= (amount * n2) * d1) by (nonlinear_arith)
            requires
                0 <= amount,
                n1 * d2 <= n2 * d1,
        ;
        assert(amount * n1 >= 0 && amount * n2 >= 0) by (nonlinear_arith)
            requires
                0 <= amount,
                0 < n1,
                0 < n2,
        ;
        lemma_floor_div_cross(amount * n1, d1, amount * n2, d2);
    }
}

/// Cross-multiplied fractions order their floors: if `x / d1 <= y / d2`
/// as rationals (`x * d2 <= y * d1`), the integer quotients are ordered
/// the same way.
proof fn lemma_floor_div_cross(x: int, d1: int, y: int, d2: int)
    requires
        0 <= x,
        0 <= y,
        0 < d1,
        0 < d2,
        x * d2 <= y * d1,
    ensures
        x / d1 <= y / d2,
{
    let q = x / d1;
    lemma_fundamental_div_mod(x, d1);
    vstd::arithmetic::div_mod::lemma_mod_pos_bound(x, d1);
    assert(q * d1 <= x) by (nonlinear_arith)
        requires
            x == d1 * q + x % d1,
            x % d1 >= 0,
    ;
    assert((q * d1) * d2 <= x * d2) by (nonlinear_arith)
        requires
            q * d1 <= x,
            d2 > 0,
    ;
    assert(q * (d1 * d2) <= y * d1) by (nonlinear_arith)
        requires
            (q * d1) * d2 <= x * d2,
            x * d2 <= y * d1,
    ;
    assert(q * d2 <= y) by (nonlinear_arith)
        requires
            q * (d1 * d2) <= y * d1,
            d1 > 0,
    ;
    assert(q >= 0) by {
        vstd::arithmetic::div_mod::lemma_div_pos_is_pos(x, d1);
    }
    assert(q * d2 >= 0) by (nonlinear_arith)
        requires
            q >= 0,
            d2 > 0,
    ;
    lemma_div_is_ordered(q * d2, y, d2);
    lemma_div_multiples_vanish(q, d2);
    assert(q * d2 == d2 * q) by (nonlinear_arith);
}

} // verus!
