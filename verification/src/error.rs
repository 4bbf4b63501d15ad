//! Failure kinds reported by the pricing core and its callers.

use vstd::prelude::*;

verus! {

/// Errors of the swap pool. The pricing core itself only ever reports
/// configuration errors (`InvalidFee`, `InvalidCurve`, `UnsupportedCurveType`),
/// degenerate operations (`EmptySupply`, `ZeroTradingTokens`) and arithmetic
/// failures (`CalculationFailure`); the remaining variants belong to the
/// settlement layer that drives the core.
#[derive(Clone, Copy, Debug, PartialEq, Eq, Structural)]
pub enum SwapError {
    /// The account cannot be initialized because it is already being used.
    AlreadyInUse,
    /// The program address provided doesn't match the value generated by the program.
    InvalidProgramAddress,
    /// The owner of the input isn't set to the program address generated by the program.
    InvalidOwner,
    /// The owner of the pool token output is set to the program address generated by the program.
    InvalidOutputOwner,
    /// The deserialized account is not an SPL Token mint.
    ExpectedMint,
    /// The deserialized account is not an SPL Token account.
    ExpectedAccount,
    /// The input token account is empty.
    EmptySupply,
    /// The pool token mint has a non-zero supply.
    InvalidSupply,
    /// The provided token account has a delegate.
    InvalidDelegate,
    /// The input token is invalid for swap.
    InvalidInput,
    /// Address of the provided swap token account is incorrect.
    IncorrectSwapAccount,
    /// Address of the provided pool token mint is incorrect.
    IncorrectPoolMint,
    /// The output token is invalid for swap.
    InvalidOutput,
    /// General calculation failure due to overflow, underflow or non-convergence.
    CalculationFailure,
    /// Invalid instruction number passed in.
    InvalidInstruction,
    /// Swap input token accounts have the same mint.
    RepeatedMint,
    /// Swap instruction exceeds desired slippage limit.
    ExceededSlippage,
    /// The provided token account has a close authority.
    InvalidCloseAuthority,
    /// The pool token mint has a freeze authority.
    InvalidFreezeAuthority,
    /// The pool fee token account is incorrect.
    IncorrectFeeAccount,
    /// The given pool token amount results in zero trading tokens.
    ZeroTradingTokens,
    /// The fee calculation failed due to overflow, underflow or unexpected 0.
    FeeCalculationFailure,
    /// Conversion to u64 failed with an overflow or underflow.
    ConversionFailure,
    /// The provided fee does not match the program owner's constraints.
    InvalidFee,
    /// The provided token program does not match the token program expected by the swap.
    IncorrectTokenProgramId,
    /// The provided curve type is not supported by the program owner.
    UnsupportedCurveType,
    /// The provided curve parameters are invalid.
    InvalidCurve,
    /// The operation cannot be performed on the given curve.
    UnsupportedCurveOperation,
}

} // verus!
