//! Errors returned by the lending core.

use vstd::prelude::*;

verus! {

/// Every way an operation of the lending core can fail.
#[derive(Clone, Copy, Debug, PartialEq, Eq, Structural)]
pub enum ErrorCode {
    /// The outflow of the current window would exceed the configured maximum.
    RateLimitReached,
    /// An argument is outside the range the operation accepts.
    InvalidArgument,
    /// The signer may not perform the operation.
    Unauthorized,
    /// The account is owned by another program.
    ProgramNotAccountOwner,
    /// A division by zero in integer arithmetic.
    ZeroDivisionError,
    /// An arithmetic result does not fit its type, or would be negative.
    MathOverflow,
    /// The given slot lies before the start of the current window.
    SlotLessThanWindowStart,
    /// The reserve does not hold enough available liquidity.
    InsufficientLiquidity,
    /// The borrow is worth more than the obligation may borrow.
    BorrowTooLarge,
    /// The fee would consume the whole amount.
    BorrowTooSmall,
    /// The amount is zero or otherwise unusable.
    InvalidAmount,
    /// The reserve configuration violates one of its bounds.
    InvalidConfig,
    /// The lending market account is not the expected one.
    InvalidLendingMarketAccount,
    /// The signer is not the owner of the lending market.
    SignerNotLendingMarketOwner,
    /// The bump seed does not match the derived address.
    InvalidBumpSeed,
    /// The reserve belongs to a different lending market.
    InvalidReserveLendingMarketMatch,
    /// A fee field was changed by a signer other than the fee authority.
    NotBernanke,
    /// The token program is not the one the market was created with.
    InvalidTokenProgram,
    /// The collateral mint is not the reserve's.
    InvalidCollateralMintAccount,
    /// The source of collateral is the reserve's own supply, or not it where it must be.
    InvalidSourceOfCollateral,
    /// The source of liquidity is the reserve's own supply, or not it where it must be.
    InvalidSourceOfLiquidity,
    /// The destination of liquidity is the reserve's own supply, or not it where it must be.
    InvalidDestinationOfLiquidity,
    /// The destination of collateral is the reserve's own supply, or not it where it must be.
    InvalidDestinationOfCollateral,
    /// A division by zero in fixed-point arithmetic.
    DivisionByZero,
    /// The obligation has no deposits.
    ObligationDepositsEmpty,
    /// The obligation has no borrows.
    ObligationBorrowsEmpty,
    /// The obligation has no borrow from the given reserve.
    InvalidObligationLiquidity,
    /// The obligation has no deposit in the given reserve.
    InvalidObligationCollateral,
    /// The obligation already holds the maximum number of positions.
    ObligationReserveLimit,
    /// The deposit would raise the reserve's supply above its limit.
    DepositedOverLimit,
    /// The reserve was not refreshed in the current slot.
    ReserveStale,
    /// The total supply of the reserve is inconsistent.
    InvalidTotalSupply,
    /// The cumulative borrow rate of a reserve decreased.
    NegativeInterestRate,
    /// The signer does not own the obligation.
    ObligationNotOwnedBySigner,
    /// The deposit to withdraw from is empty.
    ObligationCollateralEmpty,
    /// Nothing can be withdrawn without exceeding the borrowing limit.
    WithdrawTooLarge,
    /// A reserve's attributed borrow value exceeds its limit.
    BorrowAttributionLimitExceeded,
    /// The reserve data is malformed.
    InvalidReserveData,
    /// A byte is neither 0 nor 1 where a boolean is expected.
    InvalidBoolRepresentation,
    /// The obligation was not refreshed in the current slot.
    ObligationStale,
    /// The accounts handed in do not match the ones recorded.
    InvalidAccountInput,
    /// The obligation is healthy, so it cannot be liquidated.
    ObligationHealthy,
}

/// What holds of an operation that changes a state or fails.
///
/// Where it succeeds, the state it leaves is the one `expected`; where it
/// fails, it fails with the error `expected` and leaves the state as it was.
pub open spec fn commits<S>(
    r: Result<(), ErrorCode>,
    before: S,
    after: S,
    expected: Result<S, ErrorCode>,
) -> bool {
    match r {
        Ok(()) => expected == Ok::<S, ErrorCode>(after),
        Err(e) => expected == Err::<S, ErrorCode>(e) && after == before,
    }
}

/// What holds of an operation that changes a state and returns a value, or fails.
///
/// Where it succeeds, the state it leaves and the value it returns are the
/// ones `expected`; where it fails, it fails with the error `expected` and
/// leaves the state as it was.
pub open spec fn commits_with<S, T>(
    r: Result<T, ErrorCode>,
    before: S,
    after: S,
    expected: Result<(S, T), ErrorCode>,
) -> bool {
    match r {
        Ok(value) => expected == Ok::<(S, T), ErrorCode>((after, value)),
        Err(e) => expected == Err::<(S, T), ErrorCode>(e) && after == before,
    }
}

} // verus!
