use vstd::prelude::*;

use crate::decimal::Dec;

verus! {

/// Every way an operation of the ledger can be rejected. A rejected
/// operation leaves the state exactly as it was.
#[derive(Clone, Copy, Debug, PartialEq, Eq, Structural)]
pub enum ContractError {
    /// A health parameter of zero was supplied at instantiation.
    HealthCannotBeZero,
    /// No collateral denomination was supplied at instantiation.
    MissingCollateralTokenDenom,
    /// A parameter update would leave the mintable health below the
    /// liquidation health.
    MintableHealthLowerThanLiquidationHealth,
    /// The funds attached to a lock request do not cover the amount to lock.
    InsufficientFundsSent,
    /// A price-dependent operation ran before an admin set the price.
    CollateralPriceNotSet,
    /// An unlock request exceeds what the position's debt allows;
    /// carries the largest amount that could be unlocked instead.
    UnlockAmountTooHigh { max_unlockable: Dec },
    /// The stored collateral balance cannot cover the requested unlock.
    InsufficientCollateral,
    /// A governance operation was attempted by a non-admin.
    UnauthorizedUser,
    /// A mint request would push the debt above the position's ceiling;
    /// carries that ceiling.
    MintAmountExceedsHealth { max_mintable: Dec },
    /// A redeem request exceeds the debt on record; carries that debt.
    InsufficientDebt { minted_debt: Dec },
    /// A liquidation was attempted on a position at or above the
    /// liquidation health; carries the computed health ratio.
    PositionIsHealthy { health_ratio: Dec },
    /// An intermediate fixed-point value does not fit in 128 bits.
    ValueOutOfRange,
}

} // verus!
