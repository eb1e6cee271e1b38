use vstd::prelude::*;

use crate::decimal::{dec_div, dec_mul, Dec};
use crate::errors::ContractError;

verus! {

/// Health ratio of a position, in atomic units: the value of the locked
/// collateral divided by the minted debt. A position without debt counts
/// as `0` when collateral value is present and as the largest
/// representable decimal when it is absent.
pub open spec fn spec_health_ratio(minted_dira: int, locked_collateral: int, price: int) -> int {
    let value = dec_mul(price, locked_collateral);
    if minted_dira == 0 {
        if value != 0 {
            0
        } else {
            u128::MAX as int
        }
    } else {
        dec_div(value, minted_dira)
    }
}

/// Total debt ceiling of a position, in atomic units: the value of the
/// locked collateral divided by the mintable health. This is the whole
/// ceiling, not the remaining headroom.
pub open spec fn spec_max_mintable(locked_collateral: int, price: int, mintable_health: int) -> int
    recommends
        mintable_health > 0,
{
    dec_div(dec_mul(locked_collateral, price), mintable_health)
}

/// Largest amount of collateral that could leave a position without its
/// debt outgrowing the mintable health, in atomic units. Negative when
/// the debt already requires more collateral than is locked.
pub open spec fn spec_max_unlockable(
    locked_collateral: int,
    price: int,
    minted_dira: int,
    mintable_health: int,
) -> int
    recommends
        price > 0,
{
    locked_collateral - dec_div(dec_mul(minted_dira, mintable_health), price)
}

/// Health ratio of a position from its minted debt, locked collateral
/// and the collateral price. Rejects positions whose collateral value or
/// ratio does not fit in 128 bits.
pub fn calculate_stablecoin_health(
    minted_dira: Dec,
    locked_collateral: Dec,
    collateral_price_in_aed: Dec,
) -> (r: Result<Dec, ContractError>)
    ensures
        match r {
            Ok(h) => h@ == spec_health_ratio(minted_dira@, locked_collateral@, collateral_price_in_aed@),
            Err(e) => e == ContractError::ValueOutOfRange,
        },
        r is Ok <==> (dec_mul(collateral_price_in_aed@, locked_collateral@) <= u128::MAX && (
        minted_dira@ == 0 || dec_div(
            dec_mul(collateral_price_in_aed@, locked_collateral@),
            minted_dira@,
        ) <= u128::MAX)),
{
    let locked_collateral_value_in_aed = match collateral_price_in_aed.checked_mul(
        locked_collateral,
    ) {
        Some(v) => v,
        None => {
            return Err(ContractError::ValueOutOfRange);
        },
    };
    if minted_dira.is_zero() {
        if !locked_collateral_value_in_aed.is_zero() {
            return Ok(Dec::zero());
        } else {
            return Ok(Dec::max_value());
        }
    }
    match locked_collateral_value_in_aed.checked_div(minted_dira) {
        Some(h) => Ok(h),
        None => Err(ContractError::ValueOutOfRange),
    }
}

/// Total debt ceiling for a position. Rejects positions whose collateral
/// value or ceiling does not fit in 128 bits.
pub fn calculate_max_mintable_dira(
    locked_collateral: Dec,
    collateral_price_in_aed: Dec,
    mintable_health: Dec,
) -> (r: Result<Dec, ContractError>)
    requires
        mintable_health@ > 0,
    ensures
        match r {
            Ok(m) => m@ == spec_max_mintable(
                locked_collateral@,
                collateral_price_in_aed@,
                mintable_health@,
            ),
            Err(e) => e == ContractError::ValueOutOfRange,
        },
        r is Ok <==> (dec_mul(locked_collateral@, collateral_price_in_aed@) <= u128::MAX
            && spec_max_mintable(locked_collateral@, collateral_price_in_aed@, mintable_health@)
            <= u128::MAX),
{
    let collateral_value = match locked_collateral.checked_mul(collateral_price_in_aed) {
        Some(v) => v,
        None => {
            return Err(ContractError::ValueOutOfRange);
        },
    };
    match collateral_value.checked_div(mintable_health) {
        Some(m) => Ok(m),
        None => Err(ContractError::ValueOutOfRange),
    }
}

/// Largest unlockable amount for a position: `Ok(Some(m))` when `m` of
/// the locked collateral may leave, `Ok(None)` when the debt already
/// binds all of it (a negative mathematical result), and an error when
/// the collateral the debt requires does not fit in 128 bits.
pub fn calculate_max_unlockable_collateral(
    locked_collateral: Dec,
    collateral_price_in_aed: Dec,
    minted_dira: Dec,
    mintable_health: Dec,
) -> (r: Result<Option<Dec>, ContractError>)
    requires
        collateral_price_in_aed@ > 0,
        mintable_health@ > 0,
    ensures
        match r {
            Ok(m) => {
                let u = spec_max_unlockable(
                    locked_collateral@,
                    collateral_price_in_aed@,
                    minted_dira@,
                    mintable_health@,
                );
                match m {
                    Some(d) => d@ == u && u >= 0,
                    None => u < 0,
                }
            },
            Err(e) => e == ContractError::ValueOutOfRange,
        },
        r is Ok <==> dec_mul(minted_dira@, mintable_health@) <= u128::MAX,
{
    let required_collateral_for_minted_dira = match minted_dira.checked_mul(mintable_health) {
        Some(v) => v,
        None => {
            return Err(ContractError::ValueOutOfRange);
        },
    };
    match required_collateral_for_minted_dira.checked_div(collateral_price_in_aed) {
        Some(required) => match locked_collateral.checked_sub(required) {
            Some(unlockable) => Ok(Some(unlockable)),
            None => Ok(None),
        },
        None => {
            // The debt requires more collateral than is representable,
            // so nothing is unlockable.
            proof {
                assert(locked_collateral@ <= u128::MAX);
            }
            Ok(None)
        },
    }
}

} // verus!
