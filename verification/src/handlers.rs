use vstd::prelude::*;

use crate::decimal::{dec_div, dec_mul, Dec, DECIMAL_FRACTIONAL};
use crate::errors::ContractError;
use crate::health::{
    calculate_max_mintable_dira, calculate_max_unlockable_collateral, calculate_stablecoin_health,
    spec_health_ratio, spec_max_mintable, spec_max_unlockable,
};
use crate::msgs::{
    spec_sent_amount, BankTransfer, BurnInstruction, Coin, ExecuteMsg, ExecuteOutcome,
    InstantiateMsg, IssueInstruction, QueryAnswer, QueryMsg,
};
use crate::state::{ContractState, Position};

verus! {

/// Which rejection, if any, an instantiation request earns: a zero
/// health parameter, an empty denomination, or a mintable health below
/// the liquidation health, checked in that order.
pub open spec fn spec_instantiate_error(
    liquidation_health: int,
    mintable_health: int,
    denom: Seq<char>,
) -> Option<ContractError> {
    if liquidation_health == 0 || mintable_health == 0 {
        Some(ContractError::HealthCannotBeZero)
    } else if denom.len() == 0 {
        Some(ContractError::MissingCollateralTokenDenom)
    } else if mintable_health < liquidation_health {
        Some(ContractError::MintableHealthLowerThanLiquidationHealth)
    } else {
        None
    }
}

/// Sets up a fresh ledger: validates the risk parameters, seeds the
/// admin set with the instantiating caller, and starts with no price
/// and no positions.
pub fn instantiate(info_sender: String, msg: InstantiateMsg) -> (r: Result<
    ContractState,
    ContractError,
>)
    ensures
        match r {
            Ok(s) => {
                &&& spec_instantiate_error(
                    msg.liquidation_health@,
                    msg.mintable_health@,
                    msg.collateral_token_denom@,
                ) is None
                &&& s.wf()
                &&& s.admin_addresses@.len() == 1
                &&& s.admin_addresses@[0]@ == info_sender@
                &&& s.is_admin(info_sender@)
                &&& s.collateral_token_denom@ == msg.collateral_token_denom@
                &&& s.liquidation_health == msg.liquidation_health
                &&& s.mintable_health == msg.mintable_health
                &&& s.spec_price() is None
                &&& forall|a: Seq<char>| s.locked_of(a) == 0 && s.debt_of(a) == 0
            },
            Err(e) => spec_instantiate_error(
                msg.liquidation_health@,
                msg.mintable_health@,
                msg.collateral_token_denom@,
            ) == Some(e),
        },
{
    if msg.liquidation_health.is_zero() || msg.mintable_health.is_zero() {
        return Err(ContractError::HealthCannotBeZero);
    }
    if msg.collateral_token_denom.as_str().unicode_len() == 0 {
        return Err(ContractError::MissingCollateralTokenDenom);
    }
    if msg.mintable_health.lt(&msg.liquidation_health) {
        return Err(ContractError::MintableHealthLowerThanLiquidationHealth);
    }
    let mut admins: Vec<String> = Vec::new();
    admins.push(info_sender);
    let s = ContractState {
        admin_addresses: admins,
        collateral_token_denom: msg.collateral_token_denom,
        liquidation_health: msg.liquidation_health,
        mintable_health: msg.mintable_health,
        collateral_token_price: None,
        positions: Vec::new(),
    };
    proof {
        assert(s.admin_addresses@[0]@ == info_sender@);
        assert(s.is_admin(info_sender@));
    }
    Ok(s)
}

/// The amount of denomination `denom` attached to the call, from the
/// first coin of that denomination.
fn find_sent_amount(funds: &Vec<Coin>, denom: &String) -> (r: Option<u128>)
    ensures
        match r {
            Some(u) => spec_sent_amount(funds@, denom@) == Some(u as int),
            None => spec_sent_amount(funds@, denom@) is None,
        },
{
    let n = funds.len();
    let mut i: usize = 0;
    proof {
        assert(funds@.skip(0) =~= funds@);
    }
    while i < n
        invariant
            n == funds@.len(),
            0 <= i <= n,
            spec_sent_amount(funds@, denom@) == spec_sent_amount(funds@.skip(i as int), denom@),
        decreases n - i,
    {
        proof {
            assert(funds@.skip(i as int)[0] == funds@[i as int]);
        }
        if funds[i].denom == *denom {
            return Some(funds[i].amount);
        }
        proof {
            assert(funds@.skip(i as int).drop_first() =~= funds@.skip(i as int + 1));
        }
        i = i + 1;
    }
    proof {
        assert(funds@.skip(n as int) =~= Seq::<Coin>::empty());
    }
    None
}

/// A lock request is allowed when the attached funds include the
/// collateral denomination, cover the requested amount, and the new
/// balance is representable.
pub open spec fn spec_lock_allowed(
    s: ContractState,
    caller: Seq<char>,
    funds: Seq<Coin>,
    amount: int,
) -> bool {
    let sent = spec_sent_amount(funds, s.collateral_token_denom@);
    &&& sent is Some
    &&& amount <= sent->0 * (DECIMAL_FRACTIONAL as int)
    &&& s.locked_of(caller) + amount <= u128::MAX
}

/// The rejection a disallowed lock request earns.
pub open spec fn spec_lock_error(
    s: ContractState,
    caller: Seq<char>,
    funds: Seq<Coin>,
    amount: int,
) -> ContractError {
    let sent = spec_sent_amount(funds, s.collateral_token_denom@);
    if sent is None || amount > sent->0 * (DECIMAL_FRACTIONAL as int) {
        ContractError::InsufficientFundsSent
    } else {
        ContractError::ValueOutOfRange
    }
}

/// Full behaviour of a lock request between the state `pre` before it
/// and `post` after it: on success the caller's locked collateral grows
/// by the requested amount and the new total is reported; a rejected
/// request changes nothing.
pub open spec fn spec_lock_post(
    pre: ContractState,
    post: ContractState,
    caller: Seq<char>,
    funds: Seq<Coin>,
    amount: int,
    r: Result<ExecuteOutcome, ContractError>,
) -> bool {
    match r {
        Ok(out) => {
            &&& spec_lock_allowed(pre, caller, funds, amount)
            &&& post.same_config(pre)
            &&& post.positions_unchanged_except(pre, caller)
            &&& post.locked_of(caller) == pre.locked_of(caller) + amount
            &&& post.debt_of(caller) == pre.debt_of(caller)
            &&& out matches ExecuteOutcome::CollateralLocked { total_funds_locked_by_user }
                && total_funds_locked_by_user@ == post.locked_of(caller)
        },
        Err(e) => {
            &&& !spec_lock_allowed(pre, caller, funds, amount)
            &&& post == pre
            &&& e == spec_lock_error(pre, caller, funds, amount)
        },
    }
}

/// Locks collateral for the caller: the attached funds must cover the
/// requested amount in the configured denomination; the amount is added
/// to the caller's locked collateral and the new total reported.
pub fn execute_lock_collateral(
    state: &mut ContractState,
    info_sender: String,
    info_funds: &Vec<Coin>,
    collateral_amount: Dec,
) -> (r: Result<ExecuteOutcome, ContractError>)
    requires
        old(state).wf(),
    ensures
        final(state).wf(),
        spec_lock_post(
            *old(state),
            *final(state),
            info_sender@,
            info_funds@,
            collateral_amount@,
            r,
        ),
{
    let sent_amount = match find_sent_amount(info_funds, &state.collateral_token_denom) {
        Some(u) => u,
        None => {
            return Err(ContractError::InsufficientFundsSent);
        },
    };
    if !collateral_amount.covered_by_units(sent_amount) {
        return Err(ContractError::InsufficientFundsSent);
    }
    let position = state.get_position(&info_sender);
    let new_locked = match position.locked_collateral.checked_add(collateral_amount) {
        Some(d) => d,
        None => {
            return Err(ContractError::ValueOutOfRange);
        },
    };
    state.set_position(
        &info_sender,
        Position { locked_collateral: new_locked, minted_debt: position.minted_debt },
    );
    Ok(ExecuteOutcome::CollateralLocked { total_funds_locked_by_user: new_locked })
}

/// An unlock request is allowed when the price is set, the collateral
/// the debt still requires is representable, and the requested amount
/// does not exceed the unlockable remainder.
pub open spec fn spec_unlock_allowed(s: ContractState, caller: Seq<char>, amount: int) -> bool {
    &&& s.spec_price() is Some
    &&& dec_mul(s.debt_of(caller), s.mintable_health@) <= u128::MAX
    &&& amount <= spec_max_unlockable(
        s.locked_of(caller),
        s.spec_price()->0,
        s.debt_of(caller),
        s.mintable_health@,
    )
}

/// The rejection a disallowed unlock request earns; the reported ceiling
/// is the unlockable remainder, clamped to zero when it is negative.
pub open spec fn spec_unlock_error(s: ContractState, caller: Seq<char>, amount: int) -> ContractError {
    if s.spec_price() is None {
        ContractError::CollateralPriceNotSet
    } else if dec_mul(s.debt_of(caller), s.mintable_health@) > u128::MAX {
        ContractError::ValueOutOfRange
    } else {
        let u = spec_max_unlockable(
            s.locked_of(caller),
            s.spec_price()->0,
            s.debt_of(caller),
            s.mintable_health@,
        );
        ContractError::UnlockAmountTooHigh {
            max_unlockable: Dec { atomics: (if u >= 0 { u } else { 0 }) as u128 },
        }
    }
}

/// Full behaviour of an unlock request: on success the caller's locked
/// collateral shrinks by the requested amount and that amount (in whole
/// tokens) is instructed back to the caller; a rejected request changes
/// nothing.
pub open spec fn spec_unlock_post(
    pre: ContractState,
    post: ContractState,
    caller: Seq<char>,
    amount: int,
    r: Result<ExecuteOutcome, ContractError>,
) -> bool {
    match r {
        Ok(out) => {
            &&& spec_unlock_allowed(pre, caller, amount)
            &&& post.same_config(pre)
            &&& post.positions_unchanged_except(pre, caller)
            &&& post.locked_of(caller) == pre.locked_of(caller) - amount
            &&& post.debt_of(caller) == pre.debt_of(caller)
            &&& out matches ExecuteOutcome::CollateralUnlocked { transfer }
                && transfer.recipient@ == caller && transfer.denom@ == pre.collateral_token_denom@
                && transfer.amount as int == amount / (DECIMAL_FRACTIONAL as int)
        },
        Err(e) => {
            &&& !spec_unlock_allowed(pre, caller, amount)
            &&& post == pre
            &&& e == spec_unlock_error(pre, caller, amount)
        },
    }
}

/// Unlocks collateral for the caller: the requested amount must not
/// exceed what the position's debt leaves unlockable under the mintable
/// health; on success it leaves the ledger and is instructed back to the
/// caller in whole tokens.
pub fn execute_unlock_collateral(
    state: &mut ContractState,
    info_sender: String,
    collateral_amount: Dec,
) -> (r: Result<ExecuteOutcome, ContractError>)
    requires
        old(state).wf(),
    ensures
        final(state).wf(),
        spec_unlock_post(*old(state), *final(state), info_sender@, collateral_amount@, r),
{
    let collateral_price_in_aed = match state.collateral_token_price {
        Some(p) => p,
        None => {
            return Err(ContractError::CollateralPriceNotSet);
        },
    };
    let position = state.get_position(&info_sender);
    let max_unlockable = match calculate_max_unlockable_collateral(
        position.locked_collateral,
        collateral_price_in_aed,
        position.minted_debt,
        state.mintable_health,
    ) {
        Ok(Some(m)) => m,
        Ok(None) => {
            return Err(ContractError::UnlockAmountTooHigh { max_unlockable: Dec::zero() });
        },
        Err(e) => {
            return Err(e);
        },
    };
    if max_unlockable.lt(&collateral_amount) {
        return Err(ContractError::UnlockAmountTooHigh { max_unlockable });
    }
    let new_locked = match position.locked_collateral.checked_sub(collateral_amount) {
        Some(d) => d,
        None => {
            // Defensive: unreachable, since the unlockable remainder
            // never exceeds the locked balance.
            return Err(ContractError::InsufficientCollateral);
        },
    };
    state.set_position(
        &info_sender,
        Position { locked_collateral: new_locked, minted_debt: position.minted_debt },
    );
    let denom = state.collateral_token_denom.clone();
    Ok(ExecuteOutcome::CollateralUnlocked {
        transfer: BankTransfer {
            recipient: info_sender,
            denom,
            amount: collateral_amount.whole_units(),
        },
    })
}

/// A mint request is allowed when the price is set, the position's debt
/// ceiling is representable, and the existing debt plus the requested
/// amount stays within that ceiling.
pub open spec fn spec_mint_allowed(s: ContractState, caller: Seq<char>, amount: int) -> bool {
    &&& s.spec_price() is Some
    &&& dec_mul(s.locked_of(caller), s.spec_price()->0) <= u128::MAX
    &&& spec_max_mintable(s.locked_of(caller), s.spec_price()->0, s.mintable_health@)
        <= u128::MAX
    &&& s.debt_of(caller) + amount <= spec_max_mintable(
        s.locked_of(caller),
        s.spec_price()->0,
        s.mintable_health@,
    )
}

/// The rejection a disallowed mint request earns; the reported ceiling
/// is the position's whole debt ceiling.
pub open spec fn spec_mint_error(s: ContractState, caller: Seq<char>, amount: int) -> ContractError {
    if s.spec_price() is None {
        ContractError::CollateralPriceNotSet
    } else if dec_mul(s.locked_of(caller), s.spec_price()->0) > u128::MAX || spec_max_mintable(
        s.locked_of(caller),
        s.spec_price()->0,
        s.mintable_health@,
    ) > u128::MAX {
        ContractError::ValueOutOfRange
    } else {
        ContractError::MintAmountExceedsHealth {
            max_mintable: Dec {
                atomics: spec_max_mintable(
                    s.locked_of(caller),
                    s.spec_price()->0,
                    s.mintable_health@,
                ) as u128,
            },
        }
    }
}

/// Full behaviour of a mint request: on success the caller's minted debt
/// grows by the requested amount and that amount is instructed to be
/// issued to the caller; a rejected request changes nothing.
pub open spec fn spec_mint_post(
    pre: ContractState,
    post: ContractState,
    caller: Seq<char>,
    amount: int,
    r: Result<ExecuteOutcome, ContractError>,
) -> bool {
    match r {
        Ok(out) => {
            &&& spec_mint_allowed(pre, caller, amount)
            &&& post.same_config(pre)
            &&& post.positions_unchanged_except(pre, caller)
            &&& post.debt_of(caller) == pre.debt_of(caller) + amount
            &&& post.locked_of(caller) == pre.locked_of(caller)
            &&& out matches ExecuteOutcome::DiraMinted { issue } && issue.recipient@ == caller
                && issue.amount@ == amount
        },
        Err(e) => {
            &&& !spec_mint_allowed(pre, caller, amount)
            &&& post == pre
            &&& e == spec_mint_error(pre, caller, amount)
        },
    }
}

/// Mints stablecoin against the caller's collateral: the existing debt
/// plus the requested amount must stay within the position's debt
/// ceiling; on success the debt grows and the amount is instructed to be
/// issued to the caller.
pub fn execute_mint_dira(state: &mut ContractState, sender: String, dira_to_mint: Dec) -> (r:
    Result<ExecuteOutcome, ContractError>)
    requires
        old(state).wf(),
    ensures
        final(state).wf(),
        spec_mint_post(*old(state), *final(state), sender@, dira_to_mint@, r),
{
    let collateral_price_in_aed = match state.collateral_token_price {
        Some(p) => p,
        None => {
            return Err(ContractError::CollateralPriceNotSet);
        },
    };
    let position = state.get_position(&sender);
    let max_mintable = match calculate_max_mintable_dira(
        position.locked_collateral,
        collateral_price_in_aed,
        state.mintable_health,
    ) {
        Ok(m) => m,
        Err(e) => {
            return Err(e);
        },
    };
    let new_debt = match position.minted_debt.checked_add(dira_to_mint) {
        Some(d) => d,
        None => {
            return Err(ContractError::MintAmountExceedsHealth { max_mintable });
        },
    };
    if max_mintable.lt(&new_debt) {
        return Err(ContractError::MintAmountExceedsHealth { max_mintable });
    }
    state.set_position(
        &sender,
        Position { locked_collateral: position.locked_collateral, minted_debt: new_debt },
    );
    Ok(ExecuteOutcome::DiraMinted {
        issue: IssueInstruction { recipient: sender, amount: dira_to_mint },
    })
}

/// A redeem request is allowed when the debt on record covers it.
pub open spec fn spec_redeem_allowed(s: ContractState, caller: Seq<char>, amount: int) -> bool {
    amount <= s.debt_of(caller)
}

/// Full behaviour of a redeem request: on success the caller's minted
/// debt shrinks by the redeemed amount and that amount is instructed to
/// be burned from the caller's holdings; a rejected request changes
/// nothing and reports the debt on record.
pub open spec fn spec_redeem_post(
    pre: ContractState,
    post: ContractState,
    caller: Seq<char>,
    amount: int,
    r: Result<ExecuteOutcome, ContractError>,
) -> bool {
    match r {
        Ok(out) => {
            &&& spec_redeem_allowed(pre, caller, amount)
            &&& post.same_config(pre)
            &&& post.positions_unchanged_except(pre, caller)
            &&& post.debt_of(caller) == pre.debt_of(caller) - amount
            &&& post.locked_of(caller) == pre.locked_of(caller)
            &&& out matches ExecuteOutcome::DiraReturned { burn } && burn.holder@ == caller
                && burn.amount@ == amount
        },
        Err(e) => {
            &&& !spec_redeem_allowed(pre, caller, amount)
            &&& post == pre
            &&& e == (ContractError::InsufficientDebt {
                minted_debt: Dec { atomics: pre.debt_of(caller) as u128 },
            })
        },
    }
}

/// Redeems (returns) stablecoin: the debt on record must cover the
/// amount; on success the debt shrinks and the amount is instructed to
/// be burned from the caller's holdings.
pub fn execute_return_dira(state: &mut ContractState, sender: String, dira_to_return: Dec) -> (r:
    Result<ExecuteOutcome, ContractError>)
    requires
        old(state).wf(),
    ensures
        final(state).wf(),
        spec_redeem_post(*old(state), *final(state), sender@, dira_to_return@, r),
{
    let position = state.get_position(&sender);
    let new_debt = match position.minted_debt.checked_sub(dira_to_return) {
        Some(d) => d,
        None => {
            return Err(ContractError::InsufficientDebt { minted_debt: position.minted_debt });
        },
    };
    state.set_position(
        &sender,
        Position { locked_collateral: position.locked_collateral, minted_debt: new_debt },
    );
    Ok(ExecuteOutcome::DiraReturned {
        burn: BurnInstruction { holder: sender, amount: dira_to_return },
    })
}

/// Whether the target position's collateral value and health ratio are
/// representable in 128 bits.
pub open spec fn spec_ratio_fits(s: ContractState, target: Seq<char>) -> bool {
    let value = dec_mul(s.spec_price()->0, s.locked_of(target));
    &&& value <= u128::MAX
    &&& (s.debt_of(target) != 0 ==> dec_div(value, s.debt_of(target)) <= u128::MAX)
}

/// A liquidation is allowed when the price is set, the target's health
/// ratio is representable, and that ratio sits strictly below the
/// liquidation health.
pub open spec fn spec_liquidate_allowed(s: ContractState, target: Seq<char>) -> bool {
    &&& s.spec_price() is Some
    &&& spec_ratio_fits(s, target)
    &&& spec_health_ratio(s.debt_of(target), s.locked_of(target), s.spec_price()->0)
        < s.liquidation_health@
}

/// The rejection a disallowed liquidation earns; a healthy position is
/// reported together with its computed health ratio.
pub open spec fn spec_liquidate_error(s: ContractState, target: Seq<char>) -> ContractError {
    if s.spec_price() is None {
        ContractError::CollateralPriceNotSet
    } else if !spec_ratio_fits(s, target) {
        ContractError::ValueOutOfRange
    } else {
        ContractError::PositionIsHealthy {
            health_ratio: Dec {
                atomics: spec_health_ratio(
                    s.debt_of(target),
                    s.locked_of(target),
                    s.spec_price()->0,
                ) as u128,
            },
        }
    }
}

/// Full behaviour of a liquidation: on success the target's position is
/// closed in full (both balances zeroed) and its collateral is
/// instructed to the liquidator in whole tokens; a rejected request
/// changes nothing.
pub open spec fn spec_liquidate_post(
    pre: ContractState,
    post: ContractState,
    liquidator: Seq<char>,
    target: Seq<char>,
    r: Result<ExecuteOutcome, ContractError>,
) -> bool {
    match r {
        Ok(out) => {
            &&& spec_liquidate_allowed(pre, target)
            &&& post.same_config(pre)
            &&& post.positions_unchanged_except(pre, target)
            &&& post.locked_of(target) == 0
            &&& post.debt_of(target) == 0
            &&& out matches ExecuteOutcome::StablecoinMinterLiquidated { transfer, cleared_debt }
                && transfer.recipient@ == liquidator && transfer.denom@
                == pre.collateral_token_denom@ && transfer.amount as int == pre.locked_of(target)
                / (DECIMAL_FRACTIONAL as int) && cleared_debt@ == pre.debt_of(target)
        },
        Err(e) => {
            &&& !spec_liquidate_allowed(pre, target)
            &&& post == pre
            &&& e == spec_liquidate_error(pre, target)
        },
    }
}

/// Liquidates an unhealthy position: when the target's health ratio sits
/// strictly below the liquidation health, the whole position is closed
/// and its collateral instructed to the liquidator; a healthy position
/// cannot be liquidated.
pub fn execute_liquidate_stablecoin_minter(
    state: &mut ContractState,
    sender: String,
    liquidate_stablecoin_minter_address: String,
) -> (r: Result<ExecuteOutcome, ContractError>)
    requires
        old(state).wf(),
    ensures
        final(state).wf(),
        spec_liquidate_post(
            *old(state),
            *final(state),
            sender@,
            liquidate_stablecoin_minter_address@,
            r,
        ),
{
    let collateral_price_in_aed = match state.collateral_token_price {
        Some(p) => p,
        None => {
            return Err(ContractError::CollateralPriceNotSet);
        },
    };
    let position = state.get_position(&liquidate_stablecoin_minter_address);
    let health_ratio = match calculate_stablecoin_health(
        position.minted_debt,
        position.locked_collateral,
        collateral_price_in_aed,
    ) {
        Ok(h) => h,
        Err(e) => {
            return Err(e);
        },
    };
    if state.liquidation_health.le(&health_ratio) {
        return Err(ContractError::PositionIsHealthy { health_ratio });
    }
    state.set_position(&liquidate_stablecoin_minter_address, Position::zero());
    let denom = state.collateral_token_denom.clone();
    Ok(ExecuteOutcome::StablecoinMinterLiquidated {
        transfer: BankTransfer {
            recipient: sender,
            denom,
            amount: position.locked_collateral.whole_units(),
        },
        cleared_debt: position.minted_debt,
    })
}

/// Full behaviour of a price update: only an admin may set the price;
/// on success the price slot holds the new value and the old one is
/// reported; a rejected request changes nothing.
pub open spec fn spec_set_price_post(
    pre: ContractState,
    post: ContractState,
    sender: Seq<char>,
    price: int,
    r: Result<ExecuteOutcome, ContractError>,
) -> bool {
    match r {
        Ok(out) => {
            &&& pre.is_admin(sender)
            &&& post.spec_price() == Some(price)
            &&& post.admin_addresses == pre.admin_addresses
            &&& post.collateral_token_denom == pre.collateral_token_denom
            &&& post.liquidation_health == pre.liquidation_health
            &&& post.mintable_health == pre.mintable_health
            &&& post.positions == pre.positions
            &&& out matches ExecuteOutcome::CollateralPriceSet { old_price, new_price }
                && old_price == pre.collateral_token_price && new_price@ == price
        },
        Err(e) => {
            &&& !pre.is_admin(sender)
            &&& post == pre
            &&& e == ContractError::UnauthorizedUser
        },
    }
}

/// Sets the collateral price. Only admins may; the price is a positive
/// decimal.
pub fn execute_set_collateral_price_in_dirham(
    state: &mut ContractState,
    sender: String,
    collateral_price_in_aed: Dec,
) -> (r: Result<ExecuteOutcome, ContractError>)
    requires
        old(state).wf(),
        collateral_price_in_aed@ > 0,
    ensures
        final(state).wf(),
        spec_set_price_post(*old(state), *final(state), sender@, collateral_price_in_aed@, r),
{
    if !state.check_is_admin(&sender) {
        return Err(ContractError::UnauthorizedUser);
    }
    let old_price = state.collateral_token_price;
    state.collateral_token_price = Some(collateral_price_in_aed);
    Ok(ExecuteOutcome::CollateralPriceSet { old_price, new_price: collateral_price_in_aed })
}

/// Full behaviour of a liquidation-health update: only an admin may set
/// it, and never above the current mintable health; on success the
/// parameter holds the new value and the old one is reported; a rejected
/// request changes nothing.
pub open spec fn spec_set_liquidation_health_post(
    pre: ContractState,
    post: ContractState,
    sender: Seq<char>,
    health: int,
    r: Result<ExecuteOutcome, ContractError>,
) -> bool {
    match r {
        Ok(out) => {
            &&& pre.is_admin(sender)
            &&& health <= pre.mintable_health@
            &&& post.liquidation_health@ == health
            &&& post.admin_addresses == pre.admin_addresses
            &&& post.collateral_token_denom == pre.collateral_token_denom
            &&& post.mintable_health == pre.mintable_health
            &&& post.collateral_token_price == pre.collateral_token_price
            &&& post.positions == pre.positions
            &&& out matches ExecuteOutcome::LiquidationHealthSet {
                old_liquidation_health,
                new_liquidation_health,
            } && old_liquidation_health == pre.liquidation_health && new_liquidation_health@
                == health
        },
        Err(e) => {
            &&& post == pre
            &&& if !pre.is_admin(sender) {
                e == ContractError::UnauthorizedUser
            } else {
                health > pre.mintable_health@ && e
                    == ContractError::MintableHealthLowerThanLiquidationHealth
            }
        },
    }
}

/// Sets the liquidation health. Only admins may; the value is a positive
/// decimal and must not exceed the current mintable health.
pub fn execute_set_liquidation_health(
    state: &mut ContractState,
    sender: String,
    liquidation_health: Dec,
) -> (r: Result<ExecuteOutcome, ContractError>)
    requires
        old(state).wf(),
        liquidation_health@ > 0,
    ensures
        final(state).wf(),
        spec_set_liquidation_health_post(
            *old(state),
            *final(state),
            sender@,
            liquidation_health@,
            r,
        ),
{
    if !state.check_is_admin(&sender) {
        return Err(ContractError::UnauthorizedUser);
    }
    if state.mintable_health.lt(&liquidation_health) {
        return Err(ContractError::MintableHealthLowerThanLiquidationHealth);
    }
    let old_liquidation_health = state.liquidation_health;
    state.liquidation_health = liquidation_health;
    Ok(ExecuteOutcome::LiquidationHealthSet {
        old_liquidation_health,
        new_liquidation_health: liquidation_health,
    })
}

/// Full behaviour of a mintable-health update: only an admin may set it,
/// and never below the current liquidation health; on success the
/// parameter holds the new value and the old one is reported; a rejected
/// request changes nothing.
pub open spec fn spec_set_mintable_health_post(
    pre: ContractState,
    post: ContractState,
    sender: Seq<char>,
    health: int,
    r: Result<ExecuteOutcome, ContractError>,
) -> bool {
    match r {
        Ok(out) => {
            &&& pre.is_admin(sender)
            &&& health >= pre.liquidation_health@
            &&& post.mintable_health@ == health
            &&& post.admin_addresses == pre.admin_addresses
            &&& post.collateral_token_denom == pre.collateral_token_denom
            &&& post.liquidation_health == pre.liquidation_health
            &&& post.collateral_token_price == pre.collateral_token_price
            &&& post.positions == pre.positions
            &&& out matches ExecuteOutcome::MintableHealthSet {
                old_mintable_health,
                new_mintable_health,
            } && old_mintable_health == pre.mintable_health && new_mintable_health@ == health
        },
        Err(e) => {
            &&& post == pre
            &&& if !pre.is_admin(sender) {
                e == ContractError::UnauthorizedUser
            } else {
                health < pre.liquidation_health@ && e
                    == ContractError::MintableHealthLowerThanLiquidationHealth
            }
        },
    }
}

/// Sets the mintable health. Only admins may; the value is a positive
/// decimal and must be at least the current liquidation health.
pub fn execute_set_mintable_health(
    state: &mut ContractState,
    sender: String,
    mintable_health: Dec,
) -> (r: Result<ExecuteOutcome, ContractError>)
    requires
        old(state).wf(),
        mintable_health@ > 0,
    ensures
        final(state).wf(),
        spec_set_mintable_health_post(*old(state), *final(state), sender@, mintable_health@, r),
{
    if !state.check_is_admin(&sender) {
        return Err(ContractError::UnauthorizedUser);
    }
    if mintable_health.lt(&state.liquidation_health) {
        return Err(ContractError::MintableHealthLowerThanLiquidationHealth);
    }
    let old_mintable_health = state.mintable_health;
    state.mintable_health = mintable_health;
    Ok(ExecuteOutcome::MintableHealthSet {
        old_mintable_health,
        new_mintable_health: mintable_health,
    })
}

/// A message carries well-typed arguments when the decimals the data
/// model declares positive are positive.
pub open spec fn spec_msg_wf(msg: ExecuteMsg) -> bool {
    match msg {
        ExecuteMsg::SetCollateralPriceInDirham { collateral_price_in_aed } =>
            collateral_price_in_aed@ > 0,
        ExecuteMsg::SetLiquidationHealth { liquidation_health } => liquidation_health@ > 0,
        ExecuteMsg::SetMintableHealth { mintable_health } => mintable_health@ > 0,
        _ => true,
    }
}

/// Dispatches one user-facing operation to its handler.
pub fn execute(
    state: &mut ContractState,
    info_sender: String,
    info_funds: &Vec<Coin>,
    msg: ExecuteMsg,
) -> (r: Result<ExecuteOutcome, ContractError>)
    requires
        old(state).wf(),
        spec_msg_wf(msg),
    ensures
        final(state).wf(),
        match msg {
            ExecuteMsg::LockCollateral { collateral_amount_to_lock } => spec_lock_post(
                *old(state),
                *final(state),
                info_sender@,
                info_funds@,
                collateral_amount_to_lock@,
                r,
            ),
            ExecuteMsg::UnlockCollateral { collateral_amount_to_unlock } => spec_unlock_post(
                *old(state),
                *final(state),
                info_sender@,
                collateral_amount_to_unlock@,
                r,
            ),
            ExecuteMsg::MintDira { dira_to_mint } => spec_mint_post(
                *old(state),
                *final(state),
                info_sender@,
                dira_to_mint@,
                r,
            ),
            ExecuteMsg::RedeemDira { dira_to_redeem } => spec_redeem_post(
                *old(state),
                *final(state),
                info_sender@,
                dira_to_redeem@,
                r,
            ),
            ExecuteMsg::LiquidateStablecoins { liquidate_stablecoin_minter_address } =>
                spec_liquidate_post(
                *old(state),
                *final(state),
                info_sender@,
                liquidate_stablecoin_minter_address@,
                r,
            ),
            ExecuteMsg::SetCollateralPriceInDirham { collateral_price_in_aed } =>
                spec_set_price_post(
                *old(state),
                *final(state),
                info_sender@,
                collateral_price_in_aed@,
                r,
            ),
            ExecuteMsg::SetLiquidationHealth { liquidation_health } =>
                spec_set_liquidation_health_post(
                *old(state),
                *final(state),
                info_sender@,
                liquidation_health@,
                r,
            ),
            ExecuteMsg::SetMintableHealth { mintable_health } => spec_set_mintable_health_post(
                *old(state),
                *final(state),
                info_sender@,
                mintable_health@,
                r,
            ),
        },
{
    match msg {
        ExecuteMsg::LockCollateral { collateral_amount_to_lock } => execute_lock_collateral(
            state,
            info_sender,
            info_funds,
            collateral_amount_to_lock,
        ),
        ExecuteMsg::UnlockCollateral { collateral_amount_to_unlock } => execute_unlock_collateral(
            state,
            info_sender,
            collateral_amount_to_unlock,
        ),
        ExecuteMsg::MintDira { dira_to_mint } => execute_mint_dira(
            state,
            info_sender,
            dira_to_mint,
        ),
        ExecuteMsg::RedeemDira { dira_to_redeem } => execute_return_dira(
            state,
            info_sender,
            dira_to_redeem,
        ),
        ExecuteMsg::LiquidateStablecoins { liquidate_stablecoin_minter_address } =>
            execute_liquidate_stablecoin_minter(
            state,
            info_sender,
            liquidate_stablecoin_minter_address,
        ),
        ExecuteMsg::SetCollateralPriceInDirham { collateral_price_in_aed } =>
            execute_set_collateral_price_in_dirham(
            state,
            info_sender,
            collateral_price_in_aed,
        ),
        ExecuteMsg::SetLiquidationHealth { liquidation_health } => execute_set_liquidation_health(
            state,
            info_sender,
            liquidation_health,
        ),
        ExecuteMsg::SetMintableHealth { mintable_health } => execute_set_mintable_health(
            state,
            info_sender,
            mintable_health,
        ),
    }
}

/// Reports the current collateral price, or that none is set.
pub fn query_collateral_price(state: &ContractState) -> (r: Result<QueryAnswer, ContractError>)
    ensures
        match r {
            Ok(a) => {
                &&& state.spec_price() is Some
                &&& a matches QueryAnswer::CollateralPrice { collateral_price }
                    && collateral_price@ == state.spec_price()->0
            },
            Err(e) => state.spec_price() is None && e == ContractError::CollateralPriceNotSet,
        },
{
    match state.collateral_token_price {
        Some(p) => Ok(QueryAnswer::CollateralPrice { collateral_price: p }),
        None => Err(ContractError::CollateralPriceNotSet),
    }
}

/// Reports an account's locked collateral; an account without a
/// position reports zero.
pub fn query_locked_collateral(state: &ContractState, collateral_address_to_query: String) -> (r:
    QueryAnswer)
    ensures
        r matches QueryAnswer::LockedCollateral { locked_collateral } && locked_collateral@
            == state.locked_of(collateral_address_to_query@),
{
    let position = state.get_position(&collateral_address_to_query);
    QueryAnswer::LockedCollateral { locked_collateral: position.locked_collateral }
}

/// Reports an account's computed health ratio under the current price,
/// or that no price is set, or that the ratio is not representable.
pub fn query_stablecoin_health(
    state: &ContractState,
    stablecoin_minter_address_to_query: String,
) -> (r: Result<QueryAnswer, ContractError>)
    ensures
        match r {
            Ok(a) => {
                &&& state.spec_price() is Some
                &&& spec_ratio_fits(*state, stablecoin_minter_address_to_query@)
                &&& a matches QueryAnswer::StablecoinHealth { health_ratio } && health_ratio@
                    == spec_health_ratio(
                    state.debt_of(stablecoin_minter_address_to_query@),
                    state.locked_of(stablecoin_minter_address_to_query@),
                    state.spec_price()->0,
                )
            },
            Err(e) => {
                &&& if state.spec_price() is None {
                    e == ContractError::CollateralPriceNotSet
                } else {
                    !spec_ratio_fits(*state, stablecoin_minter_address_to_query@) && e
                        == ContractError::ValueOutOfRange
                }
            },
        },
{
    let collateral_price_in_aed = match state.collateral_token_price {
        Some(p) => p,
        None => {
            return Err(ContractError::CollateralPriceNotSet);
        },
    };
    let position = state.get_position(&stablecoin_minter_address_to_query);
    match calculate_stablecoin_health(
        position.minted_debt,
        position.locked_collateral,
        collateral_price_in_aed,
    ) {
        Ok(h) => Ok(QueryAnswer::StablecoinHealth { health_ratio: h }),
        Err(e) => Err(e),
    }
}

/// Dispatches one read-only question to its handler.
pub fn query(state: &ContractState, msg: QueryMsg) -> (r: Result<QueryAnswer, ContractError>)
    ensures
        match msg {
            QueryMsg::QueryCollateralPrice {  } => match r {
                Ok(a) => {
                    &&& state.spec_price() is Some
                    &&& a matches QueryAnswer::CollateralPrice { collateral_price }
                        && collateral_price@ == state.spec_price()->0
                },
                Err(e) => state.spec_price() is None && e == ContractError::CollateralPriceNotSet,
            },
            QueryMsg::QueryLockedCollateral { wallet_address_to_query } => r matches Ok(a)
                && a matches QueryAnswer::LockedCollateral { locked_collateral }
                && locked_collateral@ == state.locked_of(wallet_address_to_query@),
            QueryMsg::QueryStablecoinHealth { stablecoin_minter_address_to_query } => match r {
                Ok(a) => {
                    &&& state.spec_price() is Some
                    &&& spec_ratio_fits(*state, stablecoin_minter_address_to_query@)
                    &&& a matches QueryAnswer::StablecoinHealth { health_ratio } && health_ratio@
                        == spec_health_ratio(
                        state.debt_of(stablecoin_minter_address_to_query@),
                        state.locked_of(stablecoin_minter_address_to_query@),
                        state.spec_price()->0,
                    )
                },
                Err(e) => {
                    &&& if state.spec_price() is None {
                        e == ContractError::CollateralPriceNotSet
                    } else {
                        !spec_ratio_fits(*state, stablecoin_minter_address_to_query@) && e
                            == ContractError::ValueOutOfRange
                    }
                },
            },
        },
{
    match msg {
        QueryMsg::QueryCollateralPrice {  } => query_collateral_price(state),
        QueryMsg::QueryLockedCollateral { wallet_address_to_query } => Ok(
            query_locked_collateral(state, wallet_address_to_query),
        ),
        QueryMsg::QueryStablecoinHealth { stablecoin_minter_address_to_query } =>
            query_stablecoin_health(
            state,
            stablecoin_minter_address_to_query,
        ),
    }
}

} // verus!
