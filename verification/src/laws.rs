use vstd::prelude::*;

use crate::decimal::{dec_div, dec_mul};
use crate::errors::ContractError;
use crate::handlers::{
    spec_liquidate_post, spec_lock_post, spec_mint_allowed, spec_ratio_fits,
    spec_set_liquidation_health_post, spec_set_mintable_health_post, spec_unlock_allowed,
    spec_unlock_post,
};
use crate::health::{spec_health_ratio, spec_max_mintable, spec_max_unlockable};
use crate::msgs::{Coin, ExecuteOutcome};
use crate::state::ContractState;

verus! {

/// No account's recorded balances are ever negative: in any state, every
/// position stores a non-negative locked collateral and minted debt.
pub proof fn lemma_balances_never_negative(s: ContractState, account: Seq<char>)
    ensures
        0 <= s.locked_of(account),
        0 <= s.debt_of(account),
{
}

/// A liquidation-health update preserves the parameter invariant
/// `liquidation_health <= mintable_health`, and a rejected update leaves
/// the state unchanged.
pub proof fn lemma_set_liquidation_health_keeps_invariant(
    pre: ContractState,
    post: ContractState,
    sender: Seq<char>,
    health: int,
    r: Result<ExecuteOutcome, ContractError>,
)
    requires
        pre.wf(),
        spec_set_liquidation_health_post(pre, post, sender, health, r),
    ensures
        post.liquidation_health@ <= post.mintable_health@,
        r is Err ==> post == pre,
{
}

/// A mintable-health update preserves the parameter invariant
/// `liquidation_health <= mintable_health`, and a rejected update leaves
/// the state unchanged.
pub proof fn lemma_set_mintable_health_keeps_invariant(
    pre: ContractState,
    post: ContractState,
    sender: Seq<char>,
    health: int,
    r: Result<ExecuteOutcome, ContractError>,
)
    requires
        pre.wf(),
        spec_set_mintable_health_post(pre, post, sender, health, r),
    ensures
        post.liquidation_health@ <= post.mintable_health@,
        r is Err ==> post == pre,
{
}

/// Locking collateral and then unlocking the whole reported unlockable
/// remainder never fails: after a successful lock, an unlock of exactly
/// that remainder (whenever it is non-negative, i.e. whenever one is
/// reported) is allowed, so by the unlock contract it returns `Ok`.
pub proof fn lemma_lock_then_unlock_max(
    pre: ContractState,
    mid: ContractState,
    caller: Seq<char>,
    funds: Seq<Coin>,
    lock_amount: int,
    unlockable: int,
    r: Result<ExecuteOutcome, ContractError>,
)
    requires
        pre.wf(),
        pre.spec_price() is Some,
        spec_lock_post(pre, mid, caller, funds, lock_amount, r),
        r is Ok,
        dec_mul(mid.debt_of(caller), mid.mintable_health@) <= u128::MAX,
        unlockable == spec_max_unlockable(
            mid.locked_of(caller),
            mid.spec_price()->0,
            mid.debt_of(caller),
            mid.mintable_health@,
        ),
        0 <= unlockable,
    ensures
        spec_unlock_allowed(mid, caller, unlockable),
{
}

/// Minting exactly the remaining headroom (the debt ceiling minus the
/// debt already minted) is allowed, and minting one atomic unit more is
/// not.
pub proof fn lemma_mint_boundary(s: ContractState, caller: Seq<char>, amount: int)
    requires
        s.wf(),
        s.spec_price() is Some,
        dec_mul(s.locked_of(caller), s.spec_price()->0) <= u128::MAX,
        spec_max_mintable(s.locked_of(caller), s.spec_price()->0, s.mintable_health@)
            <= u128::MAX,
        amount == spec_max_mintable(s.locked_of(caller), s.spec_price()->0, s.mintable_health@)
            - s.debt_of(caller),
        0 <= amount,
    ensures
        spec_mint_allowed(s, caller, amount),
        !spec_mint_allowed(s, caller, amount + 1),
{
}

/// Liquidation is rejected exactly when the target's health ratio sits
/// at or above the liquidation health, leaving the state unchanged, and
/// otherwise succeeds and zeroes the position.
pub proof fn lemma_liquidation_threshold(
    pre: ContractState,
    post: ContractState,
    liquidator: Seq<char>,
    target: Seq<char>,
    r: Result<ExecuteOutcome, ContractError>,
)
    requires
        pre.wf(),
        pre.spec_price() is Some,
        spec_ratio_fits(pre, target),
        spec_liquidate_post(pre, post, liquidator, target, r),
    ensures
        spec_health_ratio(pre.debt_of(target), pre.locked_of(target), pre.spec_price()->0)
            >= pre.liquidation_health@ ==> r is Err && post == pre,
        spec_health_ratio(pre.debt_of(target), pre.locked_of(target), pre.spec_price()->0)
            < pre.liquidation_health@ ==> r is Ok && post.locked_of(target) == 0 && post.debt_of(
            target,
        ) == 0,
{
}

/// Locking an amount and then unlocking that same amount, with the
/// price unchanged and no debt on the position, returns the locked
/// collateral exactly to its prior value.
pub proof fn lemma_lock_unlock_round_trip(
    pre: ContractState,
    mid: ContractState,
    post: ContractState,
    caller: Seq<char>,
    funds: Seq<Coin>,
    amount: int,
    r1: Result<ExecuteOutcome, ContractError>,
    r2: Result<ExecuteOutcome, ContractError>,
)
    requires
        pre.wf(),
        pre.spec_price() is Some,
        pre.debt_of(caller) == 0,
        spec_lock_post(pre, mid, caller, funds, amount, r1),
        r1 is Ok,
        spec_unlock_post(mid, post, caller, amount, r2),
    ensures
        r2 is Ok,
        post.locked_of(caller) == pre.locked_of(caller),
        post.debt_of(caller) == 0,
{
    assert(dec_mul(0, mid.mintable_health@) == 0);
    assert(dec_div(0, mid.spec_price()->0) == 0);
    assert(spec_unlock_allowed(mid, caller, amount));
}

} // verus!
