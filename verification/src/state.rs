use vstd::prelude::*;

use crate::decimal::Dec;

verus! {

/// One account's pair of balances: how much collateral it has locked
/// and how much stablecoin debt it has minted against it.
#[derive(Clone, Copy, Debug, PartialEq, Eq, Structural)]
pub struct Position {
    pub locked_collateral: Dec,
    pub minted_debt: Dec,
}

impl Position {
    pub open spec fn spec_zero() -> Position {
        Position { locked_collateral: Dec { atomics: 0 }, minted_debt: Dec { atomics: 0 } }
    }

    pub fn zero() -> (r: Position)
        ensures
            r == Position::spec_zero(),
    {
        Position { locked_collateral: Dec::zero(), minted_debt: Dec::zero() }
    }
}

/// A ledger row: the position recorded for one account.
#[derive(Debug)]
pub struct PositionEntry {
    pub account: String,
    pub position: Position,
}

/// The position that a sequence of ledger rows records for `account`:
/// the first row for that account, or the zero position when none exists.
pub open spec fn spec_position_in(entries: Seq<PositionEntry>, account: Seq<char>) -> Position
    decreases entries.len(),
{
    if entries.len() == 0 {
        Position::spec_zero()
    } else if entries[0].account@ == account {
        entries[0].position
    } else {
        spec_position_in(entries.drop_first(), account)
    }
}

/// Overwriting the first row for an account rewrites that account's
/// recorded position and no other account's.
proof fn lemma_position_update(entries: Seq<PositionEntry>, i: int, e: PositionEntry, a: Seq<char>)
    requires
        0 <= i < entries.len(),
        entries[i].account@ == a,
        e.account@ == a,
        forall|j: int| 0 <= j < i ==> entries[j].account@ != a,
    ensures
        spec_position_in(entries.update(i, e), a) == e.position,
        forall|b: Seq<char>|
            b != a ==> spec_position_in(entries.update(i, e), b) == spec_position_in(entries, b),
    decreases i,
{
    let u = entries.update(i, e);
    if i == 0 {
        assert(u[0] == e);
        assert(u.drop_first() =~= entries.drop_first());
        assert forall|b: Seq<char>| b != a implies spec_position_in(u, b) == spec_position_in(
            entries,
            b,
        ) by {
            assert(spec_position_in(u, b) == spec_position_in(u.drop_first(), b));
            assert(spec_position_in(entries, b) == spec_position_in(entries.drop_first(), b));
        }
    } else {
        assert(u[0] == entries[0]);
        assert(u.drop_first() =~= entries.drop_first().update(i - 1, e));
        assert(entries.drop_first()[i - 1] == entries[i]);
        assert(forall|j: int|
            0 <= j < i - 1 ==> entries.drop_first()[j] == entries[j + 1]
                && entries.drop_first()[j].account@ != a);
        lemma_position_update(entries.drop_first(), i - 1, e, a);
        assert(entries[0].account@ != a);
        assert(spec_position_in(u, a) == spec_position_in(u.drop_first(), a));
        assert forall|b: Seq<char>| b != a implies spec_position_in(u, b) == spec_position_in(
            entries,
            b,
        ) by {
            if entries[0].account@ == b {
                assert(spec_position_in(u, b) == u[0].position);
                assert(spec_position_in(entries, b) == entries[0].position);
            } else {
                assert(spec_position_in(u, b) == spec_position_in(u.drop_first(), b));
                assert(spec_position_in(entries, b) == spec_position_in(entries.drop_first(), b));
            }
        }
    }
}

/// Appending a row for an account with no existing row records that
/// account's position and leaves every other account's unchanged.
proof fn lemma_position_push(entries: Seq<PositionEntry>, e: PositionEntry, a: Seq<char>)
    requires
        e.account@ == a,
        forall|j: int| 0 <= j < entries.len() ==> entries[j].account@ != a,
    ensures
        spec_position_in(entries.push(e), a) == e.position,
        forall|b: Seq<char>|
            b != a ==> spec_position_in(entries.push(e), b) == spec_position_in(entries, b),
    decreases entries.len(),
{
    let u = entries.push(e);
    if entries.len() == 0 {
        assert(u[0] == e);
        assert(u.drop_first() =~= Seq::<PositionEntry>::empty());
        assert forall|b: Seq<char>| b != a implies spec_position_in(u, b) == spec_position_in(
            entries,
            b,
        ) by {
            assert(spec_position_in(u, b) == spec_position_in(u.drop_first(), b));
        }
    } else {
        assert(u[0] == entries[0]);
        assert(u.drop_first() =~= entries.drop_first().push(e));
        assert(forall|j: int|
            0 <= j < entries.drop_first().len() ==> entries.drop_first()[j] == entries[j + 1]
                && entries.drop_first()[j].account@ != a);
        lemma_position_push(entries.drop_first(), e, a);
        assert(entries[0].account@ != a);
        assert(spec_position_in(u, a) == spec_position_in(u.drop_first(), a));
        assert forall|b: Seq<char>| b != a implies spec_position_in(u, b) == spec_position_in(
            entries,
            b,
        ) by {
            if entries[0].account@ == b {
                assert(spec_position_in(u, b) == u[0].position);
                assert(spec_position_in(entries, b) == entries[0].position);
            } else {
                assert(spec_position_in(u, b) == spec_position_in(u.drop_first(), b));
                assert(spec_position_in(entries, b) == spec_position_in(entries.drop_first(), b));
            }
        }
    }
}

/// The whole persistent state of the ledger: governance parameters, the
/// oracle price slot, and the per-account position map.
#[derive(Debug)]
pub struct ContractState {
    /// Accounts authorized for governance operations.
    pub admin_addresses: Vec<String>,
    /// Denomination of the collateral token; fixed at instantiation.
    pub collateral_token_denom: String,
    /// Threshold below which a position may be liquidated.
    pub liquidation_health: Dec,
    /// Threshold limiting how much debt may be minted against collateral;
    /// never below the liquidation health.
    pub mintable_health: Dec,
    /// Collateral price most recently set by an admin, if any.
    pub collateral_token_price: Option<Dec>,
    /// Per-account balances; an account without a row holds the zero position.
    pub positions: Vec<PositionEntry>,
}

impl ContractState {
    pub open spec fn position_of(&self, account: Seq<char>) -> Position {
        spec_position_in(self.positions@, account)
    }

    /// Atomic units of collateral locked by `account`.
    pub open spec fn locked_of(&self, account: Seq<char>) -> int {
        self.position_of(account).locked_collateral@
    }

    /// Atomic units of stablecoin debt minted by `account`.
    pub open spec fn debt_of(&self, account: Seq<char>) -> int {
        self.position_of(account).minted_debt@
    }

    /// The set price in atomic units, if any.
    pub open spec fn spec_price(&self) -> Option<int> {
        match self.collateral_token_price {
            Some(p) => Some(p@),
            None => None,
        }
    }

    pub open spec fn is_admin(&self, who: Seq<char>) -> bool {
        exists|i: int| 0 <= i < self.admin_addresses@.len() && self.admin_addresses@[i]@ == who
    }

    /// Global well-formedness: both health parameters are positive, the
    /// mintable health never sits below the liquidation health, the
    /// collateral denomination is non-empty, and any set price is positive.
    pub open spec fn wf(&self) -> bool {
        &&& 0 < self.liquidation_health@
        &&& self.liquidation_health@ <= self.mintable_health@
        &&& self.collateral_token_denom@.len() > 0
        &&& (self.spec_price() is Some ==> self.spec_price()->0 > 0)
    }

    /// The governance parameters, price, denomination and admin set of
    /// `self` and `other` agree; the per-account ledger may differ.
    pub open spec fn same_config(&self, other: ContractState) -> bool {
        &&& self.admin_addresses == other.admin_addresses
        &&& self.collateral_token_denom == other.collateral_token_denom
        &&& self.liquidation_health == other.liquidation_health
        &&& self.mintable_health == other.mintable_health
        &&& self.collateral_token_price == other.collateral_token_price
    }

    /// Every account other than `account` holds the same position in
    /// `self` as in `other`.
    pub open spec fn positions_unchanged_except(
        &self,
        other: ContractState,
        account: Seq<char>,
    ) -> bool {
        forall|b: Seq<char>| b != account ==> self.position_of(b) == other.position_of(b)
    }

    /// The position recorded for `account`; the zero position when the
    /// ledger holds no row for it.
    pub fn get_position(&self, account: &String) -> (r: Position)
        ensures
            r == self.position_of(account@),
    {
        let n = self.positions.len();
        let mut i: usize = 0;
        proof {
            assert(self.positions@.skip(0) =~= self.positions@);
        }
        while i < n
            invariant
                n == self.positions@.len(),
                0 <= i <= n,
                spec_position_in(self.positions@, account@) == spec_position_in(
                    self.positions@.skip(i as int),
                    account@,
                ),
            decreases n - i,
        {
            proof {
                assert(self.positions@.skip(i as int)[0] == self.positions@[i as int]);
            }
            if self.positions[i].account == *account {
                return self.positions[i].position;
            }
            proof {
                assert(self.positions@.skip(i as int).drop_first() =~= self.positions@.skip(
                    i as int + 1,
                ));
            }
            i = i + 1;
        }
        proof {
            assert(self.positions@.skip(n as int) =~= Seq::<PositionEntry>::empty());
        }
        Position::zero()
    }

    /// Records `position` for `account`, leaving every other account's
    /// position and all configuration untouched.
    pub fn set_position(&mut self, account: &String, position: Position)
        ensures
            final(self).position_of(account@) == position,
            forall|b: Seq<char>|
                b != account@ ==> final(self).position_of(b) == old(self).position_of(b),
            final(self).same_config(*old(self)),
    {
        let n = self.positions.len();
        let mut i: usize = 0;
        while i < n
            invariant
                n == self.positions@.len(),
                0 <= i <= n,
                *self == *old(self),
                forall|j: int| 0 <= j < i ==> self.positions@[j].account@ != account@,
            decreases n - i,
        {
            if self.positions[i].account == *account {
                let ghost pre = self.positions@;
                self.positions[i].position = position;
                proof {
                    assert(self.positions@ =~= pre.update(
                        i as int,
                        PositionEntry { account: pre[i as int].account, position },
                    ));
                    lemma_position_update(
                        pre,
                        i as int,
                        PositionEntry { account: pre[i as int].account, position },
                        account@,
                    );
                }
                return ;
            }
            i = i + 1;
        }
        let entry = PositionEntry { account: account.clone(), position };
        proof {
            lemma_position_push(self.positions@, entry, account@);
        }
        self.positions.push(entry);
    }

    /// Whether `who` is one of the admin accounts.
    pub fn check_is_admin(&self, who: &String) -> (r: bool)
        ensures
            r == self.is_admin(who@),
    {
        let n = self.admin_addresses.len();
        let mut i: usize = 0;
        while i < n
            invariant
                n == self.admin_addresses@.len(),
                0 <= i <= n,
                forall|j: int| 0 <= j < i ==> self.admin_addresses@[j]@ != who@,
            decreases n - i,
        {
            if self.admin_addresses[i] == *who {
                return true;
            }
            i = i + 1;
        }
        false
    }
}

} // verus!
