use vstd::prelude::*;

verus! {

/// Number of atomic units in one whole unit of a fixed-point decimal:
/// values carry eighteen fractional digits.
pub const DECIMAL_FRACTIONAL: u128 = 1_000_000_000_000_000_000;

/// A non-negative fixed-point decimal with eighteen fractional digits,
/// stored as a count of atomic units (so the largest representable value
/// is `u128::MAX / 10^18` whole units). Mirrors the on-chain decimal
/// representation used for collateral and debt amounts.
#[derive(Clone, Copy, Debug, PartialEq, Eq, Structural)]
pub struct Dec {
    pub atomics: u128,
}

impl View for Dec {
    type V = int;

    open spec fn view(&self) -> int {
        self.atomics as int
    }
}

/// Mathematical product of two fixed-point values given by their atomic
/// counts: `(a/10^18) * (b/10^18)` expressed in atomics, truncated.
pub open spec fn dec_mul(a: int, b: int) -> int {
    (a * b) / (DECIMAL_FRACTIONAL as int)
}

/// Mathematical quotient of two fixed-point values given by their atomic
/// counts: `(a/10^18) / (b/10^18)` expressed in atomics, truncated.
pub open spec fn dec_div(a: int, b: int) -> int
    recommends
        b != 0,
{
    (a * (DECIMAL_FRACTIONAL as int)) / b
}

/// Relies on cosmwasm_std::Decimal::checked_mul: multiplies two decimals
/// built from the given atomics, truncating the result toward zero, and
/// reports an error exactly when the true product does not fit in 128 bits.
#[verifier::external_body]
fn mul_atomics(a: u128, b: u128) -> (r: Option<u128>)
    ensures
        match r {
            Some(p) => p == dec_mul(a as int, b as int) && dec_mul(a as int, b as int) <= u128::MAX,
            None => dec_mul(a as int, b as int) > u128::MAX,
        },
{
    cosmwasm_std::Decimal::new(cosmwasm_std::Uint128::new(a))
        .checked_mul(cosmwasm_std::Decimal::new(cosmwasm_std::Uint128::new(b)))
        .ok()
        .map(|d| d.atomics().u128())
}

/// Relies on cosmwasm_std::Decimal::checked_div: divides two decimals
/// built from the given atomics (computing `a * 10^18 / b`, truncated),
/// and reports an error exactly when that quotient does not fit in 128
/// bits. Division by zero is excluded by the precondition.
#[verifier::external_body]
fn div_atomics(a: u128, b: u128) -> (r: Option<u128>)
    requires
        b != 0,
    ensures
        match r {
            Some(q) => q == dec_div(a as int, b as int) && dec_div(a as int, b as int) <= u128::MAX,
            None => dec_div(a as int, b as int) > u128::MAX,
        },
{
    cosmwasm_std::Decimal::new(cosmwasm_std::Uint128::new(a))
        .checked_div(cosmwasm_std::Decimal::new(cosmwasm_std::Uint128::new(b)))
        .ok()
        .map(|d| d.atomics().u128())
}

impl Dec {
    /// Builds a decimal directly from a count of atomic units.
    pub fn raw(atomics: u128) -> (r: Dec)
        ensures
            r@ == atomics as int,
    {
        Dec { atomics }
    }

    pub fn zero() -> (r: Dec)
        ensures
            r@ == 0,
    {
        Dec { atomics: 0 }
    }

    /// The largest representable decimal.
    pub fn max_value() -> (r: Dec)
        ensures
            r@ == u128::MAX as int,
    {
        Dec { atomics: u128::MAX }
    }

    pub fn is_zero(&self) -> (r: bool)
        ensures
            r == (self@ == 0),
    {
        self.atomics == 0
    }

    pub fn lt(&self, o: &Dec) -> (r: bool)
        ensures
            r == (self@ < o@),
    {
        self.atomics < o.atomics
    }

    pub fn le(&self, o: &Dec) -> (r: bool)
        ensures
            r == (self@ <= o@),
    {
        self.atomics <= o.atomics
    }

    pub fn checked_add(self, o: Dec) -> (r: Option<Dec>)
        ensures
            match r {
                Some(d) => d@ == self@ + o@ && self@ + o@ <= u128::MAX,
                None => self@ + o@ > u128::MAX,
            },
    {
        match self.atomics.checked_add(o.atomics) {
            Some(a) => Some(Dec { atomics: a }),
            None => None,
        }
    }

    pub fn checked_sub(self, o: Dec) -> (r: Option<Dec>)
        ensures
            match r {
                Some(d) => d@ == self@ - o@ && o@ <= self@,
                None => o@ > self@,
            },
    {
        match self.atomics.checked_sub(o.atomics) {
            Some(a) => Some(Dec { atomics: a }),
            None => None,
        }
    }

    /// Truncated product, or `None` when the true product does not fit.
    pub fn checked_mul(self, o: Dec) -> (r: Option<Dec>)
        ensures
            match r {
                Some(d) => d@ == dec_mul(self@, o@) && dec_mul(self@, o@) <= u128::MAX,
                None => dec_mul(self@, o@) > u128::MAX,
            },
    {
        match mul_atomics(self.atomics, o.atomics) {
            Some(a) => Some(Dec { atomics: a }),
            None => None,
        }
    }

    /// Truncated quotient, or `None` when the true quotient does not fit.
    pub fn checked_div(self, o: Dec) -> (r: Option<Dec>)
        requires
            o@ != 0,
        ensures
            match r {
                Some(d) => d@ == dec_div(self@, o@) && dec_div(self@, o@) <= u128::MAX,
                None => dec_div(self@, o@) > u128::MAX,
            },
    {
        match div_atomics(self.atomics, o.atomics) {
            Some(a) => Some(Dec { atomics: a }),
            None => None,
        }
    }

    /// Whether `units` whole tokens are at least this amount, compared
    /// without loss: `units * 10^18 >= atomics`.
    pub fn covered_by_units(&self, units: u128) -> (r: bool)
        ensures
            r == (self@ <= units * (DECIMAL_FRACTIONAL as int)),
    {
        let q = u128::MAX / DECIMAL_FRACTIONAL;
        proof {
            vstd::arithmetic::div_mod::lemma_fundamental_div_mod(
                u128::MAX as int,
                DECIMAL_FRACTIONAL as int,
            );
        }
        if units > q {
            proof {
                assert((units as int) * (DECIMAL_FRACTIONAL as int) > u128::MAX as int)
                    by (nonlinear_arith)
                    requires
                        units as int >= q as int + 1,
                        DECIMAL_FRACTIONAL as int > 0,
                        u128::MAX as int == (DECIMAL_FRACTIONAL as int) * (q as int) + (
                        u128::MAX as int) % (DECIMAL_FRACTIONAL as int),
                        (u128::MAX as int) % (DECIMAL_FRACTIONAL as int) < DECIMAL_FRACTIONAL as int,
                ;
            }
            true
        } else {
            proof {
                assert((units as int) * (DECIMAL_FRACTIONAL as int) <= u128::MAX as int)
                    by (nonlinear_arith)
                    requires
                        0 <= units as int <= q as int,
                        DECIMAL_FRACTIONAL as int > 0,
                        u128::MAX as int == (DECIMAL_FRACTIONAL as int) * (q as int) + (
                        u128::MAX as int) % (DECIMAL_FRACTIONAL as int),
                        (u128::MAX as int) % (DECIMAL_FRACTIONAL as int) >= 0,
                ;
            }
            units * DECIMAL_FRACTIONAL >= self.atomics
        }
    }

    /// Number of whole units in this decimal, fractional part discarded.
    pub fn whole_units(&self) -> (r: u128)
        ensures
            r == self@ / (DECIMAL_FRACTIONAL as int),
    {
        self.atomics / DECIMAL_FRACTIONAL
    }
}

} // verus!
