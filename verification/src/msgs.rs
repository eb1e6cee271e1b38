use vstd::prelude::*;

use crate::decimal::Dec;

verus! {

/// Funds attached to a call: an integer amount of whole tokens of one
/// denomination, as the execution environment delivers them.
#[derive(Debug)]
pub struct Coin {
    pub denom: String,
    pub amount: u128,
}

/// The amount of denomination `denom` attached to a call, taken from the
/// first coin of that denomination, in whole tokens.
pub open spec fn spec_sent_amount(funds: Seq<Coin>, denom: Seq<char>) -> Option<int>
    decreases funds.len(),
{
    if funds.len() == 0 {
        None
    } else if funds[0].denom@ == denom {
        Some(funds[0].amount as int)
    } else {
        spec_sent_amount(funds.drop_first(), denom)
    }
}

/// Settings a new ledger starts from.
#[derive(Debug)]
pub struct InstantiateMsg {
    pub liquidation_health: Dec,
    pub mintable_health: Dec,
    pub collateral_token_denom: String,
}

/// One user-facing operation on the ledger.
#[derive(Debug)]
pub enum ExecuteMsg {
    LockCollateral { collateral_amount_to_lock: Dec },
    UnlockCollateral { collateral_amount_to_unlock: Dec },
    MintDira { dira_to_mint: Dec },
    RedeemDira { dira_to_redeem: Dec },
    LiquidateStablecoins { liquidate_stablecoin_minter_address: String },
    SetCollateralPriceInDirham { collateral_price_in_aed: Dec },
    SetLiquidationHealth { liquidation_health: Dec },
    SetMintableHealth { mintable_health: Dec },
}

/// A read-only question about the ledger.
#[derive(Debug)]
pub enum QueryMsg {
    QueryCollateralPrice {},
    QueryLockedCollateral { wallet_address_to_query: String },
    QueryStablecoinHealth { stablecoin_minter_address_to_query: String },
}

/// The answer to a [`QueryMsg`].
#[derive(Debug)]
pub enum QueryAnswer {
    CollateralPrice { collateral_price: Dec },
    LockedCollateral { locked_collateral: Dec },
    StablecoinHealth { health_ratio: Dec },
}

/// Instruction to the bank: send `amount` whole tokens of `denom` to
/// `recipient` once the operation has committed.
#[derive(Debug)]
pub struct BankTransfer {
    pub recipient: String,
    pub denom: String,
    pub amount: u128,
}

/// Instruction to the stablecoin collaborator: issue `amount` of
/// stablecoin to `recipient`.
#[derive(Debug)]
pub struct IssueInstruction {
    pub recipient: String,
    pub amount: Dec,
}

/// Instruction to the stablecoin collaborator: burn `amount` of
/// stablecoin held by `holder`.
#[derive(Debug)]
pub struct BurnInstruction {
    pub holder: String,
    pub amount: Dec,
}

/// What a successful operation reports and instructs: the key resulting
/// values for the emitted event, plus any external transfer to perform.
#[derive(Debug)]
pub enum ExecuteOutcome {
    CollateralLocked { total_funds_locked_by_user: Dec },
    CollateralUnlocked { transfer: BankTransfer },
    DiraMinted { issue: IssueInstruction },
    DiraReturned { burn: BurnInstruction },
    StablecoinMinterLiquidated { transfer: BankTransfer, cleared_debt: Dec },
    CollateralPriceSet { old_price: Option<Dec>, new_price: Dec },
    LiquidationHealthSet { old_liquidation_health: Dec, new_liquidation_health: Dec },
    MintableHealthSet { old_mintable_health: Dec, new_mintable_health: Dec },
}

} // verus!
