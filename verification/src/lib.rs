use vstd::prelude::*;

mod decimal;
mod errors;
mod handlers;
mod health;
mod laws;
mod msgs;
mod state;

pub use decimal::Dec;
pub use decimal::DECIMAL_FRACTIONAL;
pub use errors::ContractError;
pub use handlers::execute;
pub use handlers::execute_lock_collateral;
pub use handlers::execute_liquidate_stablecoin_minter;
pub use handlers::execute_mint_dira;
pub use handlers::execute_return_dira;
pub use handlers::execute_set_collateral_price_in_dirham;
pub use handlers::execute_set_liquidation_health;
pub use handlers::execute_set_mintable_health;
pub use handlers::execute_unlock_collateral;
pub use handlers::instantiate;
pub use handlers::query;
pub use handlers::query_collateral_price;
pub use handlers::query_locked_collateral;
pub use handlers::query_stablecoin_health;
pub use health::calculate_max_mintable_dira;
pub use health::calculate_max_unlockable_collateral;
pub use health::calculate_stablecoin_health;
pub use msgs::BankTransfer;
pub use msgs::BurnInstruction;
pub use msgs::Coin;
pub use msgs::ExecuteMsg;
pub use msgs::ExecuteOutcome;
pub use msgs::InstantiateMsg;
pub use msgs::IssueInstruction;
pub use msgs::QueryAnswer;
pub use msgs::QueryMsg;
pub use state::ContractState;
pub use state::Position;
pub use state::PositionEntry;

verus! {

} // verus!
