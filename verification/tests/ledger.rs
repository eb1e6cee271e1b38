use stable_dira::{
    calculate_max_unlockable_collateral, execute, execute_liquidate_stablecoin_minter,
    execute_lock_collateral, execute_mint_dira, execute_return_dira,
    execute_set_collateral_price_in_dirham, execute_set_liquidation_health,
    execute_set_mintable_health, execute_unlock_collateral, instantiate, query,
    query_stablecoin_health, Coin, ContractError, ContractState, Dec, ExecuteMsg, ExecuteOutcome,
    InstantiateMsg, QueryAnswer, QueryMsg, DECIMAL_FRACTIONAL,
};

const ONE: u128 = DECIMAL_FRACTIONAL;

fn dec(units: u128) -> Dec {
    Dec::raw(units * ONE)
}

fn uatom(amount: u128) -> Vec<Coin> {
    vec![Coin {
        denom: "uatom".to_string(),
        amount,
    }]
}

/// A ledger with liquidation health 1.2, mintable health 1.5 and
/// denomination "uatom", instantiated by "admin".
fn setup() -> ContractState {
    instantiate(
        "admin".to_string(),
        InstantiateMsg {
            liquidation_health: Dec::raw(1_200_000_000_000_000_000),
            mintable_health: Dec::raw(1_500_000_000_000_000_000),
            collateral_token_denom: "uatom".to_string(),
        },
    )
    .unwrap()
}

fn set_price(state: &mut ContractState, price: Dec) {
    let r = execute_set_collateral_price_in_dirham(state, "admin".to_string(), price);
    assert!(r.is_ok());
}

fn lock(state: &mut ContractState, who: &str, units: u128) {
    let r = execute_lock_collateral(state, who.to_string(), &uatom(units), dec(units));
    assert!(r.is_ok());
}

#[test]
fn instantiate_rejects_zero_health() {
    let r = instantiate(
        "admin".to_string(),
        InstantiateMsg {
            liquidation_health: Dec::raw(0),
            mintable_health: dec(2),
            collateral_token_denom: "uatom".to_string(),
        },
    );
    assert_eq!(r.unwrap_err(), ContractError::HealthCannotBeZero);
    let r = instantiate(
        "admin".to_string(),
        InstantiateMsg {
            liquidation_health: dec(1),
            mintable_health: Dec::raw(0),
            collateral_token_denom: "uatom".to_string(),
        },
    );
    assert_eq!(r.unwrap_err(), ContractError::HealthCannotBeZero);
}

#[test]
fn instantiate_rejects_empty_denom() {
    let r = instantiate(
        "admin".to_string(),
        InstantiateMsg {
            liquidation_health: dec(1),
            mintable_health: dec(2),
            collateral_token_denom: "".to_string(),
        },
    );
    assert_eq!(r.unwrap_err(), ContractError::MissingCollateralTokenDenom);
}

#[test]
fn instantiate_rejects_mintable_below_liquidation() {
    let r = instantiate(
        "admin".to_string(),
        InstantiateMsg {
            liquidation_health: dec(2),
            mintable_health: dec(1),
            collateral_token_denom: "uatom".to_string(),
        },
    );
    assert_eq!(
        r.unwrap_err(),
        ContractError::MintableHealthLowerThanLiquidationHealth
    );
}

#[test]
fn fresh_ledger_has_no_price_and_zero_positions() {
    let state = setup();
    let r = query(&state, QueryMsg::QueryCollateralPrice {});
    assert_eq!(r.unwrap_err(), ContractError::CollateralPriceNotSet);
    match query(
        &state,
        QueryMsg::QueryLockedCollateral {
            wallet_address_to_query: "nobody".to_string(),
        },
    )
    .unwrap()
    {
        QueryAnswer::LockedCollateral { locked_collateral } => {
            assert_eq!(locked_collateral, Dec::raw(0));
        }
        _ => panic!("wrong answer variant"),
    }
}

#[test]
fn lock_rejects_missing_or_insufficient_funds() {
    let mut state = setup();
    let wrong_denom = vec![Coin {
        denom: "uosmo".to_string(),
        amount: 100,
    }];
    let r = execute_lock_collateral(&mut state, "bob".to_string(), &wrong_denom, dec(10));
    assert_eq!(r.unwrap_err(), ContractError::InsufficientFundsSent);
    let r = execute_lock_collateral(&mut state, "bob".to_string(), &uatom(9), dec(10));
    assert_eq!(r.unwrap_err(), ContractError::InsufficientFundsSent);
}

#[test]
fn lock_accumulates_and_reports_total() {
    let mut state = setup();
    let r = execute_lock_collateral(&mut state, "bob".to_string(), &uatom(100), dec(100));
    match r.unwrap() {
        ExecuteOutcome::CollateralLocked {
            total_funds_locked_by_user,
        } => assert_eq!(total_funds_locked_by_user, dec(100)),
        _ => panic!("wrong outcome variant"),
    }
    let r = execute_lock_collateral(&mut state, "bob".to_string(), &uatom(50), dec(50));
    match r.unwrap() {
        ExecuteOutcome::CollateralLocked {
            total_funds_locked_by_user,
        } => assert_eq!(total_funds_locked_by_user, dec(150)),
        _ => panic!("wrong outcome variant"),
    }
}

#[test]
fn unlock_requires_price() {
    let mut state = setup();
    lock(&mut state, "bob", 10);
    let r = execute_unlock_collateral(&mut state, "bob".to_string(), dec(1));
    assert_eq!(r.unwrap_err(), ContractError::CollateralPriceNotSet);
}

#[test]
fn unlock_reports_exact_ceiling() {
    let mut state = setup();
    set_price(&mut state, dec(10));
    lock(&mut state, "bob", 100);
    // Debt of 300 at price 10 under mintable health 1.5 binds 45 of the
    // 100 locked: the unlockable remainder is 55.
    let r = execute_mint_dira(&mut state, "bob".to_string(), dec(300));
    assert!(r.is_ok());
    let r = execute_unlock_collateral(&mut state, "bob".to_string(), dec(56));
    assert_eq!(
        r.unwrap_err(),
        ContractError::UnlockAmountTooHigh {
            max_unlockable: dec(55)
        }
    );
    let r = execute_unlock_collateral(&mut state, "bob".to_string(), dec(55));
    match r.unwrap() {
        ExecuteOutcome::CollateralUnlocked { transfer } => {
            assert_eq!(transfer.recipient, "bob");
            assert_eq!(transfer.denom, "uatom");
            assert_eq!(transfer.amount, 55);
        }
        _ => panic!("wrong outcome variant"),
    }
}

#[test]
fn lock_then_unlock_reported_maximum_succeeds() {
    let mut state = setup();
    set_price(&mut state, dec(10));
    lock(&mut state, "bob", 40);
    let r = execute_mint_dira(&mut state, "bob".to_string(), dec(100));
    assert!(r.is_ok());
    lock(&mut state, "bob", 7);
    let max = calculate_max_unlockable_collateral(dec(47), dec(10), dec(100), Dec::raw(1_500_000_000_000_000_000))
        .unwrap()
        .unwrap();
    let r = execute_unlock_collateral(&mut state, "bob".to_string(), max);
    assert!(r.is_ok());
}

#[test]
fn lock_unlock_round_trip_restores_balance() {
    let mut state = setup();
    set_price(&mut state, dec(3));
    lock(&mut state, "bob", 11);
    lock(&mut state, "bob", 25);
    let r = execute_unlock_collateral(&mut state, "bob".to_string(), dec(25));
    assert!(r.is_ok());
    match query(
        &state,
        QueryMsg::QueryLockedCollateral {
            wallet_address_to_query: "bob".to_string(),
        },
    )
    .unwrap()
    {
        QueryAnswer::LockedCollateral { locked_collateral } => {
            assert_eq!(locked_collateral, dec(11));
        }
        _ => panic!("wrong answer variant"),
    }
}

#[test]
fn mint_requires_price() {
    let mut state = setup();
    lock(&mut state, "bob", 10);
    let r = execute_mint_dira(&mut state, "bob".to_string(), dec(1));
    assert_eq!(r.unwrap_err(), ContractError::CollateralPriceNotSet);
}

#[test]
fn mint_boundary_is_exact() {
    let mut state = setup();
    set_price(&mut state, dec(10));
    lock(&mut state, "bob", 100);
    // Ceiling: 100 * 10 / 1.5 in atomics, truncated.
    let ceiling = Dec::raw(666_666_666_666_666_666_666);
    let r = execute_mint_dira(&mut state, "bob".to_string(), Dec::raw(ceiling.atomics + 1));
    assert_eq!(
        r.unwrap_err(),
        ContractError::MintAmountExceedsHealth {
            max_mintable: ceiling
        }
    );
    let r = execute_mint_dira(&mut state, "bob".to_string(), ceiling);
    match r.unwrap() {
        ExecuteOutcome::DiraMinted { issue } => {
            assert_eq!(issue.recipient, "bob");
            assert_eq!(issue.amount, ceiling);
        }
        _ => panic!("wrong outcome variant"),
    }
    // The ceiling is now fully used: one more atomic unit is rejected.
    let r = execute_mint_dira(&mut state, "bob".to_string(), Dec::raw(1));
    assert_eq!(
        r.unwrap_err(),
        ContractError::MintAmountExceedsHealth {
            max_mintable: ceiling
        }
    );
}

#[test]
fn redeem_rejects_more_than_debt() {
    let mut state = setup();
    set_price(&mut state, dec(10));
    lock(&mut state, "bob", 100);
    let r = execute_mint_dira(&mut state, "bob".to_string(), dec(30));
    assert!(r.is_ok());
    let r = execute_return_dira(&mut state, "bob".to_string(), dec(31));
    assert_eq!(
        r.unwrap_err(),
        ContractError::InsufficientDebt {
            minted_debt: dec(30)
        }
    );
}

#[test]
fn redeem_reduces_debt_and_burns() {
    let mut state = setup();
    set_price(&mut state, dec(10));
    lock(&mut state, "bob", 100);
    let r = execute_mint_dira(&mut state, "bob".to_string(), dec(30));
    assert!(r.is_ok());
    let r = execute_return_dira(&mut state, "bob".to_string(), dec(12));
    match r.unwrap() {
        ExecuteOutcome::DiraReturned { burn } => {
            assert_eq!(burn.holder, "bob");
            assert_eq!(burn.amount, dec(12));
        }
        _ => panic!("wrong outcome variant"),
    }
    let r = execute_return_dira(&mut state, "bob".to_string(), dec(18));
    assert!(r.is_ok());
    let r = execute_return_dira(&mut state, "bob".to_string(), Dec::raw(1));
    assert_eq!(
        r.unwrap_err(),
        ContractError::InsufficientDebt {
            minted_debt: Dec::raw(0)
        }
    );
}

#[test]
fn liquidation_fails_on_healthy_position() {
    let mut state = setup();
    set_price(&mut state, dec(10));
    lock(&mut state, "bob", 100);
    let r = execute_mint_dira(&mut state, "bob".to_string(), dec(300));
    assert!(r.is_ok());
    // Health ratio: 100 * 10 / 300 = 10/3, far above 1.2.
    let r = execute_liquidate_stablecoin_minter(
        &mut state,
        "carol".to_string(),
        "bob".to_string(),
    );
    assert_eq!(
        r.unwrap_err(),
        ContractError::PositionIsHealthy {
            health_ratio: Dec::raw(3_333_333_333_333_333_333)
        }
    );
}

#[test]
fn liquidation_zeroes_unhealthy_position() {
    let mut state = setup();
    set_price(&mut state, dec(10));
    lock(&mut state, "bob", 100);
    let r = execute_mint_dira(&mut state, "bob".to_string(), dec(600));
    assert!(r.is_ok());
    // Price collapse: at price 6 the ratio is 600/600 = 1.0 < 1.2.
    set_price(&mut state, dec(6));
    let r = execute_liquidate_stablecoin_minter(
        &mut state,
        "carol".to_string(),
        "bob".to_string(),
    );
    match r.unwrap() {
        ExecuteOutcome::StablecoinMinterLiquidated {
            transfer,
            cleared_debt,
        } => {
            assert_eq!(transfer.recipient, "carol");
            assert_eq!(transfer.denom, "uatom");
            assert_eq!(transfer.amount, 100);
            assert_eq!(cleared_debt, dec(600));
        }
        _ => panic!("wrong outcome variant"),
    }
    match query(
        &state,
        QueryMsg::QueryLockedCollateral {
            wallet_address_to_query: "bob".to_string(),
        },
    )
    .unwrap()
    {
        QueryAnswer::LockedCollateral { locked_collateral } => {
            assert_eq!(locked_collateral, Dec::raw(0));
        }
        _ => panic!("wrong answer variant"),
    }
}

#[test]
fn zero_debt_health_follows_recorded_convention() {
    let mut state = setup();
    set_price(&mut state, dec(10));
    lock(&mut state, "bob", 100);
    // With no debt but collateral present, the recorded convention
    // reports the worst health, zero, so the position is liquidatable.
    let r = query_stablecoin_health(&state, "bob".to_string());
    match r.unwrap() {
        QueryAnswer::StablecoinHealth { health_ratio } => {
            assert_eq!(health_ratio, Dec::raw(0));
        }
        _ => panic!("wrong answer variant"),
    }
    // With neither debt nor collateral it reports the best health.
    let r = query_stablecoin_health(&state, "nobody".to_string());
    match r.unwrap() {
        QueryAnswer::StablecoinHealth { health_ratio } => {
            assert_eq!(health_ratio, Dec::raw(u128::MAX));
        }
        _ => panic!("wrong answer variant"),
    }
}

#[test]
fn governance_requires_admin() {
    let mut state = setup();
    let r = execute_set_collateral_price_in_dirham(&mut state, "mallory".to_string(), dec(10));
    assert_eq!(r.unwrap_err(), ContractError::UnauthorizedUser);
    let r = execute_set_liquidation_health(&mut state, "mallory".to_string(), dec(1));
    assert_eq!(r.unwrap_err(), ContractError::UnauthorizedUser);
    let r = execute_set_mintable_health(&mut state, "mallory".to_string(), dec(2));
    assert_eq!(r.unwrap_err(), ContractError::UnauthorizedUser);
}

#[test]
fn governance_keeps_parameter_invariant() {
    let mut state = setup();
    // Raising the liquidation health above the mintable health is rejected.
    let r = execute_set_liquidation_health(&mut state, "admin".to_string(), dec(2));
    assert_eq!(
        r.unwrap_err(),
        ContractError::MintableHealthLowerThanLiquidationHealth
    );
    // Lowering the mintable health below the liquidation health is rejected.
    let r = execute_set_mintable_health(&mut state, "admin".to_string(), Dec::raw(1_100_000_000_000_000_000));
    assert_eq!(
        r.unwrap_err(),
        ContractError::MintableHealthLowerThanLiquidationHealth
    );
    // Valid updates succeed and report the old and new values.
    let r = execute_set_mintable_health(&mut state, "admin".to_string(), dec(2));
    match r.unwrap() {
        ExecuteOutcome::MintableHealthSet {
            old_mintable_health,
            new_mintable_health,
        } => {
            assert_eq!(old_mintable_health, Dec::raw(1_500_000_000_000_000_000));
            assert_eq!(new_mintable_health, dec(2));
        }
        _ => panic!("wrong outcome variant"),
    }
    let r = execute_set_liquidation_health(&mut state, "admin".to_string(), dec(2));
    match r.unwrap() {
        ExecuteOutcome::LiquidationHealthSet {
            old_liquidation_health,
            new_liquidation_health,
        } => {
            assert_eq!(old_liquidation_health, Dec::raw(1_200_000_000_000_000_000));
            assert_eq!(new_liquidation_health, dec(2));
        }
        _ => panic!("wrong outcome variant"),
    }
}

#[test]
fn set_price_reports_old_and_new() {
    let mut state = setup();
    let r = execute_set_collateral_price_in_dirham(&mut state, "admin".to_string(), dec(10));
    match r.unwrap() {
        ExecuteOutcome::CollateralPriceSet {
            old_price,
            new_price,
        } => {
            assert_eq!(old_price, None);
            assert_eq!(new_price, dec(10));
        }
        _ => panic!("wrong outcome variant"),
    }
    let r = execute_set_collateral_price_in_dirham(&mut state, "admin".to_string(), dec(7));
    match r.unwrap() {
        ExecuteOutcome::CollateralPriceSet {
            old_price,
            new_price,
        } => {
            assert_eq!(old_price, Some(dec(10)));
            assert_eq!(new_price, dec(7));
        }
        _ => panic!("wrong outcome variant"),
    }
}

#[test]
fn oversized_values_are_rejected_not_mispriced() {
    let mut state = setup();
    set_price(&mut state, Dec::raw(u128::MAX));
    lock(&mut state, "bob", 2);
    // The collateral value 2 * MAX does not fit in 128 bits.
    let r = execute_mint_dira(&mut state, "bob".to_string(), dec(1));
    assert_eq!(r.unwrap_err(), ContractError::ValueOutOfRange);
    let r = query_stablecoin_health(&state, "bob".to_string());
    assert_eq!(r.unwrap_err(), ContractError::ValueOutOfRange);
}

#[test]
fn execute_dispatches_messages() {
    let mut state = setup();
    let r = execute(
        &mut state,
        "admin".to_string(),
        &Vec::new(),
        ExecuteMsg::SetCollateralPriceInDirham {
            collateral_price_in_aed: dec(10),
        },
    );
    assert!(r.is_ok());
    let r = execute(
        &mut state,
        "bob".to_string(),
        &uatom(100),
        ExecuteMsg::LockCollateral {
            collateral_amount_to_lock: dec(100),
        },
    );
    match r.unwrap() {
        ExecuteOutcome::CollateralLocked {
            total_funds_locked_by_user,
        } => assert_eq!(total_funds_locked_by_user, dec(100)),
        _ => panic!("wrong outcome variant"),
    }
    let r = execute(
        &mut state,
        "bob".to_string(),
        &Vec::new(),
        ExecuteMsg::MintDira {
            dira_to_mint: dec(100),
        },
    );
    assert!(r.is_ok());
    match query(
        &state,
        QueryMsg::QueryStablecoinHealth {
            stablecoin_minter_address_to_query: "bob".to_string(),
        },
    )
    .unwrap()
    {
        QueryAnswer::StablecoinHealth { health_ratio } => {
            // 100 * 10 / 100 = 10.
            assert_eq!(health_ratio, dec(10));
        }
        _ => panic!("wrong answer variant"),
    }
}

#[test]
fn full_scenario_matches_design_walkthrough() {
    let mut state = setup();
    set_price(&mut state, dec(10));
    lock(&mut state, "bob", 100);
    // The exact debt ceiling is 100 * 10 / 1.5 = 666.666... (truncated
    // in atomics); a request for 667 exceeds it and is rejected.
    let r = execute_mint_dira(&mut state, "bob".to_string(), dec(667));
    assert_eq!(
        r.unwrap_err(),
        ContractError::MintAmountExceedsHealth {
            max_mintable: Dec::raw(666_666_666_666_666_666_666)
        }
    );
    let r = execute_mint_dira(
        &mut state,
        "bob".to_string(),
        Dec::raw(666_666_666_666_666_666_666),
    );
    assert!(r.is_ok());
    // Redeem 600: remaining debt is about 66.67.
    let r = execute_return_dira(&mut state, "bob".to_string(), dec(600));
    assert!(r.is_ok());
    // At price 1 the health ratio is exactly 1.5, above the liquidation
    // threshold 1.2: liquidation is rejected.
    set_price(&mut state, dec(1));
    let r = execute_liquidate_stablecoin_minter(
        &mut state,
        "carol".to_string(),
        "bob".to_string(),
    );
    assert_eq!(
        r.unwrap_err(),
        ContractError::PositionIsHealthy {
            health_ratio: Dec::raw(1_500_000_000_000_000_000)
        }
    );
    // At price 0.5 the ratio drops to 0.75, below 1.2: liquidation
    // succeeds, zeroing the position and sending the 100 uatom to the
    // liquidator.
    set_price(&mut state, Dec::raw(500_000_000_000_000_000));
    let r = query_stablecoin_health(&state, "bob".to_string());
    match r.unwrap() {
        QueryAnswer::StablecoinHealth { health_ratio } => {
            assert_eq!(health_ratio, Dec::raw(750_000_000_000_000_000));
        }
        _ => panic!("wrong answer variant"),
    }
    let r = execute_liquidate_stablecoin_minter(
        &mut state,
        "carol".to_string(),
        "bob".to_string(),
    );
    match r.unwrap() {
        ExecuteOutcome::StablecoinMinterLiquidated {
            transfer,
            cleared_debt,
        } => {
            assert_eq!(transfer.recipient, "carol");
            assert_eq!(transfer.denom, "uatom");
            assert_eq!(transfer.amount, 100);
            assert_eq!(cleared_debt, Dec::raw(66_666_666_666_666_666_666));
        }
        _ => panic!("wrong outcome variant"),
    }
    match query(
        &state,
        QueryMsg::QueryLockedCollateral {
            wallet_address_to_query: "bob".to_string(),
        },
    )
    .unwrap()
    {
        QueryAnswer::LockedCollateral { locked_collateral } => {
            assert_eq!(locked_collateral, Dec::raw(0));
        }
        _ => panic!("wrong answer variant"),
    }
}

#[test]
fn wrapped_arithmetic_matches_chain_decimals() {
    // Cross-check the fixed-point arithmetic against the chain's
    // decimal type, which the trusted wrappers rely on.
    let a = cosmwasm_std::Decimal::from_ratio(7u128, 3u128);
    let b = cosmwasm_std::Decimal::from_ratio(11u128, 5u128);
    let product = (a * b).atomics().u128();
    let lib_product = Dec::raw(a.atomics().u128())
        .checked_mul(Dec::raw(b.atomics().u128()))
        .unwrap();
    assert_eq!(lib_product, Dec::raw(product));
    let quotient = (a / b).atomics().u128();
    let lib_quotient = Dec::raw(a.atomics().u128())
        .checked_div(Dec::raw(b.atomics().u128()))
        .unwrap();
    assert_eq!(lib_quotient, Dec::raw(quotient));
}
