use iup_token::allowances::query_allowance;
use iup_token::contract::{execute, instantiate, migrate, query_balance, Version};
use iup_token::error::ContractError;
use iup_token::msg::{ExecuteMsg, FeeCollectorInput, InitialBalance, InstantiateMsg, MinterResponse};
use iup_token::state::{BlockInfo, Env, Expiration, FeeTokenType, FeeType, TokenState};

const CREATOR: &str = "cosmos1vlhe6z8r7al2lyzp7n3j2vl5kd28hhrw0vxmxr";
const HOLDER_A: &str = "cosmos1wztmxhufhy98p3n45yqtwhrxlrr9wkg0tt3a3c";
const HOLDER_B: &str = "cosmos1qg9zllptnqvhyvrrvm0j3qjmtc5q6ds7eq0le4";
const COLLECTOR: &str = "cosmos1fn9z9vn4k3qwr7vkg0yhzwv2q8h4lu4qsh7qv3";
const MINTER: &str = "cosmos1uzsvd5gh4l0wdf6ekufg0nhrgdl3nk7gy5ksy7";

const PERCENT: u128 = 10_000_000_000_000_000;

fn mock_env() -> Env {
    Env { block: BlockInfo { height: 12_345, time: 1_571_797_419 } }
}

fn supply_of(state: &TokenState) -> u128 {
    state.balances.iter().map(|e| e.amount).sum()
}

fn minted_token_state() -> TokenState {
    let msg = InstantiateMsg {
        name: "Game Token".to_string(),
        symbol: "GAME".to_string(),
        decimals: 6,
        initial_balances: vec![InitialBalance {
            address: HOLDER_A.to_string(),
            amount: 1_000_000,
        }],
        mint: Some(MinterResponse { minter: MINTER.to_string(), cap: Some(2_000_000) }),
        marketing: None,
        created_on_platform: None,
    };
    let (state, _) = instantiate(msg, &CREATOR.to_string()).unwrap();
    state
}

#[test]
fn one_percent_fee_scenario_keeps_supply() {
    // Supply 1,000,000,000,000 units to A; 1% fee to a single collector; A
    // transfers 100,000,000 to B.
    let env = mock_env();
    let msg = InstantiateMsg {
        name: "Game Token".to_string(),
        symbol: "GAME".to_string(),
        decimals: 6,
        initial_balances: vec![InitialBalance {
            address: HOLDER_A.to_string(),
            amount: 1_000_000_000_000,
        }],
        mint: None,
        marketing: None,
        created_on_platform: None,
    };
    let (mut state, _) = instantiate(msg, &CREATOR.to_string()).unwrap();

    execute(
        &mut state,
        &env,
        &HOLDER_A.to_string(),
        ExecuteMsg::SetFeeConfig {
            fee_type: FeeType::Percentage(PERCENT),
            token_type: FeeTokenType::Cw20 { contract_addr: "self".to_string() },
            collectors: vec![FeeCollectorInput {
                address: COLLECTOR.to_string(),
                percentage: "1.0".to_string(),
            }],
            is_active: true,
        },
    )
    .unwrap();

    let res = execute(
        &mut state,
        &env,
        &HOLDER_A.to_string(),
        ExecuteMsg::Transfer { recipient: HOLDER_B.to_string(), amount: 100_000_000 },
    )
    .unwrap();

    assert_eq!(query_balance(&state, HOLDER_B.to_string()).balance, 99_000_000);
    // The collector's 1,000,000 leaves the contract as an emitted value
    // movement rather than a direct ledger write.
    let paid = res.messages.iter().find_map(|m| match m {
        iup_token::response::OutMsg::Cw20Transfer { recipient, amount, .. }
            if recipient == COLLECTOR => Some(*amount),
        _ => None,
    });
    assert_eq!(paid, Some(1_000_000));
    assert_eq!(query_balance(&state, COLLECTOR.to_string()).balance, 0);
    assert_eq!(
        query_balance(&state, HOLDER_A.to_string()).balance,
        1_000_000_000_000 - 100_000_000
    );
    // The supply record is untouched; the ledger total is down by exactly
    // the fee that left with the messages.
    assert_eq!(state.token_info.total_supply, 1_000_000_000_000);
    assert_eq!(supply_of(&state), state.token_info.total_supply - 1_000_000);
}

#[test]
fn supply_equals_balances_across_mint_burn_transfer() {
    let env = mock_env();
    let mut state = minted_token_state();
    assert_eq!(supply_of(&state), state.token_info.total_supply);

    execute(
        &mut state,
        &env,
        &MINTER.to_string(),
        ExecuteMsg::Mint { recipient: HOLDER_B.to_string(), amount: 500_000 },
    )
    .unwrap();
    assert_eq!(supply_of(&state), state.token_info.total_supply);

    execute(
        &mut state,
        &env,
        &HOLDER_A.to_string(),
        ExecuteMsg::Transfer { recipient: HOLDER_B.to_string(), amount: 250_000 },
    )
    .unwrap();
    assert_eq!(supply_of(&state), state.token_info.total_supply);

    execute(&mut state, &env, &HOLDER_B.to_string(), ExecuteMsg::Burn { amount: 600_000 })
        .unwrap();
    assert_eq!(supply_of(&state), state.token_info.total_supply);
    assert_eq!(state.token_info.total_supply, 1_000_000 + 500_000 - 600_000);
}

#[test]
fn mint_authorization_and_cap() {
    let env = mock_env();
    let mut state = minted_token_state();

    // A mint request from a non-minter address is unauthorized.
    let err = execute(
        &mut state,
        &env,
        &HOLDER_A.to_string(),
        ExecuteMsg::Mint { recipient: HOLDER_B.to_string(), amount: 1 },
    )
    .unwrap_err();
    assert!(matches!(err, ContractError::Unauthorized {}));

    // A mint that would push the supply past the cap is rejected.
    let err = execute(
        &mut state,
        &env,
        &MINTER.to_string(),
        ExecuteMsg::Mint { recipient: HOLDER_B.to_string(), amount: 1_000_001 },
    )
    .unwrap_err();
    assert!(matches!(err, ContractError::CannotExceedCap {}));

    // Exactly up to the cap is accepted.
    execute(
        &mut state,
        &env,
        &MINTER.to_string(),
        ExecuteMsg::Mint { recipient: HOLDER_B.to_string(), amount: 1_000_000 },
    )
    .unwrap();
    assert_eq!(state.token_info.total_supply, 2_000_000);
}

#[test]
fn fee_config_summing_to_half_is_rejected() {
    let env = mock_env();
    let mut state = minted_token_state();

    let err = execute(
        &mut state,
        &env,
        &HOLDER_A.to_string(),
        ExecuteMsg::SetFeeConfig {
            fee_type: FeeType::Percentage(PERCENT),
            token_type: FeeTokenType::Cw20 { contract_addr: "self".to_string() },
            collectors: vec![
                FeeCollectorInput {
                    address: COLLECTOR.to_string(),
                    percentage: "0.25".to_string(),
                },
                FeeCollectorInput {
                    address: HOLDER_B.to_string(),
                    percentage: "0.25".to_string(),
                },
            ],
            is_active: true,
        },
    )
    .unwrap_err();
    assert!(matches!(err, ContractError::InvalidFeeDistribution {}));
}

#[test]
fn transfer_from_beyond_allowance_leaves_it_unchanged() {
    let env = mock_env();
    let mut state = minted_token_state();

    execute(
        &mut state,
        &env,
        &HOLDER_A.to_string(),
        ExecuteMsg::IncreaseAllowance {
            spender: HOLDER_B.to_string(),
            amount: 300,
            expires: None,
        },
    )
    .unwrap();

    let err = execute(
        &mut state,
        &env,
        &HOLDER_B.to_string(),
        ExecuteMsg::TransferFrom {
            owner: HOLDER_A.to_string(),
            recipient: COLLECTOR.to_string(),
            amount: 301,
        },
    )
    .unwrap_err();
    assert!(matches!(err, ContractError::InvalidAmount {}));

    let remaining = query_allowance(&state, HOLDER_A.to_string(), HOLDER_B.to_string());
    assert_eq!(remaining.allowance, 300);
    assert_eq!(query_balance(&state, COLLECTOR.to_string()).balance, 0);
}

#[test]
fn allowance_round_trip_restores_value_and_expiration() {
    let env = mock_env();
    let mut state = minted_token_state();

    let original_expiry = Expiration::AtHeight(50_000);
    execute(
        &mut state,
        &env,
        &HOLDER_A.to_string(),
        ExecuteMsg::IncreaseAllowance {
            spender: HOLDER_B.to_string(),
            amount: 1_000,
            expires: Some(original_expiry),
        },
    )
    .unwrap();

    // Increase with a different expiration, then decrease by the same amount
    // re-supplying the original expiration: value and expiration restored.
    execute(
        &mut state,
        &env,
        &HOLDER_A.to_string(),
        ExecuteMsg::IncreaseAllowance {
            spender: HOLDER_B.to_string(),
            amount: 400,
            expires: Some(Expiration::AtTime(9_999_999_999)),
        },
    )
    .unwrap();
    execute(
        &mut state,
        &env,
        &HOLDER_A.to_string(),
        ExecuteMsg::DecreaseAllowance {
            spender: HOLDER_B.to_string(),
            amount: 400,
            expires: Some(original_expiry),
        },
    )
    .unwrap();

    let a = query_allowance(&state, HOLDER_A.to_string(), HOLDER_B.to_string());
    assert_eq!(a.allowance, 1_000);
    assert_eq!(a.expires, original_expiry);

    // Decreasing to zero with no expiration deletes the entry.
    execute(
        &mut state,
        &env,
        &HOLDER_A.to_string(),
        ExecuteMsg::DecreaseAllowance {
            spender: HOLDER_B.to_string(),
            amount: 1_000,
            expires: None,
        },
    )
    .unwrap();
    let a = query_allowance(&state, HOLDER_A.to_string(), HOLDER_B.to_string());
    assert_eq!(a.allowance, 0);
    assert_eq!(a.expires, Expiration::Never);
    assert!(state.allowances.is_empty());
    assert!(state.spender_allowances.is_empty());
}

#[test]
fn allowance_error_cases() {
    let env = mock_env();
    let mut state = minted_token_state();

    // An allowance toward oneself is rejected.
    let err = execute(
        &mut state,
        &env,
        &HOLDER_A.to_string(),
        ExecuteMsg::IncreaseAllowance {
            spender: HOLDER_A.to_string(),
            amount: 10,
            expires: None,
        },
    )
    .unwrap_err();
    assert!(matches!(err, ContractError::CannotSetOwnAccount {}));

    // An expiration already in the past is rejected.
    let err = execute(
        &mut state,
        &env,
        &HOLDER_A.to_string(),
        ExecuteMsg::IncreaseAllowance {
            spender: HOLDER_B.to_string(),
            amount: 10,
            expires: Some(Expiration::AtHeight(1)),
        },
    )
    .unwrap_err();
    assert!(matches!(err, ContractError::InvalidExpiration {}));

    // Decreasing an absent allowance is an error.
    let err = execute(
        &mut state,
        &env,
        &HOLDER_A.to_string(),
        ExecuteMsg::DecreaseAllowance {
            spender: HOLDER_B.to_string(),
            amount: 10,
            expires: None,
        },
    )
    .unwrap_err();
    assert!(matches!(err, ContractError::NoAllowance {}));

    // Spending through an expired allowance is an error.
    execute(
        &mut state,
        &env,
        &HOLDER_A.to_string(),
        ExecuteMsg::IncreaseAllowance {
            spender: HOLDER_B.to_string(),
            amount: 100,
            expires: Some(Expiration::AtHeight(20_000)),
        },
    )
    .unwrap();
    let later = Env { block: BlockInfo { height: 20_000, time: 1_571_797_419 } };
    let err = execute(
        &mut state,
        &later,
        &HOLDER_B.to_string(),
        ExecuteMsg::TransferFrom {
            owner: HOLDER_A.to_string(),
            recipient: COLLECTOR.to_string(),
            amount: 10,
        },
    )
    .unwrap_err();
    assert!(matches!(err, ContractError::Expired {}));

    // Spending with no allowance at all is an error.
    let err = execute(
        &mut state,
        &env,
        &COLLECTOR.to_string(),
        ExecuteMsg::TransferFrom {
            owner: HOLDER_A.to_string(),
            recipient: COLLECTOR.to_string(),
            amount: 10,
        },
    )
    .unwrap_err();
    assert!(matches!(err, ContractError::NoAllowance {}));
}

#[test]
fn burn_and_transfer_shortfalls() {
    let env = mock_env();
    let mut state = minted_token_state();

    let err = execute(
        &mut state,
        &env,
        &HOLDER_B.to_string(),
        ExecuteMsg::Burn { amount: 1 },
    )
    .unwrap_err();
    assert!(matches!(err, ContractError::InsufficientFunds {}));

    let err = execute(
        &mut state,
        &env,
        &HOLDER_A.to_string(),
        ExecuteMsg::Transfer { recipient: HOLDER_B.to_string(), amount: 1_000_001 },
    )
    .unwrap_err();
    assert!(matches!(err, ContractError::InsufficientFunds {}));
}

#[test]
fn burn_from_consumes_allowance_and_supply() {
    let env = mock_env();
    let mut state = minted_token_state();

    execute(
        &mut state,
        &env,
        &HOLDER_A.to_string(),
        ExecuteMsg::IncreaseAllowance {
            spender: HOLDER_B.to_string(),
            amount: 600,
            expires: None,
        },
    )
    .unwrap();
    execute(
        &mut state,
        &env,
        &HOLDER_B.to_string(),
        ExecuteMsg::BurnFrom { owner: HOLDER_A.to_string(), amount: 250 },
    )
    .unwrap();

    assert_eq!(query_balance(&state, HOLDER_A.to_string()).balance, 999_750);
    assert_eq!(state.token_info.total_supply, 999_750);
    assert_eq!(supply_of(&state), state.token_info.total_supply);
    let a = query_allowance(&state, HOLDER_A.to_string(), HOLDER_B.to_string());
    assert_eq!(a.allowance, 350);
}

#[test]
fn update_minter_keeps_the_cap() {
    let env = mock_env();
    let mut state = minted_token_state();

    let err = execute(
        &mut state,
        &env,
        &HOLDER_A.to_string(),
        ExecuteMsg::UpdateMinter { new_minter: Some(HOLDER_A.to_string()) },
    )
    .unwrap_err();
    assert!(matches!(err, ContractError::Unauthorized {}));

    let res = execute(
        &mut state,
        &env,
        &MINTER.to_string(),
        ExecuteMsg::UpdateMinter { new_minter: Some(HOLDER_B.to_string()) },
    )
    .unwrap();
    assert_eq!(res.attributes.len(), 2);
    let mint = state.token_info.mint.as_ref().unwrap();
    assert_eq!(mint.minter, HOLDER_B);
    assert_eq!(mint.cap, Some(2_000_000));
}

#[test]
fn migrate_rebuilds_the_spender_index() {
    let env = mock_env();
    let mut state = minted_token_state();

    execute(
        &mut state,
        &env,
        &HOLDER_A.to_string(),
        ExecuteMsg::IncreaseAllowance {
            spender: HOLDER_B.to_string(),
            amount: 777,
            expires: None,
        },
    )
    .unwrap();

    // Simulate a pre-reindex store: drop the mirrored index, then migrate
    // from a version before the threshold.
    state.spender_allowances = Vec::new();
    migrate(&mut state, &Version { major: 0, minor: 13, patch: 2 });

    assert_eq!(state.spender_allowances.len(), 1);
    let mirrored = &state.spender_allowances[0];
    assert_eq!(mirrored.owner, HOLDER_B);
    assert_eq!(mirrored.spender, HOLDER_A);
    assert_eq!(mirrored.info.allowance, 777);

    // From the threshold on, migration leaves the indexes alone.
    state.spender_allowances = Vec::new();
    migrate(&mut state, &Version { major: 0, minor: 14, patch: 0 });
    assert!(state.spender_allowances.is_empty());
}

#[test]
fn well_formedness_is_decidable_at_run_time() {
    let env = mock_env();
    let mut state = minted_token_state();
    assert!(state.is_well_formed());

    execute(
        &mut state,
        &env,
        &HOLDER_A.to_string(),
        ExecuteMsg::IncreaseAllowance {
            spender: HOLDER_B.to_string(),
            amount: 777,
            expires: None,
        },
    )
    .unwrap();
    assert!(state.is_well_formed());

    // A store whose mirrored allowance index was lost is no longer
    // well-formed — exactly the condition the upgrade hook repairs.
    state.spender_allowances = Vec::new();
    assert!(!state.is_well_formed());
    migrate(&mut state, &Version { major: 0, minor: 13, patch: 2 });
    assert!(state.is_well_formed());
}
