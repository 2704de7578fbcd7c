use iup_token::contract::{execute, instantiate, query_balance, query_fee_config};
use iup_token::error::ContractError;
use iup_token::msg::{ExecuteMsg, FeeCollectorInput, InstantiateMsg};
use iup_token::state::{BlockInfo, Env, FeeTokenType, FeeType, TokenState};

const CREATOR: &str = "cosmos1vlhe6z8r7al2lyzp7n3j2vl5kd28hhrw0vxmxr";
const ADMIN: &str = "cosmos1wztmxhufhy98p3n45yqtwhrxlrr9wkg0tt3a3c";
const USER1: &str = "cosmos1qg9zllptnqvhyvrrvm0j3qjmtc5q6ds7eq0le4";
const FEE_COLLECTOR: &str = "cosmos1fn9z9vn4k3qwr7vkg0yhzwv2q8h4lu4qsh7qv3";
const RECIPIENT: &str = "cosmos1vlhe6z8r7al2lyzp7n3j2vl5kd28hhrw0vxmxr";

const PERCENT: u128 = 10_000_000_000_000_000;

fn mock_env() -> Env {
    Env { block: BlockInfo { height: 12_345, time: 1_571_797_419 } }
}


fn fee_payment(res: &iup_token::response::Response, to: &str) -> Option<u128> {
    res.messages.iter().find_map(|m| match m {
        iup_token::response::OutMsg::Cw20Transfer { recipient, amount, .. } if recipient == to => {
            Some(*amount)
        }
        iup_token::response::OutMsg::BankSend { to_address, amount, .. } if to_address == to => {
            Some(*amount)
        }
        _ => None,
    })
}

fn fee_token_state() -> TokenState {
    let msg = InstantiateMsg {
        name: "Fee Token".to_string(),
        symbol: "FEE".to_string(),
        decimals: 6,
        initial_balances: vec![
            iup_token::msg::InitialBalance { address: ADMIN.to_string(), amount: 1000000000 },
            iup_token::msg::InitialBalance { address: USER1.to_string(), amount: 1000000000 },
        ],
        marketing: None,
        mint: None,
        created_on_platform: None,
    };
    let (state, _) = instantiate(msg, &CREATOR.to_string()).unwrap();
    state
}

#[test]
fn test_transfer_fee() {
    let env = mock_env();
    let mut state = fee_token_state();

    let set_fee_msg = ExecuteMsg::SetFeeConfig {
        fee_type: FeeType::Percentage(PERCENT),
        token_type: FeeTokenType::Cw20 { contract_addr: "self".to_string() },
        collectors: vec![FeeCollectorInput {
            address: FEE_COLLECTOR.to_string(),
            percentage: "1.0".to_string(),
        }],
        is_active: true,
    };
    execute(&mut state, &env, &ADMIN.to_string(), set_fee_msg).unwrap();

    let fee_response = query_fee_config(&state);
    assert_eq!(fee_response.is_active, true);
    if let FeeType::Percentage(atomics) = fee_response.fee_type {
        assert_eq!(atomics, PERCENT);
    } else {
        panic!("Expected percentage fee type");
    }

    let transfer_amount: u128 = 100000000;
    let expected_fee: u128 = 1000000;
    let expected_received: u128 = 99000000;

    let transfer_msg =
        ExecuteMsg::Transfer { recipient: RECIPIENT.to_string(), amount: transfer_amount };
    let res = execute(&mut state, &env, &USER1.to_string(), transfer_msg).unwrap();

    assert!(res.attributes.len() >= 4);
    let fee_amount_attr = res.attributes.iter().find(|attr| attr.key == "fee_amount");
    assert!(fee_amount_attr.is_some());
    assert_eq!(fee_amount_attr.unwrap().value, expected_fee.to_string());

    let recipient_balance = query_balance(&state, RECIPIENT.to_string());
    assert_eq!(recipient_balance.balance, expected_received);

    // The collector is paid by the emitted value movement, never by a
    // direct ledger write.
    assert_eq!(fee_payment(&res, FEE_COLLECTOR), Some(expected_fee));
    assert_eq!(query_balance(&state, FEE_COLLECTOR.to_string()).balance, 0);

    let sender_balance = query_balance(&state, USER1.to_string());
    assert_eq!(sender_balance.balance, 1000000000 - transfer_amount);
}

#[test]
fn test_transfer_from_with_fee() {
    let env = mock_env();
    let mut state = fee_token_state();

    let approve_msg = ExecuteMsg::IncreaseAllowance {
        spender: ADMIN.to_string(),
        amount: 200000000,
        expires: None,
    };
    execute(&mut state, &env, &USER1.to_string(), approve_msg).unwrap();

    let set_fee_msg = ExecuteMsg::SetFeeConfig {
        fee_type: FeeType::Percentage(2 * PERCENT + PERCENT / 2),
        token_type: FeeTokenType::Cw20 { contract_addr: "self".to_string() },
        collectors: vec![FeeCollectorInput {
            address: FEE_COLLECTOR.to_string(),
            percentage: "1.0".to_string(),
        }],
        is_active: true,
    };
    execute(&mut state, &env, &ADMIN.to_string(), set_fee_msg).unwrap();

    let transfer_amount: u128 = 100000000;
    let expected_fee: u128 = 2500000;
    let expected_received: u128 = 97500000;

    let transfer_from_msg = ExecuteMsg::TransferFrom {
        owner: USER1.to_string(),
        recipient: RECIPIENT.to_string(),
        amount: transfer_amount,
    };
    let res = execute(&mut state, &env, &ADMIN.to_string(), transfer_from_msg).unwrap();

    assert!(res.attributes.len() >= 5);
    let fee_amount_attr = res.attributes.iter().find(|attr| attr.key == "fee_amount");
    assert!(fee_amount_attr.is_some());
    assert_eq!(fee_amount_attr.unwrap().value, expected_fee.to_string());

    let recipient_balance = query_balance(&state, RECIPIENT.to_string());
    assert_eq!(recipient_balance.balance, expected_received);

    assert_eq!(fee_payment(&res, FEE_COLLECTOR), Some(expected_fee));
    assert_eq!(query_balance(&state, FEE_COLLECTOR.to_string()).balance, 0);

    let sender_balance = query_balance(&state, USER1.to_string());
    assert_eq!(sender_balance.balance, 1000000000 - transfer_amount);
}

#[test]
fn test_invalid_fee_settings() {
    let env = mock_env();
    let msg = InstantiateMsg {
        name: "Fee Token".to_string(),
        symbol: "FEE".to_string(),
        decimals: 6,
        initial_balances: vec![iup_token::msg::InitialBalance {
            address: ADMIN.to_string(),
            amount: 1000000000,
        }],
        marketing: None,
        mint: None,
        created_on_platform: None,
    };
    let (mut state, _) = instantiate(msg, &CREATOR.to_string()).unwrap();

    let invalid_fee_msg = ExecuteMsg::SetFeeConfig {
        fee_type: FeeType::Percentage(PERCENT),
        token_type: FeeTokenType::Cw20 { contract_addr: "self".to_string() },
        collectors: vec![],
        is_active: true,
    };
    let err = execute(&mut state, &env, &ADMIN.to_string(), invalid_fee_msg).unwrap_err();
    match err {
        ContractError::InvalidFeeDistribution {} => {}
        _ => panic!("Expected InvalidFeeDistribution error"),
    }

    let invalid_fee_msg = ExecuteMsg::SetFeeConfig {
        fee_type: FeeType::Percentage(PERCENT),
        token_type: FeeTokenType::Cw20 { contract_addr: "self".to_string() },
        collectors: vec![FeeCollectorInput {
            address: FEE_COLLECTOR.to_string(),
            percentage: "0.5".to_string(),
        }],
        is_active: true,
    };
    let err = execute(&mut state, &env, &ADMIN.to_string(), invalid_fee_msg).unwrap_err();
    match err {
        ContractError::InvalidFeeDistribution {} => {}
        _ => panic!("Expected InvalidFeeDistribution error"),
    }

    let fee_msg = ExecuteMsg::SetFeeConfig {
        fee_type: FeeType::Percentage(PERCENT),
        token_type: FeeTokenType::Cw20 { contract_addr: "self".to_string() },
        collectors: vec![FeeCollectorInput {
            address: FEE_COLLECTOR.to_string(),
            percentage: "1.0".to_string(),
        }],
        is_active: true,
    };
    let err = execute(&mut state, &env, &USER1.to_string(), fee_msg).unwrap_err();
    match err {
        ContractError::Unauthorized {} => {}
        _ => panic!("Expected Unauthorized error"),
    }
}

#[test]
fn test_multiple_fee_collectors() {
    let env = mock_env();
    let mut state = fee_token_state();

    let set_fee_msg = ExecuteMsg::SetFeeConfig {
        fee_type: FeeType::Percentage(5 * PERCENT),
        token_type: FeeTokenType::Cw20 { contract_addr: "self".to_string() },
        collectors: vec![
            FeeCollectorInput {
                address: FEE_COLLECTOR.to_string(),
                percentage: "0.6".to_string(),
            },
            FeeCollectorInput { address: ADMIN.to_string(), percentage: "0.4".to_string() },
        ],
        is_active: true,
    };
    execute(&mut state, &env, &ADMIN.to_string(), set_fee_msg).unwrap();

    let transfer_amount: u128 = 100000000;
    let _total_fee: u128 = 5000000;
    let fee_collector1: u128 = 3000000;
    let fee_collector2: u128 = 2000000;
    let expected_received: u128 = 95000000;

    let transfer_msg =
        ExecuteMsg::Transfer { recipient: RECIPIENT.to_string(), amount: transfer_amount };
    let res = execute(&mut state, &env, &USER1.to_string(), transfer_msg).unwrap();

    let recipient_balance = query_balance(&state, RECIPIENT.to_string());
    assert_eq!(recipient_balance.balance, expected_received);

    // Each collector's share leaves as its own emitted value movement; the
    // ledger itself credits nobody.
    assert_eq!(fee_payment(&res, FEE_COLLECTOR), Some(fee_collector1));
    assert_eq!(fee_payment(&res, ADMIN), Some(fee_collector2));
    assert_eq!(query_balance(&state, FEE_COLLECTOR.to_string()).balance, 0);
    assert_eq!(query_balance(&state, ADMIN.to_string()).balance, 1000000000);

    let sender_balance = query_balance(&state, USER1.to_string());
    assert_eq!(sender_balance.balance, 1000000000 - transfer_amount);
}

#[test]
fn fee_collectors_attribute_lists_rates() {
    let env = mock_env();
    let mut state = fee_token_state();

    let set_fee_msg = ExecuteMsg::SetFeeConfig {
        fee_type: FeeType::Percentage(5 * PERCENT),
        token_type: FeeTokenType::Native { denom: "uatom".to_string() },
        collectors: vec![
            FeeCollectorInput { address: "col-a".to_string(), percentage: "0.6".to_string() },
            FeeCollectorInput { address: "col-b".to_string(), percentage: "0.4".to_string() },
        ],
        is_active: true,
    };
    execute(&mut state, &env, &ADMIN.to_string(), set_fee_msg).unwrap();

    let fee_response = query_fee_config(&state);
    assert_eq!(fee_response.collectors[0].percentage, "0.6");
    assert_eq!(fee_response.collectors[1].percentage, "0.4");

    let res = execute(
        &mut state,
        &env,
        &USER1.to_string(),
        ExecuteMsg::Transfer { recipient: RECIPIENT.to_string(), amount: 100000000 },
    )
    .unwrap();
    let attr = res
        .attributes
        .iter()
        .find(|a| a.key == "fee_collectors")
        .expect("fee_collectors attribute");
    assert_eq!(attr.value, "col-a:0.6,col-b:0.4");
    let token_attr = res.attributes.iter().find(|a| a.key == "fee_token_type").unwrap();
    assert_eq!(token_attr.value, "native");
    let denom_attr = res.attributes.iter().find(|a| a.key == "fee_token_denom").unwrap();
    assert_eq!(denom_attr.value, "uatom");
}

#[test]
fn fixed_fee_of_zero_is_rejected_and_shortfall_fails() {
    let env = mock_env();
    let mut state = fee_token_state();

    let err = execute(
        &mut state,
        &env,
        &ADMIN.to_string(),
        ExecuteMsg::SetFeeConfig {
            fee_type: FeeType::Fixed(0),
            token_type: FeeTokenType::Native { denom: "uatom".to_string() },
            collectors: vec![FeeCollectorInput {
                address: FEE_COLLECTOR.to_string(),
                percentage: "1.0".to_string(),
            }],
            is_active: true,
        },
    )
    .unwrap_err();
    assert!(matches!(err, ContractError::InvalidAmount {}));

    execute(
        &mut state,
        &env,
        &ADMIN.to_string(),
        ExecuteMsg::SetFeeConfig {
            fee_type: FeeType::Fixed(500),
            token_type: FeeTokenType::Native { denom: "uatom".to_string() },
            collectors: vec![FeeCollectorInput {
                address: FEE_COLLECTOR.to_string(),
                percentage: "1.0".to_string(),
            }],
            is_active: true,
        },
    )
    .unwrap();

    // A fixed fee above the transferred amount is a shortfall.
    let err = execute(
        &mut state,
        &env,
        &USER1.to_string(),
        ExecuteMsg::Transfer { recipient: RECIPIENT.to_string(), amount: 100 },
    )
    .unwrap_err();
    assert!(matches!(err, ContractError::InsufficientFunds {}));

    // A fixed fee below the amount is collected in full, leaving the
    // ledger as an emitted value movement.
    let res = execute(
        &mut state,
        &env,
        &USER1.to_string(),
        ExecuteMsg::Transfer { recipient: RECIPIENT.to_string(), amount: 1000 },
    )
    .unwrap();
    assert_eq!(query_balance(&state, RECIPIENT.to_string()).balance, 500);
    assert_eq!(fee_payment(&res, FEE_COLLECTOR), Some(500));
    assert_eq!(query_balance(&state, FEE_COLLECTOR.to_string()).balance, 0);
}

#[test]
fn collector_percentage_parsing_and_range() {
    let env = mock_env();
    let mut state = fee_token_state();

    let err = execute(
        &mut state,
        &env,
        &ADMIN.to_string(),
        ExecuteMsg::SetFeeConfig {
            fee_type: FeeType::Percentage(PERCENT),
            token_type: FeeTokenType::Cw20 { contract_addr: "self".to_string() },
            collectors: vec![FeeCollectorInput {
                address: FEE_COLLECTOR.to_string(),
                percentage: "not-a-number".to_string(),
            }],
            is_active: true,
        },
    )
    .unwrap_err();
    match err {
        ContractError::InvalidFeePercentage { msg } => assert_eq!(msg, "Invalid decimal format"),
        other => panic!("unexpected error: {:?}", other),
    }

    let err = execute(
        &mut state,
        &env,
        &ADMIN.to_string(),
        ExecuteMsg::SetFeeConfig {
            fee_type: FeeType::Percentage(PERCENT),
            token_type: FeeTokenType::Cw20 { contract_addr: "self".to_string() },
            collectors: vec![FeeCollectorInput {
                address: FEE_COLLECTOR.to_string(),
                percentage: "1.5".to_string(),
            }],
            is_active: true,
        },
    )
    .unwrap_err();
    match err {
        ContractError::InvalidFeePercentage { msg } => {
            assert_eq!(msg, "Percentage must be between 0 and 100")
        }
        other => panic!("unexpected error: {:?}", other),
    }
}

#[test]
fn inactive_fee_config_charges_nothing() {
    let env = mock_env();
    let mut state = fee_token_state();

    execute(
        &mut state,
        &env,
        &ADMIN.to_string(),
        ExecuteMsg::SetFeeConfig {
            fee_type: FeeType::Percentage(PERCENT),
            token_type: FeeTokenType::Cw20 { contract_addr: "self".to_string() },
            collectors: vec![FeeCollectorInput {
                address: FEE_COLLECTOR.to_string(),
                percentage: "1.0".to_string(),
            }],
            is_active: false,
        },
    )
    .unwrap();

    execute(
        &mut state,
        &env,
        &USER1.to_string(),
        ExecuteMsg::Transfer { recipient: "plain-recipient".to_string(), amount: 100000000 },
    )
    .unwrap();
    assert_eq!(query_balance(&state, "plain-recipient".to_string()).balance, 100000000);
    assert_eq!(query_balance(&state, FEE_COLLECTOR.to_string()).balance, 0);
}

#[test]
fn apply_fee_transfers_credits_each_share() {
    let env = mock_env();
    let mut state = fee_token_state();

    execute(
        &mut state,
        &env,
        &ADMIN.to_string(),
        ExecuteMsg::SetFeeConfig {
            fee_type: FeeType::Percentage(5 * PERCENT),
            token_type: FeeTokenType::Cw20 { contract_addr: "self".to_string() },
            collectors: vec![
                FeeCollectorInput {
                    address: FEE_COLLECTOR.to_string(),
                    percentage: "0.6".to_string(),
                },
                FeeCollectorInput { address: ADMIN.to_string(), percentage: "0.4".to_string() },
            ],
            is_active: true,
        },
    )
    .unwrap();

    // The standalone distribution helper writes each share into the ledger
    // directly: 60% and 40% of a 5,000,000 fee.
    iup_token::fee::apply_fee_transfers(&mut state.balances, &state.fee_config, 5_000_000)
        .unwrap();
    assert_eq!(query_balance(&state, FEE_COLLECTOR.to_string()).balance, 3_000_000);
    assert_eq!(query_balance(&state, ADMIN.to_string()).balance, 1_000_000_000 + 2_000_000);
}
