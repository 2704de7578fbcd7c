use iup_token::contract::{execute, instantiate, query_balance, query_fee_granter};
use iup_token::error::ContractError;
use iup_token::msg::{ExecuteMsg, InitialBalance, InstantiateMarketingInfo, InstantiateMsg};
use iup_token::state::{BlockInfo, Env, TokenState};

const CREATOR: &str = "cosmos1vlhe6z8r7al2lyzp7n3j2vl5kd28hhrw0vxmxr";
const ADMIN: &str = "cosmos1wztmxhufhy98p3n45yqtwhrxlrr9wkg0tt3a3c";
const USER1: &str = "cosmos1qg9zllptnqvhyvrrvm0j3qjmtc5q6ds7eq0le4";
const FEE_GRANTER: &str = "cosmos1uzsvd5gh4l0wdf6ekufg0nhrgdl3nk7gy5ksy7";

fn mock_env() -> Env {
    Env { block: BlockInfo { height: 12_345, time: 1_571_797_419 } }
}

fn platform_token_state(description: &str) -> TokenState {
    let msg = InstantiateMsg {
        name: "iUPPITER".to_string(),
        symbol: "iUP".to_string(),
        decimals: 6,
        initial_balances: vec![InitialBalance {
            address: ADMIN.to_string(),
            amount: 1000000000000,
        }],
        marketing: Some(InstantiateMarketingInfo {
            project: Some("iUPPITER Project".to_string()),
            description: Some(description.to_string()),
            marketing: None,
            logo: None,
            logo_url_state: Some("https://example.com/logo.png".to_string()),
        }),
        mint: None,
        created_on_platform: Some("iUPPITER Platform".to_string()),
    };
    let (state, _) = instantiate(msg, &CREATOR.to_string()).unwrap();
    state
}

#[test]
fn proper_initialization_with_marketing() {
    let msg = InstantiateMsg {
        name: "iUPPITER".to_string(),
        symbol: "iUP".to_string(),
        decimals: 6,
        initial_balances: vec![InitialBalance {
            address: ADMIN.to_string(),
            amount: 1000000000000,
        }],
        marketing: Some(InstantiateMarketingInfo {
            project: Some("iUPPITER Project".to_string()),
            description: Some("Game Token".to_string()),
            marketing: None,
            logo: None,
            logo_url_state: Some("https://example.com/logo.png".to_string()),
        }),
        mint: None,
        created_on_platform: Some("iUPPITER Platform".to_string()),
    };
    let (state, res) = instantiate(msg, &CREATOR.to_string()).unwrap();
    assert_eq!(4, res.attributes.len());

    let marketing_info = state.marketing_info.as_ref().unwrap();
    assert_eq!(marketing_info.project.as_ref().unwrap(), "iUPPITER Project");

    assert_eq!(
        state.extended_info.created_on_platform.as_ref().unwrap(),
        "iUPPITER Platform"
    );
}

#[test]
fn test_transfer() {
    let env = mock_env();
    let mut state = platform_token_state("Game Token");

    let msg = ExecuteMsg::Transfer { recipient: USER1.to_string(), amount: 100000000 };
    let res = execute(&mut state, &env, &ADMIN.to_string(), msg).unwrap();
    assert_eq!(4, res.attributes.len());

    let res = query_balance(&state, USER1.to_string());
    assert_eq!(100000000, res.balance);
}

#[test]
fn test_fee_granter() {
    let env = mock_env();
    let mut state = platform_token_state("Game Token");

    let msg = ExecuteMsg::SetFeeGranter { address: Some(FEE_GRANTER.to_string()) };
    let res = execute(&mut state, &env, &ADMIN.to_string(), msg).unwrap();
    assert_eq!(3, res.attributes.len());

    let res = query_fee_granter(&state);
    assert_eq!(Some(FEE_GRANTER.to_string()), res.fee_granter);

    let msg = ExecuteMsg::SetFeeGranter { address: None };
    let res = execute(&mut state, &env, &ADMIN.to_string(), msg).unwrap();
    assert_eq!(3, res.attributes.len());

    let res = query_fee_granter(&state);
    assert_eq!(None, res.fee_granter);
}

#[test]
fn test_unauthorized_fee_granter() {
    let env = mock_env();
    let mut state = platform_token_state("Game Token");

    let msg = ExecuteMsg::SetFeeGranter { address: Some(FEE_GRANTER.to_string()) };
    let err = execute(&mut state, &env, &USER1.to_string(), msg).unwrap_err();
    match err {
        ContractError::Unauthorized {} => {}
        _ => panic!("Expected Unauthorized error"),
    }
}

#[test]
fn test_upgrade_admin() {
    let env = mock_env();
    let mut state = platform_token_state("Game Platform Token");

    let set_admin_msg = ExecuteMsg::SetUpgradeAdmin { address: USER1.to_string() };
    let res = execute(&mut state, &env, &ADMIN.to_string(), set_admin_msg).unwrap();
    assert_eq!(2, res.attributes.len());
}

#[test]
fn fee_granter_cannot_be_the_admin() {
    let env = mock_env();
    let mut state = platform_token_state("Game Token");

    let msg = ExecuteMsg::SetFeeGranter { address: Some(ADMIN.to_string()) };
    let err = execute(&mut state, &env, &ADMIN.to_string(), msg).unwrap_err();
    assert!(matches!(err, ContractError::CannotSetOwnAccount {}));
}

#[test]
fn upgrade_admin_may_rewrite_fee_config() {
    let env = mock_env();
    let mut state = platform_token_state("Game Token");

    execute(
        &mut state,
        &env,
        &ADMIN.to_string(),
        ExecuteMsg::SetUpgradeAdmin { address: USER1.to_string() },
    )
    .unwrap();

    // Once granted, the upgrade admin may set the fee configuration.
    execute(
        &mut state,
        &env,
        &USER1.to_string(),
        ExecuteMsg::SetFeeConfig {
            fee_type: iup_token::state::FeeType::Percentage(10_000_000_000_000_000),
            token_type: iup_token::state::FeeTokenType::Cw20 {
                contract_addr: "self".to_string(),
            },
            collectors: vec![iup_token::msg::FeeCollectorInput {
                address: FEE_GRANTER.to_string(),
                percentage: "1.0".to_string(),
            }],
            is_active: true,
        },
    )
    .unwrap();
    assert!(state.fee_config.as_ref().unwrap().is_active);
}

#[test]
fn send_notifies_the_recipient_contract() {
    let env = mock_env();
    let mut state = platform_token_state("Game Token");

    let payload = vec![1u8, 2, 3];
    let res = execute(
        &mut state,
        &env,
        &ADMIN.to_string(),
        ExecuteMsg::Send {
            contract: USER1.to_string(),
            amount: 5000,
            msg: payload.clone(),
        },
    )
    .unwrap();

    assert_eq!(query_balance(&state, USER1.to_string()).balance, 5000);
    assert_eq!(res.messages.len(), 1);
    match &res.messages[0] {
        iup_token::response::OutMsg::Cw20Receive { contract, sender, amount, msg } => {
            assert_eq!(contract, USER1);
            assert_eq!(sender, ADMIN);
            assert_eq!(*amount, 5000);
            assert_eq!(*msg, payload);
        }
        other => panic!("unexpected message: {:?}", other),
    }
}

#[test]
fn update_config_respects_the_kill_switch() {
    let env = mock_env();
    let mut state = platform_token_state("Game Token");

    let fresh_config = iup_token::msg::ConfigInfo {
        is_upgrade_allowed: false,
        upgrade_admin: None,
        marketing: None,
        minter: None,
        transfer_fee: None,
        fee_collector: None,
        max_supply: None,
    };
    let res = execute(
        &mut state,
        &env,
        &ADMIN.to_string(),
        ExecuteMsg::UpdateConfig { new_config: Box::new(Some(fresh_config)) },
    )
    .unwrap();
    assert_eq!(6, res.attributes.len());
    assert!(!state.config.is_upgrade_allowed);

    // With the kill-switch off, even the admin may not reconfigure.
    let second = iup_token::msg::ConfigInfo {
        is_upgrade_allowed: true,
        upgrade_admin: None,
        marketing: None,
        minter: None,
        transfer_fee: None,
        fee_collector: None,
        max_supply: None,
    };
    let err = execute(
        &mut state,
        &env,
        &ADMIN.to_string(),
        ExecuteMsg::UpdateConfig { new_config: Box::new(Some(second)) },
    )
    .unwrap_err();
    assert!(matches!(err, ContractError::ConfigUpdateNotAllowed {}));

    let err = execute(
        &mut state,
        &env,
        &ADMIN.to_string(),
        ExecuteMsg::SetFeeGranter { address: Some(FEE_GRANTER.to_string()) },
    )
    .unwrap_err();
    assert!(matches!(err, ContractError::ConfigUpdateNotAllowed {}));

    // The kill-switch also blocks fee configuration and the upgrade-admin
    // grant, even for the admin.
    let err = execute(
        &mut state,
        &env,
        &ADMIN.to_string(),
        ExecuteMsg::SetFeeConfig {
            fee_type: iup_token::state::FeeType::Percentage(10_000_000_000_000_000),
            token_type: iup_token::state::FeeTokenType::Cw20 {
                contract_addr: "self".to_string(),
            },
            collectors: vec![iup_token::msg::FeeCollectorInput {
                address: FEE_GRANTER.to_string(),
                percentage: "1.0".to_string(),
            }],
            is_active: true,
        },
    )
    .unwrap_err();
    assert!(matches!(err, ContractError::ConfigUpdateNotAllowed {}));

    let err = execute(
        &mut state,
        &env,
        &ADMIN.to_string(),
        ExecuteMsg::SetUpgradeAdmin { address: USER1.to_string() },
    )
    .unwrap_err();
    assert!(matches!(err, ContractError::ConfigUpdateNotAllowed {}));
}

#[test]
fn upgrade_admin_may_designate_the_fee_granter() {
    let env = mock_env();
    let mut state = platform_token_state("Game Token");

    execute(
        &mut state,
        &env,
        &ADMIN.to_string(),
        ExecuteMsg::SetUpgradeAdmin { address: USER1.to_string() },
    )
    .unwrap();

    // The upgrade admin holds equal rights over the fee-granter operation.
    execute(
        &mut state,
        &env,
        &USER1.to_string(),
        ExecuteMsg::SetFeeGranter { address: Some(FEE_GRANTER.to_string()) },
    )
    .unwrap();
    assert_eq!(query_fee_granter(&state).fee_granter, Some(FEE_GRANTER.to_string()));
}

#[test]
fn update_config_requires_fee_collector_with_transfer_fee() {
    let env = mock_env();
    let mut state = platform_token_state("Game Token");

    let bad = iup_token::msg::ConfigInfo {
        is_upgrade_allowed: true,
        upgrade_admin: None,
        marketing: None,
        minter: None,
        transfer_fee: Some(100),
        fee_collector: None,
        max_supply: None,
    };
    let err = execute(
        &mut state,
        &env,
        &ADMIN.to_string(),
        ExecuteMsg::UpdateConfig { new_config: Box::new(Some(bad)) },
    )
    .unwrap_err();
    match err {
        ContractError::InvalidConfig { msg } => {
            assert_eq!(msg, "Fee collector must be set when transfer fee is enabled");
        }
        other => panic!("unexpected error: {:?}", other),
    }

    let err = execute(
        &mut state,
        &env,
        &ADMIN.to_string(),
        ExecuteMsg::UpdateConfig { new_config: Box::new(None) },
    )
    .unwrap_err();
    assert!(matches!(err, ContractError::InvalidConfig { .. }));
}

#[test]
fn marketing_update_clears_blank_fields() {
    let env = mock_env();
    let msg = InstantiateMsg {
        name: "iUPPITER".to_string(),
        symbol: "iUP".to_string(),
        decimals: 6,
        initial_balances: vec![InitialBalance {
            address: ADMIN.to_string(),
            amount: 1000000000000,
        }],
        marketing: Some(InstantiateMarketingInfo {
            project: Some("iUPPITER Project".to_string()),
            description: Some("Game Token".to_string()),
            marketing: Some(ADMIN.to_string()),
            logo: None,
            logo_url_state: None,
        }),
        mint: None,
        created_on_platform: None,
    };
    let (mut state, _) = instantiate(msg, &CREATOR.to_string()).unwrap();

    execute(
        &mut state,
        &env,
        &ADMIN.to_string(),
        ExecuteMsg::UpdateMarketing {
            project: Some("   ".to_string()),
            description: Some("A fresh description".to_string()),
            marketing: None,
        },
    )
    .unwrap();

    let mi = state.marketing_info.as_ref().unwrap();
    assert_eq!(mi.project, None);
    assert_eq!(mi.description.as_ref().unwrap(), "A fresh description");
    assert_eq!(mi.marketing.as_ref().unwrap(), ADMIN);

    // Only the marketing address may update.
    let err = execute(
        &mut state,
        &env,
        &USER1.to_string(),
        ExecuteMsg::UpdateMarketing {
            project: None,
            description: Some("hijack".to_string()),
            marketing: None,
        },
    )
    .unwrap_err();
    assert!(matches!(err, ContractError::Unauthorized {}));
}

#[test]
fn update_config_mirrors_minter_and_checks_max_supply() {
    let env = mock_env();
    let mut state = platform_token_state("Game Token");

    // A maximum below the current supply is rejected.
    let bad = iup_token::msg::ConfigInfo {
        is_upgrade_allowed: true,
        upgrade_admin: None,
        marketing: None,
        minter: None,
        transfer_fee: None,
        fee_collector: None,
        max_supply: Some(1),
    };
    let err = execute(
        &mut state,
        &env,
        &ADMIN.to_string(),
        ExecuteMsg::UpdateConfig { new_config: Box::new(Some(bad)) },
    )
    .unwrap_err();
    assert!(matches!(err, ContractError::InvalidAmount {}));

    // A minter named in the configuration is mirrored into the token info.
    let with_minter = iup_token::msg::ConfigInfo {
        is_upgrade_allowed: true,
        upgrade_admin: None,
        marketing: None,
        minter: Some(iup_token::msg::MinterResponse {
            minter: USER1.to_string(),
            cap: Some(2_000_000_000_000),
        }),
        transfer_fee: None,
        fee_collector: None,
        max_supply: None,
    };
    execute(
        &mut state,
        &env,
        &ADMIN.to_string(),
        ExecuteMsg::UpdateConfig { new_config: Box::new(Some(with_minter)) },
    )
    .unwrap();
    let mint = state.token_info.mint.as_ref().unwrap();
    assert_eq!(mint.minter, USER1);
    assert_eq!(mint.cap, Some(2_000_000_000_000));

    // The fresh minter may now mint.
    execute(
        &mut state,
        &env,
        &USER1.to_string(),
        ExecuteMsg::Mint { recipient: USER1.to_string(), amount: 5 },
    )
    .unwrap();
    assert_eq!(query_balance(&state, USER1.to_string()).balance, 5);
}
