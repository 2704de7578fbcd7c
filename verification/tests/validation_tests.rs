use iup_token::contract::{
    execute, instantiate, verify_logo, verify_png_logo, verify_xml_logo, verify_xml_preamble,
};
use iup_token::enumerable::{query_all_accounts, query_owner_allowances};
use iup_token::error::ContractError;
use iup_token::msg::{ExecuteMsg, InitialBalance, InstantiateMsg, MinterResponse};
use iup_token::state::{BlockInfo, EmbeddedLogo, Env, Logo};

const CREATOR: &str = "cosmos1vlhe6z8r7al2lyzp7n3j2vl5kd28hhrw0vxmxr";

fn base_msg() -> InstantiateMsg {
    InstantiateMsg {
        name: "Token".to_string(),
        symbol: "TKN".to_string(),
        decimals: 6,
        initial_balances: vec![],
        mint: None,
        marketing: None,
        created_on_platform: None,
    }
}

fn mock_env() -> Env {
    Env { block: BlockInfo { height: 12_345, time: 1_571_797_419 } }
}

#[test]
fn decimals_boundary() {
    let mut msg = base_msg();
    msg.decimals = 18;
    assert!(msg.validate().is_ok());

    msg.decimals = 19;
    match msg.validate().unwrap_err() {
        ContractError::Generic { msg } => assert_eq!(msg, "Decimals must not exceed 18"),
        other => panic!("unexpected error: {:?}", other),
    }
}

#[test]
fn symbol_boundaries() {
    let mut msg = base_msg();
    msg.symbol = "ABC".to_string();
    assert!(msg.validate().is_ok());
    msg.symbol = "ABCDEFGHIJKL".to_string();
    assert!(msg.validate().is_ok());
    msg.symbol = "a-Z".to_string();
    assert!(msg.validate().is_ok());

    msg.symbol = "AB".to_string();
    assert!(msg.validate().is_err());
    msg.symbol = "ABCDEFGHIJKLM".to_string();
    assert!(msg.validate().is_err());
    msg.symbol = "AB1".to_string();
    assert!(msg.validate().is_err());
    msg.symbol = "AB ".to_string();
    assert!(msg.validate().is_err());
}

#[test]
fn name_boundaries() {
    let mut msg = base_msg();
    msg.name = "abc".to_string();
    assert!(msg.validate().is_ok());
    msg.name = "a".repeat(50);
    assert!(msg.validate().is_ok());

    msg.name = "ab".to_string();
    assert!(msg.validate().is_err());
    msg.name = "a".repeat(51);
    assert!(msg.validate().is_err());
}

#[test]
fn initial_supply_respects_the_cap() {
    let mut msg = base_msg();
    msg.initial_balances = vec![InitialBalance { address: CREATOR.to_string(), amount: 1_001 }];
    msg.mint = Some(MinterResponse { minter: CREATOR.to_string(), cap: Some(1_000) });
    match instantiate(msg, &CREATOR.to_string()).unwrap_err() {
        ContractError::Generic { msg } => assert_eq!(msg, "Initial supply greater than cap"),
        other => panic!("unexpected error: {:?}", other),
    }

    let mut msg = base_msg();
    msg.initial_balances = vec![InitialBalance { address: CREATOR.to_string(), amount: 1_000 }];
    msg.mint = Some(MinterResponse { minter: CREATOR.to_string(), cap: Some(1_000) });
    let (state, _) = instantiate(msg, &CREATOR.to_string()).unwrap();
    assert_eq!(state.token_info.total_supply, 1_000);
}

#[test]
fn png_logo_header_and_size() {
    let mut good = vec![0x89, b'P', b'N', b'G', 0x0d, 0x0a, 0x1a, 0x0a];
    good.extend(vec![0u8; 100]);
    assert!(verify_png_logo(&good).is_ok());

    let bad_header = vec![0u8; 100];
    assert!(matches!(
        verify_png_logo(&bad_header).unwrap_err(),
        ContractError::InvalidPngHeader {}
    ));

    let mut too_big = vec![0x89, b'P', b'N', b'G', 0x0d, 0x0a, 0x1a, 0x0a];
    too_big.extend(vec![0u8; 6000]);
    assert!(matches!(verify_png_logo(&too_big).unwrap_err(), ContractError::LogoTooBig {}));
}

#[test]
fn xml_logo_preamble_and_size() {
    let good = b"<?xml version=\"1.0\"?><svg></svg>".to_vec();
    assert!(verify_xml_preamble(&good).is_ok());
    assert!(verify_xml_logo(&good).is_ok());

    let bad = b"<svg></svg>".to_vec();
    assert!(matches!(
        verify_xml_preamble(&bad).unwrap_err(),
        ContractError::InvalidXmlPreamble {}
    ));
    assert!(matches!(
        verify_xml_preamble(&[]).unwrap_err(),
        ContractError::InvalidXmlPreamble {}
    ));

    let mut huge = b"<?xml version=\"1.0\"?>".to_vec();
    huge.extend(vec![b'a'; 6000]);
    assert!(matches!(verify_xml_logo(&huge).unwrap_err(), ContractError::LogoTooBig {}));
}

#[test]
fn url_logo_always_passes() {
    assert!(verify_logo(&Logo::Url("https://example.com/logo.png".to_string())).is_ok());
    assert!(verify_logo(&Logo::Embedded(EmbeddedLogo::Png(vec![1, 2, 3]))).is_err());
}

#[test]
fn upload_logo_requires_marketing_role() {
    let env = mock_env();
    let mut msg = base_msg();
    msg.initial_balances =
        vec![InitialBalance { address: CREATOR.to_string(), amount: 1_000 }];
    msg.marketing = Some(iup_token::msg::InstantiateMarketingInfo {
        project: None,
        description: None,
        marketing: Some(CREATOR.to_string()),
        logo: None,
        logo_url_state: None,
    });
    let (mut state, _) = instantiate(msg, &CREATOR.to_string()).unwrap();

    let mut png = vec![0x89, b'P', b'N', b'G', 0x0d, 0x0a, 0x1a, 0x0a];
    png.extend(vec![0u8; 10]);
    execute(
        &mut state,
        &env,
        &CREATOR.to_string(),
        ExecuteMsg::UploadLogo(Logo::Embedded(EmbeddedLogo::Png(png.clone()))),
    )
    .unwrap();
    assert!(matches!(
        state.marketing_info.as_ref().unwrap().logo,
        Some(iup_token::state::LogoInfo::Embedded)
    ));

    let err = execute(
        &mut state,
        &env,
        &"someone-else".to_string(),
        ExecuteMsg::UploadLogo(Logo::Embedded(EmbeddedLogo::Png(png))),
    )
    .unwrap_err();
    assert!(matches!(err, ContractError::Unauthorized {}));
}

#[test]
fn accounts_and_allowances_paginate() {
    let env = mock_env();
    let mut msg = base_msg();
    msg.initial_balances = vec![
        InitialBalance { address: "addr-a".to_string(), amount: 10 },
        InitialBalance { address: "addr-b".to_string(), amount: 20 },
        InitialBalance { address: "addr-c".to_string(), amount: 30 },
    ];
    let (mut state, _) = instantiate(msg, &CREATOR.to_string()).unwrap();

    let all = query_all_accounts(&state, None, None);
    assert_eq!(all.accounts, vec!["addr-a", "addr-b", "addr-c"]);

    let after_a = query_all_accounts(&state, Some("addr-a".to_string()), None);
    assert_eq!(after_a.accounts, vec!["addr-b", "addr-c"]);

    let first_two = query_all_accounts(&state, None, Some(2));
    assert_eq!(first_two.accounts, vec!["addr-a", "addr-b"]);

    execute(
        &mut state,
        &env,
        &"addr-a".to_string(),
        ExecuteMsg::IncreaseAllowance {
            spender: "spender-x".to_string(),
            amount: 5,
            expires: None,
        },
    )
    .unwrap();
    execute(
        &mut state,
        &env,
        &"addr-a".to_string(),
        ExecuteMsg::IncreaseAllowance {
            spender: "spender-y".to_string(),
            amount: 7,
            expires: None,
        },
    )
    .unwrap();

    let page = query_owner_allowances(&state, "addr-a".to_string(), None, None);
    assert_eq!(page.allowances.len(), 2);
    assert_eq!(page.allowances[0].spender, "spender-x");
    assert_eq!(page.allowances[0].allowance, 5);
    assert_eq!(page.allowances[1].spender, "spender-y");
    assert_eq!(page.allowances[1].allowance, 7);

    let after_x =
        query_owner_allowances(&state, "addr-a".to_string(), Some("spender-x".to_string()), None);
    assert_eq!(after_x.allowances.len(), 1);
    assert_eq!(after_x.allowances[0].spender, "spender-y");

    let spender_side = iup_token::enumerable::query_spender_allowances(
        &state,
        "spender-x".to_string(),
        None,
        None,
    );
    assert_eq!(spender_side.allowances.len(), 1);
    assert_eq!(spender_side.allowances[0].owner, "addr-a");
    assert_eq!(spender_side.allowances[0].allowance, 5);
}

#[test]
fn duplicate_initial_balances_are_rejected() {
    let mut msg = base_msg();
    msg.initial_balances = vec![
        InitialBalance { address: "addr-a".to_string(), amount: 10 },
        InitialBalance { address: "addr-a".to_string(), amount: 20 },
    ];
    // A repeated address would break the supply invariant at creation (the
    // supply would sum both amounts while the ledger kept only one), so the
    // request is rejected outright.
    let err = instantiate(msg, &CREATOR.to_string()).unwrap_err();
    assert!(matches!(err, ContractError::DuplicateInitialBalanceAddresses {}));
}

#[test]
fn rate_strings_match_the_host_decimal_display() {
    let samples: Vec<u128> = vec![
        0,
        1,
        123,
        50_000_000_000_000_000,
        500_000_000_000_000_000,
        600_000_000_000_000_000,
        250_000_000_000_000_000,
        1_000_000_000_000_000_000,
        1_000_000_000_000_000_001,
        1_234_567_890_000_000_000,
        10_000_000_000_000_000,
    ];
    for a in samples {
        let expected =
            cosmwasm_std::Decimal::new(cosmwasm_std::Uint128::new(a)).to_string();
        assert_eq!(iup_token::fmt::rate_to_string(a), expected, "atomics {}", a);
    }
    assert_eq!(iup_token::fmt::u128_to_string(0), "0");
    assert_eq!(iup_token::fmt::u128_to_string(1_000_000), "1000000");
    assert_eq!(iup_token::fmt::u128_to_string(u128::MAX), u128::MAX.to_string());
}
