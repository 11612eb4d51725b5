use cosmwasm_std::testing::{mock_env, MockApi};
use cosmwasm_std::{Api, StdError};
use plinko::common::{Coin, ContractResponse, Message};
use plinko::purchase_contract::contract::{
    execute_fund_house, execute_purchase, execute_update_exchange_rate, execute_update_treasury,
    instantiate, query_config, query_preview_purchase, query_stats, try_execute_purchase,
};
use plinko::purchase_contract::error::ContractError;
use plinko::purchase_contract::msg::InstantiateMsg;
use plinko::purchase_contract::state::{Config, Stats};

const SUBDENOM: &str = "plink";
const TOKEN_NAME: &str = "Plink Token";
const TOKEN_SYMBOL: &str = "PLINK";

fn contract_address() -> String {
    mock_env().contract.address.to_string()
}

fn addr(api: &MockApi, name: &str) -> String {
    api.addr_make(name).to_string()
}

fn validate(api: &MockApi, address: &str) -> Result<String, StdError> {
    api.addr_validate(address).map(|a| a.to_string())
}

fn setup_contract(api: &MockApi, admin: &str, treasury: &str) -> Result<(Config, Stats, ContractResponse), ContractError> {
    let msg = InstantiateMsg {
        subdenom: SUBDENOM.to_string(),
        token_name: TOKEN_NAME.to_string(),
        token_symbol: TOKEN_SYMBOL.to_string(),
        token_decimals: 6,
        treasury_address: treasury.to_string(),
        exchange_rate: 100, // 1 INJ = 100 tokens
    };
    let treasury = validate(api, &msg.treasury_address);
    instantiate(&contract_address(), &admin.to_string(), msg, treasury)
}

fn coins(amount: u128, denom: &str) -> Vec<Coin> {
    vec![Coin { denom: denom.to_string(), amount }]
}

fn attributes(res: &ContractResponse) -> Vec<(String, String)> {
    res.attributes.iter().map(|a| (a.key.clone(), a.value.clone())).collect()
}

fn pairs(expected: &[(&str, &str)]) -> Vec<(String, String)> {
    expected.iter().map(|(k, v)| (k.to_string(), v.to_string())).collect()
}

fn purchase(config: &Config, stats: &Stats, buyer: &str, funds: Vec<Coin>) -> Result<(Stats, ContractResponse), ContractError> {
    execute_purchase(config, stats, &contract_address(), &buyer.to_string(), &funds)
}

fn fund_house(api: &MockApi, config: &Config, stats: &Stats, sender: &str, game: &str, amount: u128) -> Result<(Stats, ContractResponse), ContractError> {
    execute_fund_house(config, stats, &contract_address(), &sender.to_string(), game.to_string(), validate(api, game), amount)
}

#[test]
fn tests_test_instantiate() {
    let api = MockApi::default();
    let admin = addr(&api, "admin");
    let treasury = addr(&api, "treasury");
    let (config, stats, res) = setup_contract(&api, &admin, &treasury).unwrap();

    // Should have 2 messages: create denom + set metadata
    assert_eq!(res.messages.len(), 2);

    let expected_denom = format!("factory/{}/{}", mock_env().contract.address, SUBDENOM);

    assert_eq!(
        attributes(&res),
        pairs(&[("action", "instantiate"), ("token_denom", &expected_denom), ("exchange_rate", "100")])
    );

    // Check config
    let config = query_config(&config);
    assert_eq!(config.token_denom, expected_denom);
    assert_eq!(config.token_name, TOKEN_NAME);
    assert_eq!(config.token_symbol, TOKEN_SYMBOL);
    assert_eq!(config.token_decimals, 6);
    assert_eq!(config.treasury_address, treasury);
    assert_eq!(config.exchange_rate, 100);
    assert_eq!(config.admin, admin);

    // Check stats
    let stats = query_stats(&stats);
    assert_eq!(stats.total_inj_received, 0);
    assert_eq!(stats.total_tokens_minted, 0);
    assert_eq!(stats.total_purchases, 0);
    assert_eq!(stats.total_house_funding, 0);
}

#[test]
fn test_instantiate_invalid_exchange_rate() {
    let api = MockApi::default();
    let admin = addr(&api, "admin");
    let treasury = addr(&api, "treasury");

    let msg = InstantiateMsg {
        subdenom: SUBDENOM.to_string(),
        token_name: TOKEN_NAME.to_string(),
        token_symbol: TOKEN_SYMBOL.to_string(),
        token_decimals: 6,
        treasury_address: treasury.to_string(),
        exchange_rate: 0,
    };
    let validated = validate(&api, &msg.treasury_address);
    let err = instantiate(&contract_address(), &admin, msg, validated).unwrap_err();

    assert!(matches!(err, ContractError::InvalidExchangeRate {}));
}

#[test]
fn test_purchase() {
    let api = MockApi::default();
    let admin = addr(&api, "admin");
    let buyer = addr(&api, "buyer");
    let treasury = addr(&api, "treasury");
    let (config, stats, _) = setup_contract(&api, &admin, &treasury).unwrap();

    // Purchase with 10 INJ
    let (stats, res) = purchase(&config, &stats, &buyer, coins(10_000000000000000000, "inj")).unwrap();

    // Should have 2 messages: mint tokens + send INJ to treasury
    assert_eq!(res.messages.len(), 2);

    // Check attributes
    assert_eq!(
        attributes(&res),
        pairs(&[
            ("action", "purchase"),
            ("buyer", &buyer),
            ("inj_amount", "10000000000000000000"),
            ("token_amount", "1000000000000000000000"),
        ])
    );

    // Check stats updated
    let stats = query_stats(&stats);
    assert_eq!(stats.total_inj_received, 10_000000000000000000);
    assert_eq!(stats.total_tokens_minted, 1000_000000000000000000);
    assert_eq!(stats.total_purchases, 1);
    assert_eq!(stats.total_house_funding, 0);
}

#[test]
fn test_purchase_no_funds() {
    let api = MockApi::default();
    let admin = addr(&api, "admin");
    let treasury = addr(&api, "treasury");
    let buyer = addr(&api, "buyer");
    let (config, stats, _) = setup_contract(&api, &admin, &treasury).unwrap();

    let err = purchase(&config, &stats, &buyer, vec![]).unwrap_err();

    assert!(matches!(err, ContractError::NoFundsSent {}));
}

#[test]
fn test_purchase_wrong_denom() {
    let api = MockApi::default();
    let admin = addr(&api, "admin");
    let treasury = addr(&api, "treasury");
    let buyer = addr(&api, "buyer");
    let (config, stats, _) = setup_contract(&api, &admin, &treasury).unwrap();

    let err = purchase(&config, &stats, &buyer, coins(10_000000000000000000, "wrong_denom")).unwrap_err();

    assert!(matches!(err, ContractError::NoFundsSent {}));
}

#[test]
fn test_multiple_purchases() {
    let api = MockApi::default();
    let admin = addr(&api, "admin");
    let treasury = addr(&api, "treasury");
    let buyer = addr(&api, "buyer");
    let (config, stats, _) = setup_contract(&api, &admin, &treasury).unwrap();

    // First purchase: 5 INJ
    let (stats, _) = purchase(&config, &stats, &buyer, coins(5_000000000000000000, "inj")).unwrap();
    // Second purchase: 3 INJ
    let (stats, _) = purchase(&config, &stats, &buyer, coins(3_000000000000000000, "inj")).unwrap();

    let stats = query_stats(&stats);
    assert_eq!(stats.total_inj_received, 8_000000000000000000);
    assert_eq!(stats.total_tokens_minted, 800_000000000000000000);
    assert_eq!(stats.total_purchases, 2);
}

#[test]
fn test_fund_house() {
    let api = MockApi::default();
    let admin = addr(&api, "admin");
    let treasury = addr(&api, "treasury");
    let game = addr(&api, "game");
    let (config, stats, _) = setup_contract(&api, &admin, &treasury).unwrap();

    let (stats, res) = fund_house(&api, &config, &stats, &admin, &game, 1000_000000000000000000).unwrap();

    // Should have 1 message: mint tokens to game contract
    assert_eq!(res.messages.len(), 1);

    assert_eq!(
        attributes(&res),
        pairs(&[("action", "fund_house"), ("game_contract", &game), ("amount", "1000000000000000000000")])
    );

    let stats = query_stats(&stats);
    assert_eq!(stats.total_tokens_minted, 1000_000000000000000000);
    assert_eq!(stats.total_house_funding, 1000_000000000000000000);
    assert_eq!(stats.total_purchases, 0);
}

#[test]
fn test_fund_house_unauthorized() {
    let api = MockApi::default();
    let admin = addr(&api, "admin");
    let treasury = addr(&api, "treasury");
    let buyer = addr(&api, "buyer");
    let game = addr(&api, "game");
    let (config, stats, _) = setup_contract(&api, &admin, &treasury).unwrap();

    let err = fund_house(&api, &config, &stats, &buyer, &game, 1000_000000000000000000).unwrap_err();

    assert!(matches!(err, ContractError::Unauthorized {}));
}

#[test]
fn test_fund_house_zero_amount() {
    let api = MockApi::default();
    let admin = addr(&api, "admin");
    let treasury = addr(&api, "treasury");
    let game = addr(&api, "game");
    let (config, stats, _) = setup_contract(&api, &admin, &treasury).unwrap();

    let err = fund_house(&api, &config, &stats, &admin, &game, 0).unwrap_err();

    assert!(matches!(err, ContractError::InvalidAmount {}));
}

#[test]
fn test_fund_house_multiple_times() {
    let api = MockApi::default();
    let admin = addr(&api, "admin");
    let treasury = addr(&api, "treasury");
    let game = addr(&api, "game");
    let (config, stats, _) = setup_contract(&api, &admin, &treasury).unwrap();

    let (stats, _) = fund_house(&api, &config, &stats, &admin, &game, 500_000000000000000000).unwrap();
    let (stats, _) = fund_house(&api, &config, &stats, &admin, &game, 300_000000000000000000).unwrap();

    let stats = query_stats(&stats);
    assert_eq!(stats.total_tokens_minted, 800_000000000000000000);
    assert_eq!(stats.total_house_funding, 800_000000000000000000);
}

#[test]
fn test_combined_purchases_and_funding() {
    let api = MockApi::default();
    let admin = addr(&api, "admin");
    let treasury = addr(&api, "treasury");
    let buyer = addr(&api, "buyer");
    let game = addr(&api, "game");
    let (config, stats, _) = setup_contract(&api, &admin, &treasury).unwrap();

    // Purchase
    let (stats, _) = purchase(&config, &stats, &buyer, coins(10_000000000000000000, "inj")).unwrap();
    // Fund house
    let (stats, _) = fund_house(&api, &config, &stats, &admin, &game, 500_000000000000000000).unwrap();

    let stats = query_stats(&stats);
    assert_eq!(stats.total_inj_received, 10_000000000000000000);
    assert_eq!(stats.total_tokens_minted, 1500_000000000000000000); // 1000 from purchase + 500 from funding
    assert_eq!(stats.total_purchases, 1);
    assert_eq!(stats.total_house_funding, 500_000000000000000000);
}

#[test]
fn test_update_exchange_rate() {
    let api = MockApi::default();
    let admin = addr(&api, "admin");
    let treasury = addr(&api, "treasury");
    let buyer = addr(&api, "buyer");
    let (config, stats, _) = setup_contract(&api, &admin, &treasury).unwrap();

    let new_rate = 200;
    let (config, res) = execute_update_exchange_rate(config, &admin, new_rate).unwrap();

    assert_eq!(attributes(&res), pairs(&[("action", "update_exchange_rate"), ("new_rate", "200")]));

    // Check config
    assert_eq!(query_config(&config).exchange_rate, new_rate);

    // Test purchase with new rate
    let (_, res) = purchase(&config, &stats, &buyer, coins(10_000000000000000000, "inj")).unwrap();

    // Should get 10 * 200 = 2000 tokens
    assert_eq!(
        attributes(&res),
        pairs(&[
            ("action", "purchase"),
            ("buyer", &buyer),
            ("inj_amount", "10000000000000000000"),
            ("token_amount", "2000000000000000000000"),
        ])
    );
}

#[test]
fn test_update_exchange_rate_unauthorized() {
    let api = MockApi::default();
    let admin = addr(&api, "admin");
    let treasury = addr(&api, "treasury");
    let buyer = addr(&api, "buyer");
    let (config, _, _) = setup_contract(&api, &admin, &treasury).unwrap();

    let err = execute_update_exchange_rate(config, &buyer, 200).unwrap_err();

    assert!(matches!(err, ContractError::Unauthorized {}));
}

#[test]
fn test_update_exchange_rate_zero() {
    let api = MockApi::default();
    let admin = addr(&api, "admin");
    let treasury = addr(&api, "treasury");
    let (config, _, _) = setup_contract(&api, &admin, &treasury).unwrap();

    let err = execute_update_exchange_rate(config, &admin, 0).unwrap_err();

    assert!(matches!(err, ContractError::InvalidExchangeRate {}));
}

#[test]
fn test_update_treasury() {
    let api = MockApi::default();
    let admin = addr(&api, "admin");
    let treasury = addr(&api, "treasury");
    let new_treasury = addr(&api, "new_treasury");
    let (config, _, _) = setup_contract(&api, &admin, &treasury).unwrap();

    let validated = validate(&api, &new_treasury);
    let (config, res) = execute_update_treasury(config, &admin, new_treasury.clone(), validated).unwrap();

    assert_eq!(attributes(&res), pairs(&[("action", "update_treasury"), ("new_treasury", &new_treasury)]));

    // Check config
    assert_eq!(query_config(&config).treasury_address, new_treasury);
}

#[test]
fn test_update_treasury_unauthorized() {
    let api = MockApi::default();
    let admin = addr(&api, "admin");
    let treasury = addr(&api, "treasury");
    let buyer = addr(&api, "buyer");
    let (config, _, _) = setup_contract(&api, &admin, &treasury).unwrap();

    let validated = validate(&api, "new_treasury");
    let err = execute_update_treasury(config, &buyer, "new_treasury".to_string(), validated).unwrap_err();

    assert!(matches!(err, ContractError::Unauthorized {}));
}

#[test]
fn test_preview_purchase() {
    let api = MockApi::default();
    let admin = addr(&api, "admin");
    let treasury = addr(&api, "treasury");
    let (config, _, _) = setup_contract(&api, &admin, &treasury).unwrap();

    let preview = query_preview_purchase(&config, 10_000000000000000000);

    assert_eq!(preview.inj_amount, 10_000000000000000000);
    assert_eq!(preview.token_amount, 1000_000000000000000000);
    assert_eq!(preview.exchange_rate, 100);
}

#[test]
fn test_preview_purchase_different_amounts() {
    let api = MockApi::default();
    let admin = addr(&api, "admin");
    let treasury = addr(&api, "treasury");
    let (config, _, _) = setup_contract(&api, &admin, &treasury).unwrap();
    // Test various amounts
    let test_cases = vec![
        (1_000000000000000000u128, 100_000000000000000000u128),
        (5_000000000000000000u128, 500_000000000000000000u128),
        (100_000000000000000000u128, 10000_000000000000000000u128),
    ];

    for (inj_amount, expected_tokens) in test_cases {
        let preview = query_preview_purchase(&config, inj_amount);
        assert_eq!(preview.token_amount, expected_tokens);
    }
}

#[test]
fn test_preview_purchase_after_rate_change() {
    let api = MockApi::default();
    let admin = addr(&api, "admin");
    let treasury = addr(&api, "treasury");
    let (config, _, _) = setup_contract(&api, &admin, &treasury).unwrap();

    // Update exchange rate to 200
    let (config, _) = execute_update_exchange_rate(config, &admin, 200).unwrap();

    // Preview should reflect new rate
    let preview = query_preview_purchase(&config, 10_000000000000000000);
    assert_eq!(preview.token_amount, 2000_000000000000000000);
    assert_eq!(preview.exchange_rate, 200);
}

#[test]
fn instantiate_reports_invalid_treasury_before_rate() {
    let api = MockApi::default();
    let admin = addr(&api, "admin");
    let msg = InstantiateMsg {
        subdenom: SUBDENOM.to_string(),
        token_name: TOKEN_NAME.to_string(),
        token_symbol: TOKEN_SYMBOL.to_string(),
        token_decimals: 6,
        treasury_address: "not an address".to_string(),
        exchange_rate: 0,
    };
    let validated = validate(&api, &msg.treasury_address);
    let err = instantiate(&contract_address(), &admin, msg, validated).unwrap_err();
    assert!(matches!(err, ContractError::Std(_)));
}

#[test]
fn purchase_messages_mint_to_buyer_and_pay_treasury() {
    let api = MockApi::default();
    let admin = addr(&api, "admin");
    let treasury = addr(&api, "treasury");
    let buyer = addr(&api, "buyer");
    let (config, stats, _) = setup_contract(&api, &admin, &treasury).unwrap();
    // Only the first `inj` coin counts.
    let funds = vec![
        Coin { denom: "uatom".to_string(), amount: 7 },
        Coin { denom: "inj".to_string(), amount: 3 },
        Coin { denom: "inj".to_string(), amount: 9 },
    ];
    let (stats, res) = purchase(&config, &stats, &buyer, funds).unwrap();
    assert_eq!(stats.total_inj_received, 3);
    assert_eq!(stats.total_tokens_minted, 300);
    match &res.messages[0] {
        Message::MintTokens { sender, denom, amount, mint_to } => {
            assert_eq!(sender, &contract_address());
            assert_eq!(denom, &config.token_denom);
            assert_eq!(*amount, 300);
            assert_eq!(mint_to, &buyer);
        }
        other => panic!("unexpected message {:?}", other),
    }
    match &res.messages[1] {
        Message::BankSend { to_address, denom, amount } => {
            assert_eq!(to_address, &treasury);
            assert_eq!(denom, "inj");
            assert_eq!(*amount, 3);
        }
        other => panic!("unexpected message {:?}", other),
    }
}

#[test]
fn purchase_overflow_is_refused() {
    let api = MockApi::default();
    let admin = addr(&api, "admin");
    let treasury = addr(&api, "treasury");
    let buyer = addr(&api, "buyer");
    let (config, stats, _) = setup_contract(&api, &admin, &treasury).unwrap();
    let err = purchase(&config, &stats, &buyer, coins(u128::MAX / 50, "inj")).unwrap_err();
    assert!(matches!(err, ContractError::OverflowError {}));
    // The preview of an overflowing amount shows zero.
    assert_eq!(query_preview_purchase(&config, u128::MAX / 50).token_amount, 0);
}

#[test]
fn fund_house_invalid_game_address() {
    let api = MockApi::default();
    let admin = addr(&api, "admin");
    let treasury = addr(&api, "treasury");
    let (config, stats, _) = setup_contract(&api, &admin, &treasury).unwrap();
    let err = fund_house(&api, &config, &stats, &admin, "bad address", 5).unwrap_err();
    assert!(matches!(err, ContractError::Std(_)));
    // Admin and amount are checked first.
    let err = fund_house(&api, &config, &stats, &admin, "bad address", 0).unwrap_err();
    assert!(matches!(err, ContractError::InvalidAmount {}));
}

#[test]
fn totals_stay_consistent_over_operations() {
    let api = MockApi::default();
    let admin = addr(&api, "admin");
    let treasury = addr(&api, "treasury");
    let buyer = addr(&api, "buyer");
    let game = addr(&api, "game");
    let (config, stats, _) = setup_contract(&api, &admin, &treasury).unwrap();
    let (stats, _) = purchase(&config, &stats, &buyer, coins(7, "inj")).unwrap();
    let (stats, _) = fund_house(&api, &config, &stats, &admin, &game, 11).unwrap();
    let (config, _) = execute_update_exchange_rate(config, &admin, 1).unwrap();
    let (stats, _) = purchase(&config, &stats, &buyer, coins(5, "inj")).unwrap();
    assert_eq!(stats.total_inj_received, 12);
    assert_eq!(stats.total_tokens_minted, 700 + 11 + 5);
    assert!(stats.total_inj_received + stats.total_house_funding <= stats.total_tokens_minted);
    assert!((stats.total_purchases as u128) <= stats.total_inj_received);
}

#[test]
fn full_purchase_counter_answers_earlier_checks_first() {
    let api = MockApi::default();
    let admin = addr(&api, "admin");
    let treasury = addr(&api, "treasury");
    let buyer = addr(&api, "buyer");
    let (config, stats, _) = setup_contract(&api, &admin, &treasury).unwrap();
    let full = Stats { total_purchases: u64::MAX, ..stats };
    let run = |s: &Stats, funds: Vec<Coin>| try_execute_purchase(&config, s, &contract_address(), &buyer, &funds);
    assert!(matches!(run(&full, vec![]), Some(Err(ContractError::NoFundsSent {}))));
    assert!(matches!(run(&full, coins(u128::MAX / 50, "inj")), Some(Err(ContractError::OverflowError {}))));
    assert!(run(&full, coins(5, "inj")).is_none());
    let (s, _) = run(&stats, coins(5, "inj")).unwrap().unwrap();
    assert_eq!(s.total_tokens_minted, 500);
}
