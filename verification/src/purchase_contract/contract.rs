//! The purchase contract's decisions: what each message does to the stored
//! configuration and totals, which token-factory and bank messages it asks
//! for, and what the queries return.

use cosmwasm_std::StdError;
use vstd::prelude::*;

use crate::common::{
    decimal, decimal_string, find_sent_amount, sent_amount, Coin, ContractResponse, Message,
    MessageView,
};
use crate::purchase_contract::error::ContractError;
use crate::purchase_contract::msg::{
    ConfigResponse, InstantiateMsg, PreviewPurchaseResponse, StatsResponse,
};
use crate::purchase_contract::state::{Config, Stats};

verus! {

/// The denomination paid with.
pub open spec fn inj_denom() -> Seq<char> {
    "inj"@
}

/// The token-factory denomination a contract creates: `factory/{contract}/{subdenom}`.
pub open spec fn factory_denom(contract: Seq<char>, subdenom: Seq<char>) -> Seq<char> {
    "factory/"@ + contract + "/"@ + subdenom
}

/// A configuration the contract can hold: a positive exchange rate.
pub open spec fn config_valid(config: Config) -> bool {
    config.exchange_rate > 0
}

/// The totals agree with how they grow: every token minted was bought with
/// at least one INJ per token or minted as house funding, and every
/// purchase brought at least one INJ.
pub open spec fn stats_consistent(stats: Stats) -> bool {
    &&& stats.total_inj_received + stats.total_house_funding <= stats.total_tokens_minted
    &&& stats.total_purchases <= stats.total_inj_received
}

/// The totals before any purchase or funding.
pub open spec fn initial_stats() -> Stats {
    Stats { total_inj_received: 0, total_tokens_minted: 0, total_purchases: 0, total_house_funding: 0 }
}

/// The totals after a purchase of `tokens` for `inj`.
pub open spec fn stats_after_purchase(stats: Stats, inj: u128, tokens: u128) -> Stats {
    Stats {
        total_inj_received: (stats.total_inj_received + inj) as u128,
        total_tokens_minted: (stats.total_tokens_minted + tokens) as u128,
        total_purchases: (stats.total_purchases + 1) as u64,
        total_house_funding: stats.total_house_funding,
    }
}

/// The totals after minting `amount` to the house.
pub open spec fn stats_after_funding(stats: Stats, amount: u128) -> Stats {
    Stats {
        total_tokens_minted: (stats.total_tokens_minted + amount) as u128,
        total_house_funding: (stats.total_house_funding + amount) as u128,
        ..stats
    }
}

/// Set up the contract: the treasury is the validated address (a failed
/// validation is returned as is), the exchange rate must be positive, the
/// token is the factory denomination of this contract and the subdenom, the
/// sender becomes the admin and the totals start at zero. Asks the chain to
/// create the denomination and set its metadata.
pub fn instantiate(
    contract_address: &String,
    sender: &String,
    msg: InstantiateMsg,
    treasury: Result<String, StdError>,
) -> (result: Result<(Config, Stats, ContractResponse), ContractError>)
    ensures
        treasury is Err ==> (result matches Err(ContractError::Std(e)) && treasury == Err::<String, StdError>(e)),
        treasury is Ok && msg.exchange_rate == 0 ==> result matches Err(ContractError::InvalidExchangeRate {}),
        result is Ok <==> treasury is Ok && msg.exchange_rate != 0,
        result matches Ok((config, stats, response)) ==> {
            let denom = factory_denom(contract_address@, msg.subdenom@);
            &&& config.token_denom@ == denom
            &&& config.token_name@ == msg.token_name@
            &&& config.token_symbol@ == msg.token_symbol@
            &&& config.token_decimals == msg.token_decimals
            &&& config.treasury_address@ == treasury.unwrap()@
            &&& config.exchange_rate == msg.exchange_rate
            &&& config.admin@ == sender@
            &&& stats == initial_stats()
            &&& response.messages_view() == seq![
                MessageView::CreateDenom { sender: contract_address@, subdenom: msg.subdenom@ },
                MessageView::SetTokenMetadata {
                    denom,
                    name: msg.token_name@,
                    symbol: msg.token_symbol@,
                    decimals: msg.token_decimals,
                },
            ]
            &&& response.attributes_view() == seq![
                ("action"@, "instantiate"@),
                ("token_denom"@, denom),
                ("exchange_rate"@, decimal(msg.exchange_rate as nat)),
            ]
        },
{
    let treasury_address = match treasury {
        Ok(t) => t,
        Err(e) => return Err(ContractError::Std(e)),
    };
    if msg.exchange_rate == 0 {
        return Err(ContractError::InvalidExchangeRate {});
    }

    // Create the token denom: factory/{contract_address}/{subdenom}
    let mut token_denom = String::from_str("factory/");
    token_denom.append(contract_address.as_str());
    token_denom.append("/");
    token_denom.append(msg.subdenom.as_str());
    assert(token_denom@ =~= factory_denom(contract_address@, msg.subdenom@));

    let mut response = ContractResponse::new();
    // Create the new denom
    response.add_message(Message::CreateDenom {
        sender: contract_address.clone(),
        subdenom: msg.subdenom,
    });
    // Set token metadata
    response.add_message(Message::SetTokenMetadata {
        denom: token_denom.clone(),
        name: msg.token_name.clone(),
        symbol: msg.token_symbol.clone(),
        decimals: msg.token_decimals,
    });
    response.add_attribute("action", String::from_str("instantiate"));
    response.add_attribute("token_denom", token_denom.clone());
    response.add_attribute("exchange_rate", decimal_string(msg.exchange_rate));

    let config = Config {
        token_denom,
        token_name: msg.token_name,
        token_symbol: msg.token_symbol,
        token_decimals: msg.token_decimals,
        treasury_address,
        exchange_rate: msg.exchange_rate,
        admin: sender.clone(),
    };
    let stats = Stats { total_inj_received: 0, total_tokens_minted: 0, total_purchases: 0, total_house_funding: 0 };
    Ok((config, stats, response))
}

/// Purchase tokens with the INJ sent along (the first coin of denomination
/// `inj`): refused when none is sent or when the token amount or a total
/// overflows; otherwise mints `inj * exchange_rate` tokens to the buyer and
/// forwards the INJ to the treasury.
pub fn execute_purchase(
    config: &Config,
    stats: &Stats,
    contract_address: &String,
    sender: &String,
    funds: &Vec<Coin>,
) -> (result: Result<(Stats, ContractResponse), ContractError>)
    requires
        stats.total_purchases < u64::MAX,
    ensures
        ({
            let inj = sent_amount(funds@, inj_denom());
            let tokens = inj * config.exchange_rate;
            &&& (inj == 0 ==> result matches Err(ContractError::NoFundsSent {}))
            &&& (inj != 0 && (tokens > u128::MAX || stats.total_inj_received + inj > u128::MAX
                || stats.total_tokens_minted + tokens > u128::MAX)
                ==> result matches Err(ContractError::OverflowError {}))
            &&& (result is Ok <==> inj != 0 && tokens <= u128::MAX
                && stats.total_inj_received + inj <= u128::MAX
                && stats.total_tokens_minted + tokens <= u128::MAX)
            &&& (result matches Ok((s, response)) ==> {
                &&& s == stats_after_purchase(*stats, inj, tokens as u128)
                &&& response.messages_view() == seq![
                    MessageView::MintTokens {
                        sender: contract_address@,
                        denom: config.token_denom@,
                        amount: tokens as u128,
                        mint_to: sender@,
                    },
                    MessageView::BankSend { to_address: config.treasury_address@, denom: inj_denom(), amount: inj },
                ]
                &&& response.attributes_view() == seq![
                    ("action"@, "purchase"@),
                    ("buyer"@, sender@),
                    ("inj_amount"@, decimal(inj as nat)),
                    ("token_amount"@, decimal(tokens as nat)),
                ]
            })
        }),
{
    // Get INJ amount sent
    let inj = String::from_str("inj");
    let inj_amount = find_sent_amount(funds, &inj);
    if inj_amount == 0 {
        return Err(ContractError::NoFundsSent {});
    }

    // Calculate token amount: INJ * exchange_rate
    let token_amount = match inj_amount.checked_mul(config.exchange_rate) {
        Some(t) => t,
        None => return Err(ContractError::OverflowError {}),
    };

    // Update stats
    let total_inj_received = match stats.total_inj_received.checked_add(inj_amount) {
        Some(t) => t,
        None => return Err(ContractError::OverflowError {}),
    };
    let total_tokens_minted = match stats.total_tokens_minted.checked_add(token_amount) {
        Some(t) => t,
        None => return Err(ContractError::OverflowError {}),
    };
    let new_stats = Stats {
        total_inj_received,
        total_tokens_minted,
        total_purchases: stats.total_purchases + 1,
        total_house_funding: stats.total_house_funding,
    };

    let mut response = ContractResponse::new();
    // Create mint message for the tokens
    response.add_message(Message::MintTokens {
        sender: contract_address.clone(),
        denom: config.token_denom.clone(),
        amount: token_amount,
        mint_to: sender.clone(),
    });
    // Send INJ to treasury
    response.add_message(Message::BankSend {
        to_address: config.treasury_address.clone(),
        denom: inj,
        amount: inj_amount,
    });
    response.add_attribute("action", String::from_str("purchase"));
    response.add_attribute("buyer", sender.clone());
    response.add_attribute("inj_amount", decimal_string(inj_amount));
    response.add_attribute("token_amount", decimal_string(token_amount));
    Ok((new_stats, response))
}

/// Purchase when the purchase counter has room; otherwise answer what the
/// contract answers before it would count past `u64::MAX`: the error of a
/// check that comes first, or `None` when the purchase reaches the full
/// counter.
pub fn try_execute_purchase(
    config: &Config,
    stats: &Stats,
    contract_address: &String,
    sender: &String,
    funds: &Vec<Coin>,
) -> (result: Option<Result<(Stats, ContractResponse), ContractError>>)
    ensures
        ({
            let inj = sent_amount(funds@, inj_denom());
            let tokens = inj * config.exchange_rate;
            let passes = inj != 0 && tokens <= u128::MAX && stats.total_inj_received + inj <= u128::MAX
                && stats.total_tokens_minted + tokens <= u128::MAX;
            &&& (result is None <==> passes && stats.total_purchases == u64::MAX)
            &&& (stats.total_purchases < u64::MAX ==> result is Some)
            &&& (result matches Some(r) ==> {
                &&& (inj == 0 ==> r matches Err(ContractError::NoFundsSent {}))
                &&& (inj != 0 && !passes ==> r matches Err(ContractError::OverflowError {}))
                &&& (r is Ok <==> passes)
                &&& (r matches Ok((s, response)) ==> {
                    &&& s == stats_after_purchase(*stats, inj, tokens as u128)
                    &&& response.messages_view() == seq![
                        MessageView::MintTokens {
                            sender: contract_address@,
                            denom: config.token_denom@,
                            amount: tokens as u128,
                            mint_to: sender@,
                        },
                        MessageView::BankSend { to_address: config.treasury_address@, denom: inj_denom(), amount: inj },
                    ]
                    &&& response.attributes_view() == seq![
                        ("action"@, "purchase"@),
                        ("buyer"@, sender@),
                        ("inj_amount"@, decimal(inj as nat)),
                        ("token_amount"@, decimal(tokens as nat)),
                    ]
                })
            })
        }),
{
    if stats.total_purchases < u64::MAX {
        return Some(execute_purchase(config, stats, contract_address, sender, funds));
    }
    // The counter is full: the checks that come before it still answer.
    let inj = String::from_str("inj");
    let inj_amount = find_sent_amount(funds, &inj);
    if inj_amount == 0 {
        return Some(Err(ContractError::NoFundsSent {}));
    }
    let token_amount = match inj_amount.checked_mul(config.exchange_rate) {
        Some(t) => t,
        None => return Some(Err(ContractError::OverflowError {})),
    };
    if stats.total_inj_received.checked_add(inj_amount).is_none()
        || stats.total_tokens_minted.checked_add(token_amount).is_none() {
        return Some(Err(ContractError::OverflowError {}));
    }
    None
}

/// Fund the house (admin only): refused to anyone but the admin, for a zero
/// amount, for a game address that failed validation (its error is
/// returned), and when a total overflows; otherwise mints `amount` to the
/// game contract.
pub fn execute_fund_house(
    config: &Config,
    stats: &Stats,
    contract_address: &String,
    sender: &String,
    game_contract: String,
    game_address: Result<String, StdError>,
    amount: u128,
) -> (result: Result<(Stats, ContractResponse), ContractError>)
    ensures
        sender@ != config.admin@ ==> result matches Err(ContractError::Unauthorized {}),
        sender@ == config.admin@ && amount == 0 ==> result matches Err(ContractError::InvalidAmount {}),
        sender@ == config.admin@ && amount != 0 && game_address is Err ==> (result matches Err(
            ContractError::Std(e),
        ) && game_address == Err::<String, StdError>(e)),
        sender@ == config.admin@ && amount != 0 && game_address is Ok && (stats.total_tokens_minted
            + amount > u128::MAX || stats.total_house_funding + amount > u128::MAX)
            ==> result matches Err(ContractError::OverflowError {}),
        result is Ok <==> sender@ == config.admin@ && amount != 0 && game_address is Ok
            && stats.total_tokens_minted + amount <= u128::MAX && stats.total_house_funding + amount
            <= u128::MAX,
        result matches Ok((s, response)) ==> {
            &&& s == stats_after_funding(*stats, amount)
            &&& response.messages_view() == seq![
                MessageView::MintTokens {
                    sender: contract_address@,
                    denom: config.token_denom@,
                    amount,
                    mint_to: game_address.unwrap()@,
                },
            ]
            &&& response.attributes_view() == seq![
                ("action"@, "fund_house"@),
                ("game_contract"@, game_contract@),
                ("amount"@, decimal(amount as nat)),
            ]
        },
{
    // Only admin can fund the house
    if *sender != config.admin {
        return Err(ContractError::Unauthorized {});
    }
    if amount == 0 {
        return Err(ContractError::InvalidAmount {});
    }
    // Validated game contract address
    let game_contract_addr = match game_address {
        Ok(a) => a,
        Err(e) => return Err(ContractError::Std(e)),
    };

    // Update stats
    let total_tokens_minted = match stats.total_tokens_minted.checked_add(amount) {
        Some(t) => t,
        None => return Err(ContractError::OverflowError {}),
    };
    let total_house_funding = match stats.total_house_funding.checked_add(amount) {
        Some(t) => t,
        None => return Err(ContractError::OverflowError {}),
    };
    let new_stats = Stats { total_tokens_minted, total_house_funding, ..*stats };

    let mut response = ContractResponse::new();
    // Create mint message to fund the game contract
    response.add_message(Message::MintTokens {
        sender: contract_address.clone(),
        denom: config.token_denom.clone(),
        amount,
        mint_to: game_contract_addr,
    });
    response.add_attribute("action", String::from_str("fund_house"));
    response.add_attribute("game_contract", game_contract);
    response.add_attribute("amount", decimal_string(amount));
    Ok((new_stats, response))
}

/// Update exchange rate (admin only); a zero rate is refused.
pub fn execute_update_exchange_rate(
    config: Config,
    sender: &String,
    new_rate: u128,
) -> (result: Result<(Config, ContractResponse), ContractError>)
    ensures
        sender@ != config.admin@ ==> result matches Err(ContractError::Unauthorized {}),
        sender@ == config.admin@ && new_rate == 0 ==> result matches Err(ContractError::InvalidExchangeRate {}),
        result is Ok <==> sender@ == config.admin@ && new_rate != 0,
        result matches Ok((c, response)) ==> {
            &&& c == Config { exchange_rate: new_rate, ..config }
            &&& response.messages_view() == Seq::<MessageView>::empty()
            &&& response.attributes_view() == seq![
                ("action"@, "update_exchange_rate"@),
                ("new_rate"@, decimal(new_rate as nat)),
            ]
        },
{
    if *sender != config.admin {
        return Err(ContractError::Unauthorized {});
    }
    if new_rate == 0 {
        return Err(ContractError::InvalidExchangeRate {});
    }
    let mut config = config;
    config.exchange_rate = new_rate;
    let mut response = ContractResponse::new();
    response.add_attribute("action", String::from_str("update_exchange_rate"));
    response.add_attribute("new_rate", decimal_string(new_rate));
    Ok((config, response))
}

/// Update treasury address (admin only): the treasury becomes the validated
/// address; a failed validation is returned as is.
pub fn execute_update_treasury(
    config: Config,
    sender: &String,
    new_treasury: String,
    validated: Result<String, StdError>,
) -> (result: Result<(Config, ContractResponse), ContractError>)
    ensures
        sender@ != config.admin@ ==> result matches Err(ContractError::Unauthorized {}),
        sender@ == config.admin@ && validated is Err ==> (result matches Err(ContractError::Std(e))
            && validated == Err::<String, StdError>(e)),
        result is Ok <==> sender@ == config.admin@ && validated is Ok,
        result matches Ok((c, response)) ==> {
            &&& c == Config { treasury_address: validated.unwrap(), ..config }
            &&& response.messages_view() == Seq::<MessageView>::empty()
            &&& response.attributes_view() == seq![
                ("action"@, "update_treasury"@),
                ("new_treasury"@, new_treasury@),
            ]
        },
{
    if *sender != config.admin {
        return Err(ContractError::Unauthorized {});
    }
    let treasury = match validated {
        Ok(t) => t,
        Err(e) => return Err(ContractError::Std(e)),
    };
    let mut config = config;
    config.treasury_address = treasury;
    let mut response = ContractResponse::new();
    response.add_attribute("action", String::from_str("update_treasury"));
    response.add_attribute("new_treasury", new_treasury);
    Ok((config, response))
}

/// The current configuration.
pub fn query_config(config: &Config) -> (r: ConfigResponse)
    ensures
        r.token_denom@ == config.token_denom@,
        r.token_name@ == config.token_name@,
        r.token_symbol@ == config.token_symbol@,
        r.token_decimals == config.token_decimals,
        r.treasury_address@ == config.treasury_address@,
        r.exchange_rate == config.exchange_rate,
        r.admin@ == config.admin@,
{
    ConfigResponse {
        token_denom: config.token_denom.clone(),
        token_name: config.token_name.clone(),
        token_symbol: config.token_symbol.clone(),
        token_decimals: config.token_decimals,
        treasury_address: config.treasury_address.clone(),
        exchange_rate: config.exchange_rate,
        admin: config.admin.clone(),
    }
}

/// The purchase totals.
pub fn query_stats(stats: &Stats) -> (r: StatsResponse)
    ensures
        r.total_inj_received == stats.total_inj_received,
        r.total_tokens_minted == stats.total_tokens_minted,
        r.total_purchases == stats.total_purchases,
        r.total_house_funding == stats.total_house_funding,
{
    StatsResponse {
        total_inj_received: stats.total_inj_received,
        total_tokens_minted: stats.total_tokens_minted,
        total_purchases: stats.total_purchases,
        total_house_funding: stats.total_house_funding,
    }
}

/// The tokens a preview shows for `inj` at `rate`: their product, zero when
/// it overflows.
pub open spec fn preview_tokens(inj: u128, rate: u128) -> u128 {
    if inj * rate <= u128::MAX { (inj * rate) as u128 } else { 0 }
}

/// How many tokens `inj_amount` buys at the current rate; zero when the
/// product overflows.
pub fn query_preview_purchase(config: &Config, inj_amount: u128) -> (r: PreviewPurchaseResponse)
    ensures
        r.inj_amount == inj_amount,
        r.exchange_rate == config.exchange_rate,
        r.token_amount == preview_tokens(inj_amount, config.exchange_rate),
{
    let token_amount = match inj_amount.checked_mul(config.exchange_rate) {
        Some(t) => t,
        None => 0,
    };
    PreviewPurchaseResponse { inj_amount, token_amount, exchange_rate: config.exchange_rate }
}


/// Law: the totals start consistent.
pub proof fn law_initial_stats_consistent()
    ensures
        stats_consistent(initial_stats()),
{
}

/// Law: a purchase at a positive rate keeps the totals consistent: the
/// tokens it mints are at least the INJ it receives, and it receives at
/// least one INJ.
pub proof fn law_purchase_keeps_stats_consistent(stats: Stats, inj: u128, rate: u128)
    requires
        stats_consistent(stats),
        rate > 0,
        inj > 0,
        inj * rate <= u128::MAX,
        stats.total_inj_received + inj <= u128::MAX,
        stats.total_tokens_minted + inj * rate <= u128::MAX,
        stats.total_purchases < u64::MAX,
    ensures
        stats_consistent(stats_after_purchase(stats, inj, (inj * rate) as u128)),
{
    assert(inj * rate >= inj) by (nonlinear_arith)
        requires
            rate >= 1,
            inj >= 0,
    ;
}

/// Law: funding the house keeps the totals consistent.
pub proof fn law_funding_keeps_stats_consistent(stats: Stats, amount: u128)
    requires
        stats_consistent(stats),
        stats.total_tokens_minted + amount <= u128::MAX,
        stats.total_house_funding + amount <= u128::MAX,
    ensures
        stats_consistent(stats_after_funding(stats, amount)),
{
}

/// Law: the exchange rate stays positive: an update that succeeds sets a
/// positive rate, and a configuration keeps its rate under a treasury change.
pub proof fn law_exchange_rate_stays_positive(config: Config, new_rate: u128, treasury: String)
    requires
        config_valid(config),
    ensures
        new_rate != 0 ==> config_valid(Config { exchange_rate: new_rate, ..config }),
        config_valid(Config { treasury_address: treasury, ..config }),
{
}

/// Law: a preview shows exactly the tokens a purchase of the same INJ mints
/// at the same rate, whenever that purchase's token amount does not overflow.
pub proof fn law_preview_matches_purchase(inj: u128, rate: u128)
    requires
        inj * rate <= u128::MAX,
    ensures
        preview_tokens(inj, rate) == inj * rate,
{
}

} // verus!
