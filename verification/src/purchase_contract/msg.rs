//! Messages and responses of the purchase contract.

use vstd::prelude::*;

verus! {

/// Configuration given when the contract is set up.
#[derive(Debug)]
pub struct InstantiateMsg {
    /// Subdenom for the token (e.g., "plink");
    /// the full denom will be: factory/{contract_address}/{subdenom}
    pub subdenom: String,
    /// Token name for metadata (e.g., "Plink Token")
    pub token_name: String,
    /// Token symbol for metadata (e.g., "PLINK")
    pub token_symbol: String,
    /// Token decimals (typically 6 or 18)
    pub token_decimals: u8,
    /// Treasury wallet address that receives INJ
    pub treasury_address: String,
    /// Exchange rate: 1 INJ = X tokens (e.g., 100)
    pub exchange_rate: u128,
}

/// Actions of the purchase contract.
#[derive(Debug)]
pub enum ExecuteMsg {
    /// Purchase tokens with INJ (send INJ with this message)
    Purchase {},
    /// Fund the house (game contract) with newly minted tokens (admin only)
    FundHouse { game_contract: String, amount: u128 },
    /// Update exchange rate (admin only)
    UpdateExchangeRate { new_rate: u128 },
    /// Update treasury address (admin only)
    UpdateTreasury { new_treasury: String },
}

/// Questions the purchase contract answers.
#[derive(Debug)]
pub enum QueryMsg {
    /// Get current configuration
    Config {},
    /// Get purchase statistics
    Stats {},
    /// Calculate how many tokens you'd get for a given INJ amount
    PreviewPurchase { inj_amount: u128 },
}

#[derive(Debug)]
pub struct ConfigResponse {
    pub token_denom: String,
    pub token_name: String,
    pub token_symbol: String,
    pub token_decimals: u8,
    pub treasury_address: String,
    pub exchange_rate: u128,
    pub admin: String,
}

#[derive(Debug)]
pub struct StatsResponse {
    pub total_inj_received: u128,
    pub total_tokens_minted: u128,
    pub total_purchases: u64,
    pub total_house_funding: u128,
}

#[derive(Debug)]
pub struct PreviewPurchaseResponse {
    pub inj_amount: u128,
    pub token_amount: u128,
    pub exchange_rate: u128,
}

} // verus!
