//! The purchase contract's stored state, held as plain values.

use vstd::prelude::*;

verus! {

/// The token sold, where the INJ goes, and the price.
#[derive(Debug)]
pub struct Config {
    pub token_denom: String,
    pub token_name: String,
    pub token_symbol: String,
    pub token_decimals: u8,
    pub treasury_address: String,
    /// Tokens per INJ.
    pub exchange_rate: u128,
    pub admin: String,
}

/// Totals over all purchases and fundings.
#[derive(Debug, Clone, Copy, PartialEq, Eq, Structural)]
pub struct Stats {
    pub total_inj_received: u128,
    pub total_tokens_minted: u128,
    pub total_purchases: u64,
    pub total_house_funding: u128,
}

} // verus!
