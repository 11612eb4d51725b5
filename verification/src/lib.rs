//! Verified core of the PLINKO contracts: the Plinko game, the INJ purchase
//! contract and the PLINK token's minter rule, written as pure state
//! transitions over plain values.

pub mod common;
pub mod plink_token;
pub mod plinko_game;
pub mod purchase_contract;
