//! The purchase contract: sells the PLINK token-factory denomination for
//! INJ at an exchange rate and mints house funding for the game.

pub mod contract;
pub mod error;
pub mod msg;
pub mod state;
