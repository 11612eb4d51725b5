//! Errors of the game contract.

use cosmwasm_std::StdError;
use vstd::prelude::*;

use crate::common::OverflowError;

verus! {

/// Why the game refused a message.
#[derive(Debug)]
pub enum ContractError {
    Std(StdError),
    Overflow(OverflowError),
    Unauthorized {},
    InvalidBetAmount {},
    InsufficientBalance {},
    OverflowError {},
    InvalidMultiplierIndex {},
}

} // verus!
