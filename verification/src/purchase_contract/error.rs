//! Errors of the purchase contract.

use cosmwasm_std::StdError;
use vstd::prelude::*;

use crate::common::OverflowError;

verus! {

/// Why the purchase contract refused a message.
#[derive(Debug)]
pub enum ContractError {
    Std(StdError),
    Overflow(OverflowError),
    Unauthorized {},
    NoFundsSent {},
    InvalidExchangeRate {},
    InvalidAmount {},
    OverflowError {},
}

} // verus!
