//! Handing the minter role on.

use cosmwasm_std::StdError;
use vstd::prelude::*;

use crate::common::{ContractResponse, MessageView};

verus! {

/// Who may mint, and up to which total supply.
#[derive(Debug)]
pub struct MinterData {
    pub minter: String,
    pub cap: Option<u128>,
}

/// Why a minter update was refused.
#[derive(Debug)]
pub enum UpdateMinterError {
    /// The sender is not the current minter (or there is none).
    Unauthorized {},
    /// The new minter's address failed validation.
    Std(StdError),
}

/// Hand the minter role to `new_minter` (current minter only): refused when
/// there is no minter or the sender is not it; a new address that failed
/// validation is returned as is; otherwise the validated address becomes
/// the minter and the cap stays.
pub fn update_minter(
    current: Option<MinterData>,
    sender: &String,
    new_minter: String,
    validated: Result<String, StdError>,
) -> (result: Result<(MinterData, ContractResponse), UpdateMinterError>)
    ensures
        ({
            let authorized = current matches Some(m) && m.minter@ == sender@;
            &&& (!authorized ==> result matches Err(UpdateMinterError::Unauthorized {}))
            &&& (authorized && validated is Err ==> (result matches Err(UpdateMinterError::Std(e))
                && validated == Err::<String, StdError>(e)))
            &&& (result is Ok <==> authorized && validated is Ok)
            &&& (result matches Ok((m, response)) ==> {
                &&& m.minter == validated.unwrap()
                &&& m.cap == current.unwrap().cap
                &&& response.messages_view() == Seq::<MessageView>::empty()
                &&& response.attributes_view() == seq![
                    ("action"@, "update_minter"@),
                    ("new_minter"@, new_minter@),
                ]
            })
        }),
{
    let old_cap = match &current {
        Some(m) => {
            if m.minter != *sender {
                return Err(UpdateMinterError::Unauthorized {});
            }
            m.cap
        },
        None => return Err(UpdateMinterError::Unauthorized {}),
    };
    let new_minter_addr = match validated {
        Ok(a) => a,
        Err(e) => return Err(UpdateMinterError::Std(e)),
    };
    let mut response = ContractResponse::new();
    response.add_attribute("action", String::from_str("update_minter"));
    response.add_attribute("new_minter", new_minter);
    Ok((MinterData { minter: new_minter_addr, cap: old_cap }, response))
}

} // verus!
