use cosmwasm_std::StdError;
use plinko::plink_token::contract::{update_minter, MinterData, UpdateMinterError};

fn minter(name: &str, cap: Option<u128>) -> Option<MinterData> {
    Some(MinterData { minter: name.to_string(), cap })
}

#[test]
fn minter_hands_role_on_keeping_cap() {
    let (data, res) =
        update_minter(minter("minter", Some(5000)), &"minter".to_string(), "next".to_string(), Ok("next".to_string()))
            .unwrap();
    assert_eq!(data.minter, "next");
    assert_eq!(data.cap, Some(5000));
    assert!(res.messages.is_empty());
    let attrs: Vec<(String, String)> = res.attributes.iter().map(|a| (a.key.clone(), a.value.clone())).collect();
    assert_eq!(
        attrs,
        vec![("action".to_string(), "update_minter".to_string()), ("new_minter".to_string(), "next".to_string())]
    );
}

#[test]
fn only_current_minter_may_update() {
    let err = update_minter(minter("minter", None), &"user1".to_string(), "next".to_string(), Ok("next".to_string()))
        .unwrap_err();
    assert!(matches!(err, UpdateMinterError::Unauthorized {}));
    let err = update_minter(None, &"minter".to_string(), "next".to_string(), Ok("next".to_string())).unwrap_err();
    assert!(matches!(err, UpdateMinterError::Unauthorized {}));
}

#[test]
fn invalid_new_minter_is_reported_after_authorization() {
    let err = update_minter(
        minter("minter", None),
        &"minter".to_string(),
        "bad".to_string(),
        Err(StdError::generic_err("Error decoding bech32")),
    )
    .unwrap_err();
    assert!(matches!(err, UpdateMinterError::Std(_)));
    let err = update_minter(
        minter("minter", None),
        &"other".to_string(),
        "bad".to_string(),
        Err(StdError::generic_err("Error decoding bech32")),
    )
    .unwrap_err();
    assert!(matches!(err, UpdateMinterError::Unauthorized {}));
}
