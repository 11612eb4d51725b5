use plinko::common::{decimal_string, find_sent_amount, BlockInfo, Coin};

#[test]
fn decimal_strings() {
    assert_eq!(decimal_string(0), "0");
    assert_eq!(decimal_string(7), "7");
    assert_eq!(decimal_string(10), "10");
    assert_eq!(decimal_string(100), "100");
    assert_eq!(decimal_string(1000000000000000000000), "1000000000000000000000");
    assert_eq!(decimal_string(u128::MAX), u128::MAX.to_string());
}

#[test]
fn sent_amount_takes_first_matching_coin() {
    let funds = vec![
        Coin { denom: "a".to_string(), amount: 1 },
        Coin { denom: "b".to_string(), amount: 2 },
        Coin { denom: "b".to_string(), amount: 3 },
    ];
    assert_eq!(find_sent_amount(&funds, &"b".to_string()), 2);
    assert_eq!(find_sent_amount(&funds, &"a".to_string()), 1);
    assert_eq!(find_sent_amount(&funds, &"c".to_string()), 0);
    assert_eq!(find_sent_amount(&vec![], &"a".to_string()), 0);
}

#[test]
fn block_seconds_round_down() {
    let block = BlockInfo { height: 1, time_nanos: 1_571_797_419_879_305_533 };
    assert_eq!(block.seconds(), 1_571_797_419);
}
