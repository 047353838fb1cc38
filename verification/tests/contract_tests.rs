use coinwrap::contract::{
    instantiate, query_ctr_info, try_deposit, try_update_contract, try_withdraw,
};
use coinwrap::error::ContractError;
use coinwrap::msg::{Action, Coin, Cw20Call};

#[test]
fn proper_initialization() {
    let state = instantiate("creator".to_string(), "inca".to_string());

    // it worked, let's query the state
    let value = query_ctr_info(&state);
    assert_eq!("inca", value.native_coin);
    assert_eq!(true, value.cw20_contract.is_empty());
}

#[test]
fn deposit() {
    let state = instantiate("creator".to_string(), "juno".to_string());

    // set cw20 contract
    let cw20_contract: String = "juno145tr".into();
    let state =
        try_update_contract(&state, &"creator".to_string(), cw20_contract.to_owned(), true)
            .unwrap();

    // deposit invalid coin
    let funds = vec![Coin { denom: "btc".to_string(), amount: 10 }];
    let err = try_deposit(&state, "anyone".to_string(), &funds).unwrap_err();
    match err {
        ContractError::Unauthorized => {}
        e => panic!("unexpected error: {:?}", e),
    }

    // valid coin
    let funds = vec![Coin { denom: "juno".to_string(), amount: 10 }];
    let res = try_deposit(&state, "creator".to_string(), &funds).unwrap();
    assert_eq!(res.messages.len(), 1);
    assert_eq!(
        res.messages[0],
        Action::Cw20 {
            contract_addr: cw20_contract,
            msg: Cw20Call::Mint { recipient: "creator".into(), amount: 10 },
        }
    );
}

#[test]
fn withdraw() {
    let state = instantiate("creator".to_string(), "juno".to_string());

    // set cw20 contract
    let state =
        try_update_contract(&state, &"creator".to_string(), "juno145tr".to_string(), true)
            .unwrap();

    // withdraw, with a reported allowance of 10
    let res = try_withdraw(&state, "cosmos2contract".to_string(), "creator".to_string(), 4, 10)
        .unwrap();
    assert_eq!(3, res.messages.len());
}
