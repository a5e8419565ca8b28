use counting_contract::contract;
use counting_contract::error::ContractError;
use counting_contract::msg::{ExecMsg, InstantiateMsg, QueryMsg, ValueResponse};
use counting_contract::state::{Coin, ContractInfo, State, StateRecord, Store};
use counting_contract::{execute, instantiate, query};

fn coin(amount: u128, denom: &str) -> Coin {
    Coin { denom: denom.to_string(), amount }
}

fn coins(amount: u128, denom: &str) -> Vec<Coin> {
    vec![coin(amount, denom)]
}

fn empty_store() -> Store {
    Store {
        contract_info: None,
        state: StateRecord::Missing,
        parent_donation: None,
        counter_item: None,
        minimal_donation_item: None,
        owner_item: None,
    }
}

const ATOM: &str = "atom";

#[test]
fn query_value() {
    let mut store = empty_store();
    let sender = "sender".to_string();

    instantiate(
        &mut store,
        sender,
        InstantiateMsg { counter: 0, minimal_donation: coin(10, ATOM), parent: None },
    );

    let resp = query(&store, QueryMsg::Value {}).unwrap();
    assert_eq!(resp, ValueResponse { value: 0 });
}

#[test]
fn donate() {
    let mut store = empty_store();
    let sender = "sender".to_string();

    instantiate(
        &mut store,
        sender.clone(),
        InstantiateMsg { counter: 0, minimal_donation: coin(10, ATOM), parent: None },
    );

    let balance: Vec<Coin> = vec![];
    let funds: Vec<Coin> = vec![];
    execute(&mut store, &balance, sender, &funds, ExecMsg::Donate {}).unwrap();

    let resp = query(&store, QueryMsg::Value {}).unwrap();
    assert_eq!(resp, ValueResponse { value: 0 });
}

#[test]
fn donate_with_funds() {
    let mut store = empty_store();
    let sender = "sender".to_string();

    instantiate(
        &mut store,
        sender.clone(),
        InstantiateMsg { counter: 0, minimal_donation: coin(10, ATOM), parent: None },
    );

    // The attached funds become part of the program's balance.
    let balance = coins(10, ATOM);
    let funds = coins(10, ATOM);
    let resp = execute(&mut store, &balance, sender, &funds, ExecMsg::Donate {}).unwrap();

    let value = query(&store, QueryMsg::Value {}).unwrap();
    assert_eq!(value, ValueResponse { value: 1 });

    // Nothing was forwarded anywhere: the funds stay with the program.
    assert_eq!(resp.messages, vec![]);
    assert_eq!(resp.counter, Some(1));
}

#[test]
fn withdraw() {
    let mut store = empty_store();
    let owner = "owner".to_string();
    let sender1 = "sender1".to_string();
    let sender2 = "sender2".to_string();

    instantiate(
        &mut store,
        owner.clone(),
        InstantiateMsg { counter: 0, minimal_donation: coin(10, ATOM), parent: None },
    );

    let balance = coins(10, ATOM);
    execute(&mut store, &balance, sender1, &coins(10, ATOM), ExecMsg::Donate {}).unwrap();

    let balance = coins(15, ATOM);
    execute(&mut store, &balance, sender2, &coins(5, ATOM), ExecMsg::Donate {}).unwrap();

    let state_before = match &store.state {
        StateRecord::Current(st) => st.counter,
        _ => panic!("state record missing"),
    };
    let resp = execute(&mut store, &balance, owner.clone(), &vec![], ExecMsg::Withdraw {})
        .unwrap();

    // The whole balance of 15 atom moves to the owner in one transfer.
    assert_eq!(resp.messages.len(), 1);
    match &resp.messages[0] {
        counting_contract::msg::OutMsg::Transfer { to_address, funds } => {
            assert_eq!(to_address, &owner);
            assert_eq!(funds, &coins(15, ATOM));
        },
        other => panic!("unexpected message: {:?}", other),
    }
    // The state record is untouched.
    match &store.state {
        StateRecord::Current(st) => assert_eq!(st.counter, state_before),
        _ => panic!("state record missing"),
    }
}

#[test]
fn unauthorized_withdraw() {
    let mut store = empty_store();
    let owner = "owner".to_string();
    let member = "member".to_string();

    instantiate(
        &mut store,
        owner.clone(),
        InstantiateMsg { counter: 0, minimal_donation: coin(10, ATOM), parent: None },
    );

    let balance: Vec<Coin> = vec![];
    let err = execute(&mut store, &balance, member, &vec![], ExecMsg::Withdraw {}).unwrap_err();

    assert_eq!(err, ContractError::Unauthorized { owner });
}

#[test]
fn migrate() {
    // A store written by the oldest revision: three independent records
    // and its own version tag, after one accepted donation.
    let mut store = empty_store();
    store.contract_info = Some(ContractInfo {
        contract: "counting-contract".to_string(),
        version: "0.1.4".to_string(),
    });
    store.counter_item = Some(1);
    store.minimal_donation_item = Some(coin(10, ATOM));
    store.owner_item = Some("owner".to_string());

    counting_contract::migrate(&mut store).unwrap();

    let resp = query(&store, QueryMsg::Value {}).unwrap();
    assert_eq!(resp, ValueResponse { value: 1 });

    assert_eq!(
        store.state,
        StateRecord::Current(State {
            counter: 1,
            minimal_donation: coin(10, ATOM),
            owner: "owner".to_string(),
            donating_parent: None,
        })
    );
}

#[test]
fn migrate_no_update() {
    let mut store = empty_store();
    let owner = "owner".to_string();

    instantiate(
        &mut store,
        owner,
        InstantiateMsg { counter: 0, minimal_donation: coin(10, ATOM), parent: None },
    );

    let state_before = match &store.state {
        StateRecord::Current(st) => st.clone(),
        _ => panic!("state record missing"),
    };
    counting_contract::migrate(&mut store).unwrap();
    match &store.state {
        StateRecord::Current(st) => assert_eq!(st, &state_before),
        _ => panic!("state record missing"),
    }
}

#[test]
fn migrate_combined_layout() {
    // A store written by the middle revision: one combined record without
    // a parent concept, under its own version tag.
    let mut store = empty_store();
    store.contract_info = Some(ContractInfo {
        contract: "counting-contract".to_string(),
        version: "0.2.0".to_string(),
    });
    store.state = StateRecord::Legacy {
        counter: 3,
        minimal_donation: coin(10, ATOM),
        owner: "owner".to_string(),
    };

    counting_contract::migrate(&mut store).unwrap();

    assert_eq!(
        store.state,
        StateRecord::Current(State {
            counter: 3,
            minimal_donation: coin(10, ATOM),
            owner: "owner".to_string(),
            donating_parent: None,
        })
    );
    assert_eq!(
        store.contract_info,
        Some(ContractInfo {
            contract: "counting-contract".to_string(),
            version: "0.3.0".to_string(),
        })
    );
}

#[test]
fn migrate_unsupported_version() {
    let mut store = empty_store();
    store.contract_info = Some(ContractInfo {
        contract: "counting-contract".to_string(),
        version: "0.0.7".to_string(),
    });

    let err = counting_contract::migrate(&mut store).unwrap_err();
    assert_eq!(err, ContractError::UnsupportedVersion("0.0.7".to_string()));
}

#[test]
fn migrate_invalid_name() {
    let mut store = empty_store();
    store.contract_info = Some(ContractInfo {
        contract: "other-contract".to_string(),
        version: "0.1.4".to_string(),
    });
    store.counter_item = Some(1);

    let err = counting_contract::migrate(&mut store).unwrap_err();
    assert_eq!(err, ContractError::InvalidName("other-contract".to_string()));
    // Nothing was touched.
    assert_eq!(store.counter_item, Some(1));
    assert_eq!(store.state, StateRecord::Missing);
}

#[test]
fn donate_on_missing_state() {
    let mut store = empty_store();
    let balance: Vec<Coin> = vec![];
    let err = contract::donate(&mut store, &balance, "sender".to_string(), &vec![]).unwrap_err();
    assert_eq!(err, ContractError::Storage(counting_contract::error::StoreError::NotFound));
}
