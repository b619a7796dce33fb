use counter1::contract::{
    execute, increment, instantiate, peer_query, query, count, CONTRACT_NAME, CONTRACT_VERSION,
};
use counter1::error::{ContractError, StdError};
use counter1::msg::{
    Attribute, Coin, ExecuteMsg, GetCounterResponse, InstantiateMsg, MessageInfo, QueryMsg,
    Response, WasmExecuteMsg,
};
use counter1::state::{Counter, Store};

fn info(sender: &str, funds: Vec<Coin>) -> MessageInfo {
    MessageInfo { sender: sender.to_string(), funds }
}

fn attr(key: &str, value: &str) -> Attribute {
    Attribute { key: key.to_string(), value: value.to_string() }
}

fn instantiated() -> Store {
    let mut store = Store::new();
    instantiate(&mut store, info("creator", vec![]), InstantiateMsg {}).unwrap();
    store
}

fn increment_msg(address: &str) -> ExecuteMsg {
    ExecuteMsg::Increment { address: address.to_string() }
}

#[test]
fn instantiate_seeds_counter_and_version() {
    let mut store = Store::new();
    let resp = instantiate(&mut store, info("A", vec![]), InstantiateMsg {}).unwrap();
    assert_eq!(store.load(), Ok(Counter { count: 0 }));
    let version = store.version.clone().unwrap();
    assert_eq!(version.contract, CONTRACT_NAME);
    assert_eq!(version.version, CONTRACT_VERSION);
    assert_eq!(resp.attributes, vec![attr("method", "instantiate"), attr("owner", "A")]);
    assert!(resp.messages.is_empty());
}

#[test]
fn increment_on_fresh_contract_emits_one_message() {
    let mut store = instantiated();
    let resp = execute(&mut store, info("A", vec![]), increment_msg("peer1")).unwrap();
    assert_eq!(store.load(), Ok(Counter { count: 1 }));
    assert_eq!(resp.attributes, vec![attr("action", "increment")]);
    assert_eq!(
        resp.messages,
        vec![WasmExecuteMsg {
            contract_addr: "peer1".to_string(),
            msg: b"{\"increment\":{}}".to_vec(),
            funds: vec![],
        }]
    );
}

#[test]
fn increment_forwards_attached_funds() {
    let mut store = instantiated();
    let funds = vec![Coin { denom: "token".to_string(), amount: 5 }];
    let resp = execute(&mut store, info("A", funds.clone()), increment_msg("peer1")).unwrap();
    assert_eq!(resp.messages.len(), 1);
    assert_eq!(resp.messages[0].funds, funds);
    assert_eq!(resp.messages[0].contract_addr, "peer1");
}

#[test]
fn three_increments_count_three() {
    let mut store = instantiated();
    let mut messages = 0;
    for _ in 0..3 {
        let resp = execute(&mut store, info("A", vec![]), increment_msg("peer1")).unwrap();
        messages += resp.messages.len();
    }
    assert_eq!(store.load(), Ok(Counter { count: 3 }));
    assert_eq!(messages, 3);
}

#[test]
fn query_combines_local_and_peer_counts() {
    let mut store = instantiated();
    store.save(Counter { count: 2 });
    let msg = QueryMsg::GetCount { address: "peer1".to_string() };
    let bytes = query(&store, msg, Ok(7)).unwrap();
    assert_eq!(bytes, b"{\"count_counter1\":2,\"count_counter2\":7}".to_vec());
    assert_eq!(
        count(&store, Ok(7)),
        Ok(GetCounterResponse { count_counter1: 2, count_counter2: 7 })
    );
}

#[test]
fn peer_abort_rolls_back_increment() {
    let mut store = instantiated();
    store.save(Counter { count: 4 });
    let before = store.clone();
    let mut staged = store.clone();
    let resp = execute(&mut staged, info("A", vec![]), increment_msg("peer1")).unwrap();
    assert_eq!(resp.messages.len(), 1);
    assert_eq!(staged.load(), Ok(Counter { count: 5 }));
    // The host dispatches the message, the peer aborts, and the staged
    // writes are discarded: storage stays as it was before the call.
    let peer_accepted = false;
    if peer_accepted {
        store = staged;
    }
    assert_eq!(store, before);
    assert_eq!(store.load(), Ok(Counter { count: 4 }));
}

#[test]
fn increment_at_max_overflows_and_keeps_state() {
    let mut store = instantiated();
    store.save(Counter { count: u64::MAX });
    let before = store.clone();
    let r = execute(&mut store, info("A", vec![]), increment_msg("peer1"));
    assert_eq!(r, Err(ContractError::Overflow));
    assert_eq!(store, before);
}

#[test]
fn increment_before_instantiate_fails_with_storage_error() {
    let mut store = Store::new();
    let r = increment(&mut store, info("A", vec![]), "peer1".to_string());
    assert_eq!(r, Err(ContractError::Storage(StdError::NotFound)));
    assert_eq!(store, Store::new());
}

#[test]
fn query_before_instantiate_fails_with_not_found() {
    let store = Store::new();
    let msg = QueryMsg::GetCount { address: "peer1".to_string() };
    assert_eq!(query(&store, msg, Ok(7)), Err(StdError::NotFound));
}

#[test]
fn failed_peer_query_is_propagated() {
    let store = instantiated();
    let err = StdError::GenericErr { msg: "peer unreachable".to_string() };
    let msg = QueryMsg::GetCount { address: "peer1".to_string() };
    assert_eq!(query(&store, msg, Err(err.clone())), Err(err.clone()));
    assert_eq!(count(&store, Err(err.clone())), Err(err));
}

#[test]
fn repeated_queries_agree_and_leave_storage_alone() {
    let mut store = instantiated();
    store.save(Counter { count: 9 });
    let before = store.clone();
    let msg = QueryMsg::GetCount { address: "peer1".to_string() };
    let first = query(&store, msg.clone(), Ok(1));
    let second = query(&store, msg, Ok(1));
    assert_eq!(first, second);
    assert_eq!(store, before);
}

#[test]
fn query_encodes_largest_counts() {
    let mut store = instantiated();
    store.save(Counter { count: u64::MAX });
    let msg = QueryMsg::GetCount { address: "peer1".to_string() };
    let bytes = query(&store, msg, Ok(0)).unwrap();
    let expected = format!("{{\"count_counter1\":{},\"count_counter2\":0}}", u64::MAX);
    assert_eq!(bytes, expected.into_bytes());
}

#[test]
fn query_encodes_multi_digit_counts() {
    let mut store = instantiated();
    store.save(Counter { count: 1090 });
    let msg = QueryMsg::GetCount { address: "p".to_string() };
    let bytes = query(&store, msg, Ok(10)).unwrap();
    assert_eq!(bytes, b"{\"count_counter1\":1090,\"count_counter2\":10}".to_vec());
}

#[test]
fn peer_query_targets_address_with_get_count() {
    let msg = QueryMsg::GetCount { address: "peer9".to_string() };
    let q = peer_query(&msg);
    assert_eq!(q.contract_addr, "peer9");
    assert_eq!(q.msg, b"{\"get_count\":{}}".to_vec());
}

#[test]
fn update_applies_function_or_keeps_state() {
    let mut store = instantiated();
    let r = store.update(|c| Ok(Counter { count: c.count + 10 }));
    assert_eq!(r, Ok(Counter { count: 10 }));
    assert_eq!(store.load(), Ok(Counter { count: 10 }));
    let r = store.update(|_| Err(ContractError::Overflow));
    assert_eq!(r, Err(ContractError::Overflow));
    assert_eq!(store.load(), Ok(Counter { count: 10 }));
}

#[test]
fn response_builder_keeps_order() {
    let resp = Response::new()
        .add_attribute("a", "1".to_string())
        .add_attribute("b", "2".to_string());
    assert_eq!(resp.attributes, vec![attr("a", "1"), attr("b", "2")]);
    assert!(resp.messages.is_empty());
}
