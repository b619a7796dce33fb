use vstd::prelude::*;

use crate::error::{ContractError, StdError};
use crate::json::{
    counter_response_json, counter_response_to_json, peer_get_count_json, peer_get_count_msg,
    peer_increment_json, peer_increment_msg,
};
use crate::msg::{
    Coin, ExecuteMsg, GetCounterResponse, InstantiateMsg, MessageInfo, QueryMsg, Response,
    WasmExecuteMsg, WasmSmartQuery,
};
use crate::state::{ContractVersion, Counter, Store, load_result};

verus! {

/// Name under which the contract-version record is written.
pub const CONTRACT_NAME: &'static str = "crates.io:college";

/// Version written into the contract-version record.
pub const CONTRACT_VERSION: &'static str = "0.1.0";

/// The counter that a successful increment stores, or the error that stops it.
pub open spec fn next_counter(s: Store) -> Result<Counter, ContractError> {
    match s.counter {
        None => Err(ContractError::Storage(StdError::NotFound)),
        Some(c) => if c.count < u64::MAX {
            Ok(Counter { count: (c.count + 1) as u64 })
        } else {
            Err(ContractError::Overflow)
        },
    }
}

/// The store after `k` increments in a row, or the error of the first one
/// that fails.
pub open spec fn store_after_increments(s: Store, k: nat) -> Result<Store, ContractError>
    decreases k,
{
    if k == 0 {
        Ok(s)
    } else {
        match store_after_increments(s, (k - 1) as nat) {
            Err(e) => Err(e),
            Ok(t) => match next_counter(t) {
                Err(e) => Err(e),
                Ok(n) => Ok(Store { counter: Some(n), version: t.version }),
            },
        }
    }
}

/// Each successful increment adds exactly one: `k` increments in a row,
/// starting from a stored count `c` with `c + k` within `u64`, all succeed
/// and leave the count at `c + k` and the version record as it was.
pub proof fn increments_accumulate(s: Store, k: nat)
    requires
        s.counter is Some,
        s.counter->Some_0.count + k <= u64::MAX,
    ensures
        store_after_increments(s, k) matches Ok(t) && t.counter == Some(
            Counter { count: (s.counter->Some_0.count + k) as u64 },
        ) && t.version == s.version,
    decreases k,
{
    if k > 0 {
        increments_accumulate(s, (k - 1) as nat);
    }
}

/// The response of a successful increment: the attribute `action=increment`
/// and exactly one outbound message, which makes the peer at `address`
/// increment and carries `funds` along.
pub open spec fn is_increment_response(r: Response, address: Seq<char>, funds: Seq<Coin>) -> bool {
    &&& r.attribute_pairs() == seq![("action"@, "increment"@)]
    &&& r.messages@.len() == 1
    &&& r.messages@[0].contract_addr@ == address
    &&& r.messages@[0].msg@ == peer_increment_json()
    &&& r.messages@[0].funds@ == funds
}

/// The peer address named by an execute message.
pub open spec fn execute_target(msg: ExecuteMsg) -> Seq<char> {
    match msg {
        ExecuteMsg::Increment { address } => address@,
    }
}

/// The peer address named by a query message.
pub open spec fn query_target(msg: QueryMsg) -> Seq<char> {
    match msg {
        QueryMsg::GetCount { address } => address@,
    }
}

/// The combined view of the local counter in `s` and the peer's answer.
pub open spec fn count_result(s: Store, peer: Result<u64, StdError>) -> Result<
    GetCounterResponse,
    StdError,
> {
    match load_result(s) {
        Err(e) => Err(e),
        Ok(c) => match peer {
            Err(e) => Err(e),
            Ok(p) => Ok(GetCounterResponse { count_counter1: c.count, count_counter2: p }),
        },
    }
}

/// What `query` answers, with the JSON bytes as a sequence.
pub open spec fn query_answer(s: Store, peer: Result<u64, StdError>) -> Result<Seq<u8>, StdError> {
    match count_result(s, peer) {
        Ok(v) => Ok(counter_response_json(v)),
        Err(e) => Err(e),
    }
}

/// A query result with its bytes viewed as a sequence.
pub open spec fn answer_view(r: Result<Vec<u8>, StdError>) -> Result<Seq<u8>, StdError> {
    match r {
        Ok(b) => Ok(b@),
        Err(e) => Err(e),
    }
}

/// Querying leaves storage alone, so two queries over the same storage, to
/// which the peer gives the same answer, return the same bytes or the same
/// error.
pub proof fn query_is_repeatable(
    s: Store,
    peer: Result<u64, StdError>,
    first: Result<Vec<u8>, StdError>,
    second: Result<Vec<u8>, StdError>,
)
    requires
        answer_view(first) == query_answer(s, peer),
        answer_view(second) == query_answer(s, peer),
    ensures
        answer_view(first) == answer_view(second),
        first is Ok <==> second is Ok,
{
}

/// Seeds the counter at zero and records the contract's name and version.
pub fn instantiate(store: &mut Store, info: MessageInfo, msg: InstantiateMsg) -> (r: Result<
    Response,
    ContractError,
>)
    ensures
        load_result(*final(store)) == Ok::<Counter, StdError>(Counter { count: 0 }),
        final(store).version matches Some(v) && v.contract@ == CONTRACT_NAME@ && v.version@
            == CONTRACT_VERSION@,
        r matches Ok(resp) && resp.attribute_pairs() == seq![
            ("method"@, "instantiate"@),
            ("owner"@, info.sender@),
        ] && resp.messages@.len() == 0,
{
    let state = Counter { count: 0 };
    store.version = Some(
        ContractVersion {
            contract: CONTRACT_NAME.to_owned(),
            version: CONTRACT_VERSION.to_owned(),
        },
    );
    store.save(state);
    let resp = Response::new().add_attribute("method", "instantiate".to_owned()).add_attribute(
        "owner",
        info.sender,
    );
    assert(resp.attribute_pairs() =~= seq![("method"@, "instantiate"@), ("owner"@, info.sender@)]);
    Ok(resp)
}

/// Runs one execute message.
pub fn execute(store: &mut Store, info: MessageInfo, msg: ExecuteMsg) -> (r: Result<
    Response,
    ContractError,
>)
    ensures
        r is Ok <==> next_counter(*old(store)) is Ok,
        match next_counter(*old(store)) {
            Ok(n) => {
                &&& final(store).counter == Some(n)
                &&& final(store).version == old(store).version
                &&& r matches Ok(resp) && is_increment_response(
                    resp,
                    execute_target(msg),
                    info.funds@,
                )
            },
            Err(e) => {
                &&& r == Err::<Response, ContractError>(e)
                &&& *final(store) == *old(store)
            },
        },
{
    match msg {
        ExecuteMsg::Increment { address } => increment(store, info, address),
    }
}

/// Increments the local counter and returns one outbound message that makes
/// the peer at `contract_address` increment too, forwarding the attached
/// funds. Fails, storing nothing, when the counter is missing or at its
/// largest value.
pub fn increment(store: &mut Store, info: MessageInfo, contract_address: String) -> (r: Result<
    Response,
    ContractError,
>)
    ensures
        r is Ok <==> next_counter(*old(store)) is Ok,
        r is Ok ==> (old(store).counter matches Some(c) && final(store).counter == Some(
            Counter { count: (c.count + 1) as u64 },
        )),
        match next_counter(*old(store)) {
            Ok(n) => {
                &&& final(store).counter == Some(n)
                &&& final(store).version == old(store).version
                &&& r matches Ok(resp) && is_increment_response(
                    resp,
                    contract_address@,
                    info.funds@,
                )
            },
            Err(e) => {
                &&& r == Err::<Response, ContractError>(e)
                &&& *final(store) == *old(store)
            },
        },
{
    let bump = |state: Counter| -> (r: Result<Counter, ContractError>)
        ensures
            state.count < u64::MAX ==> r == Ok::<Counter, ContractError>(
                Counter { count: (state.count + 1) as u64 },
            ),
            state.count == u64::MAX ==> r == Err::<Counter, ContractError>(ContractError::Overflow),
        {
            match state.count.checked_add(1) {
                Some(count) => Ok(Counter { count }),
                None => Err(ContractError::Overflow),
            }
        };
    match store.update(bump) {
        Err(e) => Err(e),
        Ok(_) => {
            let action = WasmExecuteMsg {
                contract_addr: contract_address,
                msg: peer_increment_msg(),
                funds: info.funds,
            };
            let resp = Response::new().add_attribute("action", "increment".to_owned()).add_message(
                action,
            );
            assert(resp.attribute_pairs() =~= seq![("action"@, "increment"@)]);
            Ok(resp)
        },
    }
}

/// The query that asks the peer named by `msg` for its count: the host's
/// querier runs it, and its answer goes to `query`.
pub fn peer_query(msg: &QueryMsg) -> (q: WasmSmartQuery)
    ensures
        q.contract_addr@ == query_target(*msg),
        q.msg@ == peer_get_count_json(),
{
    match msg {
        QueryMsg::GetCount { address } => WasmSmartQuery {
            contract_addr: address.clone(),
            msg: peer_get_count_msg(),
        },
    }
}

/// Answers a query message as JSON bytes. `peer` is what the peer that `msg`
/// names answered to `peer_query(msg)`: its count, or the error of the query.
pub fn query(store: &Store, msg: QueryMsg, peer: Result<u64, StdError>) -> (r: Result<
    Vec<u8>,
    StdError,
>)
    ensures
        answer_view(r) == query_answer(*store, peer),
{
    match msg {
        QueryMsg::GetCount { address: _ } => match count(store, peer) {
            Ok(v) => Ok(counter_response_to_json(&v)),
            Err(e) => Err(e),
        },
    }
}

/// The local count together with the count that the peer reported. A missing
/// counter fails first; a failed peer query fails with its own error.
pub fn count(store: &Store, peer: Result<u64, StdError>) -> (r: Result<
    GetCounterResponse,
    StdError,
>)
    ensures
        r == count_result(*store, peer),
        r matches Ok(v) ==> (store.counter == Some(Counter { count: v.count_counter1 }) && peer
            == Ok::<u64, StdError>(v.count_counter2)),
{
    let state = store.load()?;
    let p = peer?;
    Ok(GetCounterResponse { count_counter1: state.count, count_counter2: p })
}

} // verus!
