use vstd::prelude::*;

verus! {

/// Payload of `instantiate`; it carries no fields (`{}` on the wire).
#[derive(Clone, Copy, Debug, PartialEq, Eq)]
pub struct InstantiateMsg {}

/// Payloads of `execute`.
#[derive(Clone, Debug, PartialEq, Eq)]
pub enum ExecuteMsg {
    /// Increment the local counter and notify the peer at `address`.
    Increment { address: String },
}

/// Payloads of `query`.
#[derive(Clone, Debug, PartialEq, Eq)]
pub enum QueryMsg {
    /// Report the local count together with the count of the peer at `address`.
    GetCount { address: String },
}

/// The combined view returned by `GetCount`.
#[derive(Clone, Copy, Debug, PartialEq, Eq, Structural)]
pub struct GetCounterResponse {
    pub count_counter1: u64,
    pub count_counter2: u64,
}

/// An amount of one denomination of coins.
#[derive(Clone, Debug, PartialEq, Eq)]
pub struct Coin {
    pub denom: String,
    pub amount: u128,
}

/// Who called, and which coins came with the call.
#[derive(Clone, Debug, PartialEq, Eq)]
pub struct MessageInfo {
    pub sender: String,
    pub funds: Vec<Coin>,
}

/// A key/value pair of the response, for indexers.
#[derive(Clone, Debug, PartialEq, Eq)]
pub struct Attribute {
    pub key: String,
    pub value: String,
}

/// An outbound "execute Wasm contract" message, dispatched by the host
/// after the call that returned it has succeeded.
#[derive(Clone, Debug, PartialEq, Eq)]
pub struct WasmExecuteMsg {
    pub contract_addr: String,
    /// The JSON payload handed to the target contract.
    pub msg: Vec<u8>,
    pub funds: Vec<Coin>,
}

/// A synchronous smart query to another contract.
#[derive(Clone, Debug, PartialEq, Eq)]
pub struct WasmSmartQuery {
    pub contract_addr: String,
    /// The JSON payload handed to the queried contract.
    pub msg: Vec<u8>,
}

/// What a successful `instantiate` or `execute` hands back to the host.
#[derive(Clone, Debug, PartialEq, Eq)]
pub struct Response {
    pub attributes: Vec<Attribute>,
    pub messages: Vec<WasmExecuteMsg>,
}

impl Response {
    /// A response with no attributes and no messages.
    pub fn new() -> (r: Response)
        ensures
            r.attributes@.len() == 0,
            r.attribute_pairs().len() == 0,
            r.messages@.len() == 0,
    {
        Response { attributes: Vec::new(), messages: Vec::new() }
    }

    /// The attributes as (key, value) pairs, in order.
    pub open spec fn attribute_pairs(&self) -> Seq<(Seq<char>, Seq<char>)> {
        self.attributes@.map_values(|a: Attribute| (a.key@, a.value@))
    }

    /// Appends the attribute `key = value`.
    pub fn add_attribute(self, key: &str, value: String) -> (r: Response)
        ensures
            r.attribute_pairs() == self.attribute_pairs().push((key@, value@)),
            r.messages@ == self.messages@,
    {
        let mut attributes = self.attributes;
        attributes.push(Attribute { key: key.to_owned(), value });
        let r = Response { attributes, messages: self.messages };
        assert(r.attribute_pairs() =~= self.attribute_pairs().push((key@, value@)));
        r
    }

    /// Appends an outbound message.
    pub fn add_message(self, m: WasmExecuteMsg) -> (r: Response)
        ensures
            r.messages@ == self.messages@.push(m),
            r.attributes@ == self.attributes@,
    {
        let mut messages = self.messages;
        messages.push(m);
        Response { attributes: self.attributes, messages }
    }
}

} // verus!
