//! A counter contract that forwards every increment to a peer counter
//! contract and reports its own count together with the peer's.
//!
//! The library holds the contract's decisions over plain values: the state
//! it keeps, the messages it takes, the response and outbound messages it
//! returns, and the JSON bytes it puts on the wire. The host runtime
//! (storage, querier, dispatcher) sits outside and hands values in.

pub mod contract;
pub mod error;
pub mod json;
pub mod msg;
pub mod state;
