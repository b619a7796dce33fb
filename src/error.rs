use vstd::prelude::*;

verus! {

/// The host's standard error, as far as this contract surfaces it.
#[derive(Clone, Debug, PartialEq, Eq)]
pub enum StdError {
    /// No value is stored under the key that was read.
    NotFound,
    /// Any other failure reported by the host, with its message.
    GenericErr { msg: String },
}

/// Everything that can make `instantiate` or `execute` fail.
#[derive(Clone, Debug, PartialEq, Eq)]
pub enum ContractError {
    /// A failure of the host storage, passed on unchanged.
    Storage(StdError),
    /// The counter is already at `u64::MAX` and cannot be incremented.
    Overflow,
}

} // verus!
