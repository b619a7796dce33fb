use vstd::prelude::*;

use crate::error::{ContractError, StdError};

verus! {

/// The one persisted entity: the local count.
#[derive(Clone, Copy, Debug, PartialEq, Eq, Structural)]
pub struct Counter {
    pub count: u64,
}

/// Name and version of the deployed contract, recorded at instantiation.
#[derive(Clone, Debug, PartialEq, Eq)]
pub struct ContractVersion {
    pub contract: String,
    pub version: String,
}

/// The part of the host storage that this contract owns: the counter
/// singleton and the contract-version record, each present or not.
#[derive(Clone, Debug, PartialEq, Eq)]
pub struct Store {
    pub counter: Option<Counter>,
    pub version: Option<ContractVersion>,
}

impl Store {
    /// Storage of a contract that was never instantiated.
    pub fn new() -> (r: Store)
        ensures
            r.counter is None,
            r.version is None,
    {
        Store { counter: None, version: None }
    }

    /// Overwrites the counter singleton.
    pub fn save(&mut self, counter: Counter)
        ensures
            final(self).counter == Some(counter),
            final(self).version == old(self).version,
    {
        self.counter = Some(counter);
    }

    /// Reads the counter singleton.
    pub fn load(&self) -> (r: Result<Counter, StdError>)
        ensures
            r == load_result(*self),
    {
        match self.counter {
            Some(c) => Ok(c),
            None => Err(StdError::NotFound),
        }
    }

    /// Reads the counter, applies `f` to it, and stores what `f` returns.
    /// Nothing is stored when the read or `f` fails; the error is returned.
    pub fn update<F>(&mut self, f: F) -> (r: Result<Counter, ContractError>)
        where
            F: FnOnce(Counter) -> Result<Counter, ContractError>,
        requires
            old(self).counter matches Some(c) ==> f.requires((c,)),
        ensures
            match old(self).counter {
                None => {
                    &&& r == Err::<Counter, ContractError>(ContractError::Storage(StdError::NotFound))
                    &&& *final(self) == *old(self)
                },
                Some(c) => {
                    &&& f.ensures((c,), r)
                    &&& match r {
                        Ok(n) => final(self).counter == Some(n) && final(self).version
                            == old(self).version,
                        Err(_) => *final(self) == *old(self),
                    }
                },
            },
    {
        match self.counter {
            None => Err(ContractError::Storage(StdError::NotFound)),
            Some(c) => {
                let r = f(c);
                match r {
                    Ok(n) => {
                        self.counter = Some(n);
                        Ok(n)
                    },
                    Err(e) => Err(e),
                }
            },
        }
    }
}

/// What reading the counter out of `s` gives.
pub open spec fn load_result(s: Store) -> Result<Counter, StdError> {
    match s.counter {
        Some(c) => Ok(c),
        None => Err(StdError::NotFound),
    }
}

} // verus!
