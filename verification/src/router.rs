//! The capability handle an application receives during a dispatch
//! call, through which it can issue further protocol operations against
//! the surrounding environment.
//!
//! The environment implements this trait; the library promises nothing
//! about the outcomes of its methods, so everything proved about an
//! application holds for every environment behaviour.

use vstd::prelude::*;

use crate::bank::{AppResponse, CosmosMsg, SudoMsg};

verus! {

/// Operations against the surrounding execution environment.
///
/// `execute`, `sudo` and `query` mirror the narrow interface a chain
/// router offers a module; `addr_validate` is the environment's address
/// normalisation, reachable through the same handle.
pub trait Router {
    /// Run an ordinary message as if issued by `sender`.
    fn execute(&mut self, sender: &String, msg: &CosmosMsg) -> Result<AppResponse, String>;

    /// Run a privileged operation, bypassing normal authorization.
    fn sudo(&mut self, msg: &SudoMsg) -> Result<AppResponse, String>;

    /// Read-only call into the environment.
    fn query(&self, path: &String, data: &Vec<u8>) -> Result<Vec<u8>, String>;

    /// Validate and normalise an address.
    fn addr_validate(&self, address: &String) -> Result<String, String>;
}

} // verus!
