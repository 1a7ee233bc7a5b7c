//! Deployment-target description shared with surrounding tooling.

use vstd::prelude::*;

verus! {

/// Which network a deployment targets.
#[derive(Debug, Clone, Copy, PartialEq, Eq)]
pub enum NetType {
    Mainnet,
    Testnet,
}

impl NetType {
    pub fn as_text(&self) -> (r: &'static str)
        ensures
            *self == NetType::Mainnet ==> r@ == "mainnet"@,
            *self == NetType::Testnet ==> r@ == "testnet"@,
    {
        match self {
            NetType::Mainnet => "mainnet",
            NetType::Testnet => "testnet",
        }
    }
}

} // verus!
