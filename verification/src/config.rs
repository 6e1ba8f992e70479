//! The orchestrator's configuration: the identities of the external services
//! it talks to and the minimum value an inbound transfer must carry.
//!
//! The configuration is created once, at process start, and never mutated.

use vstd::prelude::*;
use vstd::string::StringExecFns;

verus! {

/// One indivisible unit of the transferable value; value-attaching entry
/// points demand exactly this amount as an authorization signal.
pub const YOCTO_NEAR: u128 = 1;

/// The minimum transferred amount an inbound notification must carry.
pub const PRICE: u128 = 100_000_000_000_000_000_000_000;

/// One teraunit of the resource budget attached to remote calls.
pub const TGAS: u64 = 1_000_000_000_000;

/// The orchestrator's immutable configuration.
pub struct Contract {
    /// Identity of the trusted fungible-token service.
    pub ft_contract: String,
    /// Identity of the automated market-making service.
    pub amm_contract: String,
    /// Minimum accepted amount for inbound transfers.
    pub price: u128,
}

impl Contract {
    /// Whether `target` is one of the configured service identities.
    pub open spec fn recognizes(&self, target: Seq<char>) -> bool {
        target == self.ft_contract@ || target == self.amm_contract@
    }
}

impl Default for Contract {
    /// The stock configuration: the deployed token and market-maker
    /// identities, and the stock minimum amount.
    fn default() -> (r: Self)
        ensures
            r.ft_contract@ == "token-v3.cheddar.testnet"@,
            r.amm_contract@ == "v2.ref-finance.near"@,
            r.price == PRICE,
    {
        Contract {
            ft_contract: String::from_str("token-v3.cheddar.testnet"),
            amm_contract: String::from_str("v2.ref-finance.near"),
            price: PRICE,
        }
    }
}

} // verus!
