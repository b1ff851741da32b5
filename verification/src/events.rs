//! Event payloads published by the contract.

use vstd::prelude::*;

verus! {

/// Published when the contract's read-only mode is switched on or off.
#[derive(Debug, PartialEq, Eq)]
pub struct ReadOnlyModeChanged {
    /// Whether read-only mode is now on.
    pub enabled: bool,
    /// The administrator who switched it.
    pub admin: soroban_sdk::Address,
    /// The ledger timestamp of the switch.
    pub timestamp: u64,
    /// An optional reason given by the administrator.
    pub reason: Option<soroban_sdk::String>,
}

} // verus!
