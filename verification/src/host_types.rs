//! Ledger-host types that values of this crate carry through unread.

use vstd::prelude::*;

verus! {

/// A ledger account or contract address, an opaque handle of the host.
#[verifier::external_type_specification]
#[verifier::external_body]
pub struct ExAddress(soroban_sdk::Address);

/// A host string, an opaque handle of the host.
#[verifier::external_type_specification]
#[verifier::external_body]
pub struct ExHostString(soroban_sdk::String);

} // verus!
