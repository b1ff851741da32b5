//! Program escrow: the decision logic of the hackathon prize-pool escrow
//! contract, kept apart from the ledger host so that it can be proved.
//!
//! The host (storage, events, panics) is driven by `app/`; this crate says
//! what each step computes from the values that the host hands it.

use vstd::prelude::*;

pub mod anti_abuse;
pub mod chaos;
pub mod events;
pub mod host_types;

verus! {

/// The program escrow contract. Its entrypoints are registered with the
/// ledger host outside this crate; the type itself carries no state.
pub struct ProgramEscrowContract;

} // verus!
