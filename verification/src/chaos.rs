//! Fault-injection hooks for batch payouts.
//!
//! A harness stores a mode, a recipient index and a tick counter in three
//! temporary-storage slots; before each token transfer of a batch payout
//! the contract asks [`tick_before_transfer`] whether to go on, to fail the
//! transfer, or to flip the release pause and abort. These functions compute
//! the slots to store and the action to take; the host applies them (a panic
//! rolls back every write of the enclosing invocation).

use vstd::prelude::*;

verus! {

/// No injection: the production-equivalent path.
pub const MODE_NONE: u32 = 0;

/// Fail the transfer at the configured recipient index.
pub const MODE_TRANSFER_FAIL: u32 = 1;

/// Flip the release pause at the configured recipient index, then abort.
pub const MODE_PAUSE_MID: u32 = 2;

/// The panic message of an injected transfer failure.
pub const TRANSFER_FAIL_MSG: &'static str = "CHAOS_INJECTED_TRANSFER_FAILURE";

/// The panic message of an injected mid-batch release pause.
pub const PAUSE_MID_MSG: &'static str = "Funds Paused";

/// The three temporary-storage slots of the hooks; `None` is an absent slot.
#[derive(Clone, Copy, Debug, PartialEq, Eq, Structural)]
pub struct ChaosSlots {
    /// The injection mode.
    pub mode: Option<u32>,
    /// The recipient index (0-based) at which the fault is injected.
    pub fail_at: Option<u32>,
    /// How many transfers were ticked since the hooks were configured.
    pub count: Option<u32>,
}

/// What the contract does before a transfer.
#[derive(Clone, Copy, Debug, PartialEq, Eq, Structural)]
pub enum TickAction {
    /// Go on with the transfer.
    Proceed,
    /// Abort the invocation with the transfer-failure message.
    FailTransfer,
    /// Set the release pause flag, then abort with the pause message.
    PauseMidBatch,
}

impl TickAction {
    /// The message with which the invocation aborts; `None` where the
    /// transfer proceeds.
    pub fn message(&self) -> (msg: Option<&'static str>)
        ensures
            match *self {
                TickAction::Proceed => msg is None,
                TickAction::FailTransfer => msg == Some(TRANSFER_FAIL_MSG),
                TickAction::PauseMidBatch => msg == Some(PAUSE_MID_MSG),
            },
    {
        match self {
            TickAction::Proceed => None,
            TickAction::FailTransfer => Some(TRANSFER_FAIL_MSG),
            TickAction::PauseMidBatch => Some(PAUSE_MID_MSG),
        }
    }
}

/// The mode that a tick acts on: an absent slot means no injection.
pub open spec fn active_mode(slots: ChaosSlots) -> u32 {
    match slots.mode {
        Some(mode) => mode,
        None => MODE_NONE,
    }
}

/// The index at which a fault fires: an absent slot means `u32::MAX`.
pub open spec fn fault_index(slots: ChaosSlots) -> u32 {
    match slots.fail_at {
        Some(at) => at,
        None => u32::MAX,
    }
}

/// The number of transfers ticked so far: an absent slot means zero.
pub open spec fn ticks(slots: ChaosSlots) -> u32 {
    match slots.count {
        Some(count) => count,
        None => 0,
    }
}

/// A tick can record one more transfer without overflowing its counter.
pub open spec fn tick_allowed(slots: ChaosSlots) -> bool {
    active_mode(slots) != MODE_NONE ==> ticks(slots) < u32::MAX
}

/// The slots after a tick: unchanged without injection, else the counter
/// raised by one.
pub open spec fn tick_slots(slots: ChaosSlots) -> ChaosSlots {
    if active_mode(slots) == MODE_NONE {
        slots
    } else {
        ChaosSlots { count: Some((ticks(slots) + 1) as u32), ..slots }
    }
}

/// The action of a tick at recipient `index`: a fault only where the index
/// is the configured one and the mode is one of the two fault modes.
pub open spec fn tick_action(slots: ChaosSlots, index: u32) -> TickAction {
    if index == fault_index(slots) && active_mode(slots) == MODE_TRANSFER_FAIL {
        TickAction::FailTransfer
    } else if index == fault_index(slots) && active_mode(slots) == MODE_PAUSE_MID {
        TickAction::PauseMidBatch
    } else {
        TickAction::Proceed
    }
}

/// The slots after a reset: all three absent.
pub open spec fn cleared() -> ChaosSlots {
    ChaosSlots { mode: None, fail_at: None, count: None }
}

/// The slots after configuring `mode` at recipient `at`, from any prior state.
pub open spec fn configured(mode: u32, at: u32) -> ChaosSlots {
    ChaosSlots { mode: Some(mode), fail_at: Some(at), count: Some(0) }
}

/// Clears any previously configured injection.
pub fn reset() -> (slots: ChaosSlots)
    ensures
        slots == cleared(),
{
    ChaosSlots { mode: None, fail_at: None, count: None }
}

/// Configures a transfer failure at recipient index `at` (0-based); the
/// previous slots are replaced whatever they held.
pub fn configure_transfer_fail(at: u32) -> (slots: ChaosSlots)
    ensures
        slots == configured(MODE_TRANSFER_FAIL, at),
{
    ChaosSlots { mode: Some(MODE_TRANSFER_FAIL), fail_at: Some(at), count: Some(0) }
}

/// Configures a mid-batch release pause at recipient index `at` (0-based);
/// the previous slots are replaced whatever they held.
pub fn configure_pause_mid_batch(at: u32) -> (slots: ChaosSlots)
    ensures
        slots == configured(MODE_PAUSE_MID, at),
{
    ChaosSlots { mode: Some(MODE_PAUSE_MID), fail_at: Some(at), count: Some(0) }
}

/// The tick run before the transfer to recipient `index`: returns the slots
/// to store and the action to take.
///
/// Without injection nothing changes and the transfer proceeds. Otherwise
/// the counter rises by one, and the transfer fails (or the release pause is
/// flipped) exactly where `index` is the configured index.
pub fn tick_before_transfer(slots: ChaosSlots, index: u32) -> (out: (ChaosSlots, TickAction))
    requires
        tick_allowed(slots),
    ensures
        out.0 == tick_slots(slots),
        out.1 == tick_action(slots, index),
{
    let mode: u32 = match slots.mode {
        Some(mode) => mode,
        None => MODE_NONE,
    };
    if mode == MODE_NONE {
        return (slots, TickAction::Proceed);
    }
    let fail_at: u32 = match slots.fail_at {
        Some(at) => at,
        None => u32::MAX,
    };
    let count: u32 = match slots.count {
        Some(count) => count,
        None => 0,
    };
    let next = ChaosSlots { mode: slots.mode, fail_at: slots.fail_at, count: Some(count + 1) };
    if index != fail_at {
        return (next, TickAction::Proceed);
    }
    if mode == MODE_TRANSFER_FAIL {
        (next, TickAction::FailTransfer)
    } else if mode == MODE_PAUSE_MID {
        (next, TickAction::PauseMidBatch)
    } else {
        (next, TickAction::Proceed)
    }
}

/// The slots after `k` consecutive ticks, each storing what it returned.
pub open spec fn after_ticks(slots: ChaosSlots, k: nat) -> ChaosSlots
    decreases k,
{
    if k == 0 {
        slots
    } else {
        tick_slots(after_ticks(slots, (k - 1) as nat))
    }
}

/// The fault action that a fault mode injects.
pub open spec fn fault_of_mode(mode: u32) -> TickAction {
    if mode == MODE_TRANSFER_FAIL {
        TickAction::FailTransfer
    } else if mode == MODE_PAUSE_MID {
        TickAction::PauseMidBatch
    } else {
        TickAction::Proceed
    }
}

/// The first recipient, among indices `next .. len` ticked in order, at
/// which a fault fires, with its action; `None` when the batch runs through.
pub open spec fn first_fault(slots: ChaosSlots, next: nat, len: nat) -> Option<(nat, TickAction)>
    decreases len - next,
{
    if next >= len {
        None
    } else if tick_action(slots, next as u32) != TickAction::Proceed {
        Some((next, tick_action(slots, next as u32)))
    } else {
        first_fault(tick_slots(slots), next + 1, len)
    }
}

/// Without injection (after a reset, or with mode `MODE_NONE`) a tick never
/// faults and leaves the slots as they were: the production-equivalent path.
pub proof fn lemma_no_injection_is_transparent(slots: ChaosSlots, index: u32)
    requires
        active_mode(slots) == MODE_NONE,
    ensures
        tick_allowed(slots),
        tick_slots(slots) == slots,
        tick_action(slots, index) == TickAction::Proceed,
{
}

/// A reset disables every injection: each later tick proceeds and changes
/// nothing.
pub proof fn lemma_reset_disables_injection(index: u32)
    ensures
        tick_slots(cleared()) == cleared(),
        tick_action(cleared(), index) == TickAction::Proceed,
{
}

/// Ticks keep the configuration: after `k` ticks from configuring `mode` at
/// `at`, mode and index are unchanged and the counter reads `k`; so every
/// tick of a batch of up to `u32::MAX` transfers may run.
pub proof fn lemma_ticks_count_transfers(mode: u32, at: u32, k: nat)
    requires
        k <= u32::MAX,
    ensures
        after_ticks(configured(mode, at), k).mode == Some(mode),
        after_ticks(configured(mode, at), k).fail_at == Some(at),
        mode != MODE_NONE ==> after_ticks(configured(mode, at), k).count == Some(k as u32),
        mode != MODE_NONE && k < u32::MAX ==> tick_allowed(after_ticks(configured(mode, at), k)),
    decreases k,
{
    if k > 0 {
        lemma_ticks_count_transfers(mode, at, (k - 1) as nat);
    }
}

/// The fault fires at the configured index and nowhere else: ticking the
/// recipients `next .. len` of a batch in order, with a fault mode active
/// at index `at`, the first fault is at `at` when `next <= at < len`, and
/// there is none otherwise.
proof fn lemma_first_fault_from(slots: ChaosSlots, next: nat, len: nat)
    requires
        active_mode(slots) == MODE_TRANSFER_FAIL || active_mode(slots) == MODE_PAUSE_MID,
        len <= u32::MAX + 1,
    ensures
        first_fault(slots, next, len) == (if next <= fault_index(slots) < len {
            Some((fault_index(slots) as nat, fault_of_mode(active_mode(slots))))
        } else {
            None
        }),
    decreases len - next,
{
    if next < len {
        lemma_first_fault_from(tick_slots(slots), next + 1, len);
    }
}

/// A batch configured to fault at recipient `at` runs every transfer before
/// `at`, and faults at `at` with the mode's action (a failed transfer, or a
/// flipped release pause); a batch of `len <= at` recipients runs through.
pub proof fn lemma_batch_faults_at_configured_index(mode: u32, at: u32, len: nat)
    requires
        mode == MODE_TRANSFER_FAIL || mode == MODE_PAUSE_MID,
        len <= u32::MAX + 1,
    ensures
        first_fault(configured(mode, at), 0, len) == (if at < len {
            Some((at as nat, fault_of_mode(mode)))
        } else {
            None
        }),
{
    lemma_first_fault_from(configured(mode, at), 0, len);
}

} // verus!
