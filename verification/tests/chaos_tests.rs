use program_escrow::chaos::{
    configure_pause_mid_batch, configure_transfer_fail, reset, tick_before_transfer, ChaosSlots,
    TickAction, MODE_NONE, MODE_PAUSE_MID, MODE_TRANSFER_FAIL, PAUSE_MID_MSG, TRANSFER_FAIL_MSG,
};

/// Ticks recipients `0..len` in order; returns the first fault and the
/// slots as they stood after the last tick.
fn run_batch(mut slots: ChaosSlots, len: u32) -> (Option<(u32, TickAction)>, ChaosSlots) {
    for index in 0..len {
        let (next, action) = tick_before_transfer(slots, index);
        slots = next;
        if action != TickAction::Proceed {
            return (Some((index, action)), slots);
        }
    }
    (None, slots)
}

#[test]
fn reset_clears_all_slots() {
    assert_eq!(reset(), ChaosSlots { mode: None, fail_at: None, count: None });
}

#[test]
fn configure_transfer_fail_sets_slots() {
    assert_eq!(
        configure_transfer_fail(3),
        ChaosSlots { mode: Some(MODE_TRANSFER_FAIL), fail_at: Some(3), count: Some(0) }
    );
}

#[test]
fn configure_pause_mid_batch_sets_slots() {
    assert_eq!(
        configure_pause_mid_batch(0),
        ChaosSlots { mode: Some(MODE_PAUSE_MID), fail_at: Some(0), count: Some(0) }
    );
}

#[test]
fn no_injection_is_transparent() {
    let cleared = reset();
    for index in [0u32, 1, 7, u32::MAX] {
        assert_eq!(tick_before_transfer(cleared, index), (cleared, TickAction::Proceed));
    }
    let none_mode = ChaosSlots { mode: Some(MODE_NONE), fail_at: Some(2), count: Some(u32::MAX) };
    assert_eq!(tick_before_transfer(none_mode, 2), (none_mode, TickAction::Proceed));
}

#[test]
fn tick_counts_transfers() {
    let (fault, slots) = run_batch(configure_transfer_fail(10), 3);
    assert_eq!(fault, None);
    assert_eq!(slots, ChaosSlots { mode: Some(MODE_TRANSFER_FAIL), fail_at: Some(10), count: Some(3) });
}

#[test]
fn transfer_fail_fires_at_configured_index() {
    let (fault, slots) = run_batch(configure_transfer_fail(2), 5);
    assert_eq!(fault, Some((2, TickAction::FailTransfer)));
    assert_eq!(slots.count, Some(3));
}

#[test]
fn pause_mid_batch_fires_at_configured_index() {
    let (fault, _) = run_batch(configure_pause_mid_batch(4), 5);
    assert_eq!(fault, Some((4, TickAction::PauseMidBatch)));
    let (fault, _) = run_batch(configure_pause_mid_batch(0), 1);
    assert_eq!(fault, Some((0, TickAction::PauseMidBatch)));
}

#[test]
fn batch_shorter_than_fault_index_runs_through() {
    let (fault, slots) = run_batch(configure_transfer_fail(5), 5);
    assert_eq!(fault, None);
    assert_eq!(slots.count, Some(5));
}

#[test]
fn unknown_mode_counts_but_never_faults() {
    let slots = ChaosSlots { mode: Some(7), fail_at: Some(1), count: None };
    let (next, action) = tick_before_transfer(slots, 1);
    assert_eq!(action, TickAction::Proceed);
    assert_eq!(next, ChaosSlots { mode: Some(7), fail_at: Some(1), count: Some(1) });
}

#[test]
fn absent_fault_index_means_max_index() {
    let slots = ChaosSlots { mode: Some(MODE_TRANSFER_FAIL), fail_at: None, count: None };
    assert_eq!(tick_before_transfer(slots, 0).1, TickAction::Proceed);
    assert_eq!(tick_before_transfer(slots, u32::MAX).1, TickAction::FailTransfer);
}

#[test]
fn fault_messages() {
    assert_eq!(TickAction::Proceed.message(), None);
    assert_eq!(TickAction::FailTransfer.message(), Some("CHAOS_INJECTED_TRANSFER_FAILURE"));
    assert_eq!(TickAction::PauseMidBatch.message(), Some("Funds Paused"));
    assert_eq!(TRANSFER_FAIL_MSG, "CHAOS_INJECTED_TRANSFER_FAILURE");
    assert_eq!(PAUSE_MID_MSG, "Funds Paused");
}
