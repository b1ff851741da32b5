use program_escrow::anti_abuse::check_rate_limit;

#[test]
fn first_check_stores_one() {
    assert_eq!(check_rate_limit(None), 1);
}

#[test]
fn check_adds_one_to_stored_count() {
    assert_eq!(check_rate_limit(Some(0)), 1);
    assert_eq!(check_rate_limit(Some(41)), 42);
    assert_eq!(check_rate_limit(Some(u32::MAX - 1)), u32::MAX);
}

#[test]
fn counter_counts_calls() {
    let mut stored: Option<u32> = None;
    for _ in 0..5 {
        stored = Some(check_rate_limit(stored));
    }
    assert_eq!(stored, Some(5));
}
