use codex_rc::ids::next_id;

#[test]
fn next_id_hands_out_consecutive_ids() {
    let mut counter = 1u64;
    assert_eq!(next_id(&mut counter), 1);
    assert_eq!(next_id(&mut counter), 2);
    assert_eq!(counter, 3);
}

#[test]
fn next_id_wraps_at_the_top() {
    let mut counter = u64::MAX;
    assert_eq!(next_id(&mut counter), u64::MAX);
    assert_eq!(counter, 0);
}
