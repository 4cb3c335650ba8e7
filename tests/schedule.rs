use night_light::schedule::desired_state;

#[test]
fn night_hours_want_the_filter_on() {
    for h in [19u32, 20, 21, 22, 23, 0, 1, 2, 3, 4, 5, 6] {
        assert!(desired_state(h), "hour {} should be night", h);
    }
}

#[test]
fn day_hours_want_the_filter_off() {
    for h in 7u32..=18 {
        assert!(!desired_state(h), "hour {} should be day", h);
    }
}

#[test]
fn boundaries_are_exact() {
    assert!(desired_state(19));
    assert!(!desired_state(18));
    assert!(desired_state(6));
    assert!(!desired_state(7));
}
