use std::time::Duration;

use qol_cli::poller::{newest, next_wait};

#[test]
fn next_wait_resets_on_dirty_and_doubles_to_cap() {
    let cases = [
        (true, 40, 10, 60, 10),
        (false, 10, 10, 60, 20),
        (false, 20, 10, 60, 40),
        (false, 40, 10, 60, 60),
        (false, 60, 10, 60, 60),
    ];
    for (dirty, wait, base, cap, expected) in cases {
        assert_eq!(
            next_wait(
                dirty,
                Duration::from_secs(wait),
                Duration::from_secs(base),
                Duration::from_secs(cap),
            ),
            Duration::from_secs(expected),
            "dirty: {dirty} wait: {wait}"
        );
    }
}

#[test]
fn next_wait_saturates_instead_of_overflowing() {
    assert_eq!(
        next_wait(false, Duration::MAX, Duration::from_secs(1), Duration::MAX),
        Duration::MAX
    );
    assert_eq!(
        next_wait(false, Duration::from_nanos(3), Duration::ZERO, Duration::from_secs(1)),
        Duration::from_nanos(6)
    );
}

#[test]
fn the_latest_value_is_the_newest_arrival() {
    assert_eq!(newest::<u32>(vec![]), None);
    assert_eq!(newest(vec![1, 2, 3]), Some(3));
}
