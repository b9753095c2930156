use std::time::Duration;

use qol_cli::clock::{now_unix_ms, unix_ms};

#[test]
fn unix_ms_truncates_to_whole_milliseconds_and_zeroes_a_pre_epoch_clock() {
    assert_eq!(unix_ms(None), 0);
    assert_eq!(unix_ms(Some(Duration::new(1, 999_999))), 1_000);
    assert_eq!(unix_ms(Some(Duration::from_millis(1_700_000_000_123))), 1_700_000_000_123);
    assert_eq!(unix_ms(Some(Duration::new(u64::MAX, 0))), (u64::MAX as u128 * 1_000 % (1u128 << 64)) as u64);
    assert!(now_unix_ms() > 1_600_000_000_000);
}
