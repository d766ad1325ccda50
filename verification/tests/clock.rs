use profile_materials::clock::{epoch_millis, millis_to_u64, unix_time_millis, ClockError};

#[test]
fn the_clock_reads_after_the_epoch() {
    let now = unix_time_millis().unwrap();
    assert!(now > 1_600_000_000_000);
}

#[test]
fn milliseconds_must_fit_in_u64() {
    assert_eq!(millis_to_u64(42), Ok(42));
    assert_eq!(millis_to_u64(u128::from(u64::MAX) + 1), Err(ClockError::TimestampOverflow));
    assert_eq!(ClockError::BeforeUnixEpoch.message(), "system clock is before the Unix epoch");
}

#[test]
fn a_clock_before_the_epoch_is_an_error() {
    assert_eq!(epoch_millis(None), Err(ClockError::BeforeUnixEpoch));
    assert_eq!(epoch_millis(Some(1_700_000_000_000)), Ok(1_700_000_000_000));
    assert_eq!(epoch_millis(Some(u128::from(u64::MAX) + 1)), Err(ClockError::TimestampOverflow));
}
