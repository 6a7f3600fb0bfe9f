use std::time::Duration;
use std::time::UNIX_EPOCH;
use timesync::clock::epoch_millis_to_ms;
use timesync::clock::millis_to_ms;
use timesync::clock::sample_now;
use timesync::clock::system_time_to_ms;
use timesync::clock::timeval_parts;

#[test]
fn system_time_to_ms_counts_from_the_unix_epoch() {
    assert_eq!(system_time_to_ms(UNIX_EPOCH), Some(0));
    assert_eq!(system_time_to_ms(UNIX_EPOCH + Duration::from_millis(1500)), Some(1500));
    assert_eq!(system_time_to_ms(UNIX_EPOCH + Duration::from_micros(1_999_999)), Some(1999));
    assert_eq!(
        system_time_to_ms(UNIX_EPOCH + Duration::from_secs(1_782_000_000)),
        Some(1_782_000_000_000)
    );
}

#[test]
fn system_time_to_ms_refuses_times_before_the_epoch() {
    assert_eq!(system_time_to_ms(UNIX_EPOCH - Duration::from_millis(1)), None);
    assert_eq!(system_time_to_ms(UNIX_EPOCH - Duration::from_secs(86_400)), None);
}

#[test]
fn sample_now_is_after_2020() {
    let now = sample_now().expect("a clock after 1970");
    assert!(now > 1_577_836_800_000);
    let later = sample_now().expect("a clock after 1970");
    assert!(later >= now - 60_000);
}

#[test]
fn millis_to_ms_keeps_what_fits() {
    assert_eq!(millis_to_ms(0), 0);
    assert_eq!(millis_to_ms(1500), 1500);
    assert_eq!(millis_to_ms(i64::MAX as u128), i64::MAX);
}

#[test]
fn millis_to_ms_keeps_the_low_bits_of_what_does_not_fit() {
    assert_eq!(millis_to_ms(i64::MAX as u128 + 1), i64::MIN);
    assert_eq!(millis_to_ms(u64::MAX as u128), -1);
    assert_eq!(millis_to_ms((1u128 << 64) + 7), 7);
}

#[test]
fn timeval_parts_splits_seconds_and_microseconds() {
    assert_eq!(timeval_parts(0), (0, 0));
    assert_eq!(timeval_parts(1500), (1, 500_000));
    assert_eq!(timeval_parts(999), (0, 999_000));
    assert_eq!(timeval_parts(1_782_000_000_025), (1_782_000_000, 25_000));
    assert_eq!(timeval_parts(i64::MAX), (9_223_372_036_854_775, 807_000));
}

#[test]
fn timeval_parts_rounds_toward_zero() {
    assert_eq!(timeval_parts(-1), (0, -1000));
    assert_eq!(timeval_parts(-1500), (-1, -500_000));
    assert_eq!(timeval_parts(-2000), (-2, 0));
    assert_eq!(timeval_parts(i64::MIN), (-9_223_372_036_854_775, -808_000));
}

#[test]
fn epoch_millis_to_ms_gives_a_timestamp_for_every_span() {
    assert_eq!(epoch_millis_to_ms(Some(0)), Some(0));
    assert_eq!(epoch_millis_to_ms(Some(1500)), Some(1500));
    assert_eq!(epoch_millis_to_ms(Some(i64::MAX as u128)), Some(i64::MAX));
    assert_eq!(epoch_millis_to_ms(Some(i64::MAX as u128 + 1)), Some(i64::MIN));
    assert_eq!(epoch_millis_to_ms(Some(u128::MAX)), Some(-1));
}

#[test]
fn epoch_millis_to_ms_gives_none_without_a_span() {
    assert_eq!(epoch_millis_to_ms(None), None);
}

#[test]
fn system_time_to_ms_agrees_with_epoch_millis_to_ms() {
    let spans: Vec<Duration> = vec![
        Duration::from_millis(0),
        Duration::from_millis(999),
        Duration::from_micros(1_782_000_000_123_456),
        Duration::from_secs(1 << 40),
    ];
    for span in spans {
        let expected = epoch_millis_to_ms(Some(span.as_millis()));
        assert_eq!(system_time_to_ms(UNIX_EPOCH + span), expected);
    }
    assert_eq!(system_time_to_ms(UNIX_EPOCH - Duration::from_secs(1)), epoch_millis_to_ms(None));
}
