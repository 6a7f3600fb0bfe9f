use timesync::error::clock_error_of;
use timesync::error::ClockError;
use timesync::error::SyncError;
use timesync::error::EXIT_CLOCK_FAILED;
use timesync::error::EXIT_OK;
use timesync::error::EXIT_QUERY_FAILED;
use timesync::error::EXIT_REJECTED;
use timesync::policy::Policy;
use timesync::policy::RETRY_PAUSE_MS;

#[test]
fn default_policy() {
    let policy = Policy::default();
    assert_eq!(policy.timeout_ms, 2000);
    assert_eq!(policy.retries, 3);
    assert_eq!(policy.threshold_ms, 500);
    assert_eq!(policy.max_delay_ms, 10_000);
    assert_eq!(policy.min_year, 2025);
    assert_eq!(policy.max_year, 2200);
    assert!(!policy.dry_run);
    assert_eq!(RETRY_PAUSE_MS, 200);
}

#[test]
fn with_timeout_ms_clamps() {
    let policy = Policy::default();
    assert_eq!(policy.with_timeout_ms(Some(1500)).timeout_ms, 1500);
    assert_eq!(policy.with_timeout_ms(Some(0)).timeout_ms, 1);
    assert_eq!(policy.with_timeout_ms(Some(1)).timeout_ms, 1);
    assert_eq!(policy.with_timeout_ms(Some(6000)).timeout_ms, 6000);
    assert_eq!(policy.with_timeout_ms(Some(6001)).timeout_ms, 6000);
    assert_eq!(policy.with_timeout_ms(Some(u64::MAX)).timeout_ms, 6000);
}

#[test]
fn with_timeout_ms_falls_back_to_the_default() {
    let policy = Policy::default().with_timeout_ms(Some(100));
    assert_eq!(policy.with_timeout_ms(None).timeout_ms, 2000);
}

#[test]
fn with_retries_clamps() {
    let policy = Policy::default();
    assert_eq!(policy.with_retries(Some(2)).retries, 2);
    assert_eq!(policy.with_retries(Some(0)).retries, 1);
    assert_eq!(policy.with_retries(Some(10)).retries, 10);
    assert_eq!(policy.with_retries(Some(11)).retries, 10);
    assert_eq!(policy.with_retries(Some(u32::MAX)).retries, 10);
}

#[test]
fn with_retries_falls_back_to_the_default() {
    let policy = Policy::default().with_retries(Some(7));
    assert_eq!(policy.with_retries(None).retries, 3);
}

#[test]
fn builders_leave_the_other_fields() {
    let policy =
        Policy::default().with_timeout_ms(Some(1500)).with_retries(Some(2)).with_dry_run(true);
    let expected = Policy { timeout_ms: 1500, retries: 2, dry_run: true, ..Policy::default() };
    assert_eq!(policy, expected);
    assert_eq!(policy.with_dry_run(false), Policy { dry_run: false, ..expected });
}

#[test]
fn exit_status_of_each_error() {
    assert_eq!(SyncError::ResolutionFailed.exit_status(), 2);
    assert_eq!(SyncError::QueryExhausted.exit_status(), 2);
    assert_eq!(SyncError::ArithmeticOverflow.exit_status(), 1);
    assert_eq!(SyncError::DelayOutOfRange.exit_status(), 1);
    assert_eq!(SyncError::YearOutOfRange.exit_status(), 1);
    assert_eq!(SyncError::ClockWriteFailed(ClockError::PermissionDenied).exit_status(), 10);
    assert_eq!(SyncError::ClockWriteFailed(ClockError::SyscallFailed(22)).exit_status(), 10);
    assert_eq!(SyncError::ClockWriteFailed(ClockError::Unsupported).exit_status(), 10);
}

#[test]
fn exit_statuses_are_distinct() {
    let codes: Vec<i32> = vec![EXIT_OK, EXIT_REJECTED, EXIT_QUERY_FAILED, EXIT_CLOCK_FAILED];
    assert_eq!(codes, vec![0, 1, 2, 10]);
}

#[test]
fn clock_error_of_sorts_the_refusals() {
    assert_eq!(clock_error_of(true, 1), ClockError::PermissionDenied);
    assert_eq!(clock_error_of(true, 0), ClockError::PermissionDenied);
    assert_eq!(clock_error_of(false, 22), ClockError::SyscallFailed(22));
    assert_eq!(clock_error_of(false, 1), ClockError::SyscallFailed(1));
    assert_eq!(clock_error_of(false, i32::MIN), ClockError::SyscallFailed(i32::MIN));
}
