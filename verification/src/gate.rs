//! The safety gate: whether a measured offset may become a clock write.
use vstd::prelude::*;
use chrono::Datelike;
use chrono::TimeZone;
use crate::error::SyncError;
use crate::offset::OffsetSample;
use crate::policy::Policy;

verus! {

/// What the safety gate decides.
#[derive(Clone, Copy, Debug, PartialEq, Eq, Structural)]
pub enum Decision {
    /// Write the clock: set it to `target_ms`, in Unix milliseconds.
    Adjust { target_ms: i64 },
    /// The offset is not zero, but too small to act on.
    SkipBelowThreshold,
    /// The round-trip delay is negative or above the ceiling.
    SkipDelayOutOfRange,
    /// The remote calendar year is not plausible.
    SkipYearOutOfRange,
    /// The caller may not set the clock.
    SkipNotPrivileged,
    /// The run was told to leave the clock alone.
    SkipDryRun,
}

/// Whether a round-trip delay is believed: not negative, not above the
/// ceiling.
pub open spec fn delay_in_range(delay_ms: int, policy: Policy) -> bool {
    0 <= delay_ms <= policy.max_delay_ms
}

/// Whether an offset is too small to act on: not zero, and of a magnitude
/// below the threshold. An offset of exactly zero is not below the threshold.
pub open spec fn below_threshold(offset_ms: int, policy: Policy) -> bool {
    offset_ms != 0 && -policy.threshold_ms < offset_ms < policy.threshold_ms
}

/// Whether the remote calendar year is known and within the plausible range.
pub open spec fn year_plausible(year: Option<i32>, policy: Policy) -> bool {
    year matches Some(y) && policy.min_year <= y <= policy.max_year
}

/// The best estimate of the server's present time: the remote transmit time
/// plus half the round-trip delay.
pub open spec fn adjust_target(remote_ms: int, delay_ms: int) -> int {
    remote_ms + delay_ms / 2
}

/// What is decided once delay, offset and year have passed: a dry run skips,
/// then a caller without privilege skips, and otherwise the clock is to be
/// set to the adjust target, which must fit in 64 bits.
pub open spec fn write_decision(
    remote_ms: i64,
    delay_ms: i64,
    privileged: bool,
    policy: Policy,
) -> Result<Decision, SyncError> {
    if policy.dry_run {
        Ok(Decision::SkipDryRun)
    } else if !privileged {
        Ok(Decision::SkipNotPrivileged)
    } else if adjust_target(remote_ms as int, delay_ms as int) > i64::MAX {
        Err(SyncError::ArithmeticOverflow)
    } else {
        Ok(
            Decision::Adjust {
                target_ms: adjust_target(remote_ms as int, delay_ms as int) as i64,
            },
        )
    }
}

/// The decision of the safety gate. The checks come in this order, and the
/// first that applies decides: delay out of range, offset below the
/// threshold, year not plausible; then those of `write_decision`.
pub open spec fn gate(
    sample: OffsetSample,
    remote_ms: i64,
    remote_year: Option<i32>,
    privileged: bool,
    policy: Policy,
) -> Result<Decision, SyncError> {
    if !delay_in_range(sample.delay_ms as int, policy) {
        Ok(Decision::SkipDelayOutOfRange)
    } else if below_threshold(sample.offset_ms as int, policy) {
        Ok(Decision::SkipBelowThreshold)
    } else if !year_plausible(remote_year, policy) {
        Ok(Decision::SkipYearOutOfRange)
    } else {
        write_decision(remote_ms, sample.delay_ms, privileged, policy)
    }
}

/// Decides whether the clock may be adjusted, given the calendar year of the
/// remote transmit time; `None` stands for an instant that has no single
/// calendar year, which is never plausible.
///
/// Fails with `ArithmeticOverflow` exactly when every check passes and the
/// target time does not fit in 64 bits.
pub fn safety_gate(
    sample: OffsetSample,
    remote_ms: i64,
    remote_year: Option<i32>,
    privileged: bool,
    policy: &Policy,
) -> (r: Result<Decision, SyncError>)
    ensures
        r == gate(sample, remote_ms, remote_year, privileged, *policy),
{
    if sample.delay_ms < 0 || sample.delay_ms > policy.max_delay_ms {
        return Ok(Decision::SkipDelayOutOfRange);
    }
    if sample.offset_ms != 0 && policy.threshold_ms > 0 && sample.offset_ms < policy.threshold_ms
        && sample.offset_ms > -policy.threshold_ms {
        return Ok(Decision::SkipBelowThreshold);
    }
    let plausible: bool = match remote_year {
        Some(y) => policy.min_year <= y && y <= policy.max_year,
        None => false,
    };
    if !plausible {
        return Ok(Decision::SkipYearOutOfRange);
    }
    if policy.dry_run {
        return Ok(Decision::SkipDryRun);
    }
    if !privileged {
        return Ok(Decision::SkipNotPrivileged);
    }
    let half_delay: i64 = sample.delay_ms / 2;
    match remote_ms.checked_add(half_delay) {
        Some(target_ms) => Ok(Decision::Adjust { target_ms }),
        None => Err(SyncError::ArithmeticOverflow),
    }
}

/// Calls `chrono::Local.timestamp_millis_opt` on an instant in Unix
/// milliseconds and, where chrono maps it to a single local date and time,
/// hands out that date's `Datelike::year`; chrono documents that an instant
/// outside its range gives no date, and any other a single one. The year
/// depends on the machine's time zone, so nothing is claimed of it.
#[verifier::external_body]
fn local_year(unix_ms: i64) -> (year: Option<i32>) {
    match chrono::Local.timestamp_millis_opt(unix_ms) {
        chrono::LocalResult::Single(moment) => Some(moment.year()),
        chrono::LocalResult::Ambiguous(_, _) => None,
        chrono::LocalResult::None => None,
    }
}

/// Decides whether the clock may be adjusted, taking the calendar year of
/// the remote transmit time in the machine's local time zone.
///
/// The decision is that of `safety_gate` for the year that the time zone
/// gives. Where the delay is out of range or the offset below the threshold,
/// the year plays no part; and whatever the year, the clock is only ever to
/// be set by a privileged caller outside a dry run, on a believable delay
/// and an offset worth acting on, to the remote time plus half the delay.
pub fn decide_adjustment(
    sample: OffsetSample,
    remote_ms: i64,
    privileged: bool,
    policy: &Policy,
) -> (r: Result<Decision, SyncError>)
    ensures
        exists|year: Option<i32>|
            r == #[trigger] gate(sample, remote_ms, year, privileged, *policy),
        !delay_in_range(sample.delay_ms as int, *policy) ==> r == Ok::<Decision, SyncError>(
            Decision::SkipDelayOutOfRange,
        ),
        delay_in_range(sample.delay_ms as int, *policy) && below_threshold(
            sample.offset_ms as int,
            *policy,
        ) ==> r == Ok::<Decision, SyncError>(Decision::SkipBelowThreshold),
        delay_in_range(sample.delay_ms as int, *policy) && !below_threshold(
            sample.offset_ms as int,
            *policy,
        ) ==> r == Ok::<Decision, SyncError>(Decision::SkipYearOutOfRange) || r == write_decision(
            remote_ms,
            sample.delay_ms,
            privileged,
            *policy,
        ),
        r matches Ok(Decision::Adjust { target_ms }) ==> {
            &&& privileged
            &&& !policy.dry_run
            &&& delay_in_range(sample.delay_ms as int, *policy)
            &&& !below_threshold(sample.offset_ms as int, *policy)
            &&& target_ms == adjust_target(remote_ms as int, sample.delay_ms as int)
        },
{
    let year = local_year(remote_ms);
    safety_gate(sample, remote_ms, year, privileged, policy)
}

/// The clock is to be set only when every check passes: the delay is
/// believed, the offset is zero or at least the threshold, the year is
/// plausible, the run is no dry run and the caller is privileged; and then to
/// the remote time plus half the delay.
pub proof fn lemma_adjust_only_when_safe(
    sample: OffsetSample,
    remote_ms: i64,
    remote_year: Option<i32>,
    privileged: bool,
    policy: Policy,
)
    ensures
        gate(sample, remote_ms, remote_year, privileged, policy) matches Ok(
            Decision::Adjust { target_ms },
        ) ==> {
            &&& delay_in_range(sample.delay_ms as int, policy)
            &&& !below_threshold(sample.offset_ms as int, policy)
            &&& year_plausible(remote_year, policy)
            &&& !policy.dry_run
            &&& privileged
            &&& target_ms == adjust_target(remote_ms as int, sample.delay_ms as int)
            &&& remote_ms <= target_ms <= remote_ms + policy.max_delay_ms / 2
        },
{
}

impl Decision {
    /// What a decision means for the run: a time to set the clock to, nothing
    /// to do, or a failed sanity check.
    pub open spec fn outcome(self) -> Result<Option<i64>, SyncError> {
        match self {
            Decision::Adjust { target_ms } => Ok(Some(target_ms)),
            Decision::SkipBelowThreshold => Ok(None),
            Decision::SkipDryRun => Ok(None),
            Decision::SkipNotPrivileged => Ok(None),
            Decision::SkipDelayOutOfRange => Err(SyncError::DelayOutOfRange),
            Decision::SkipYearOutOfRange => Err(SyncError::YearOutOfRange),
        }
    }

    /// Sorts the decision: `Ok(Some(t))` to set the clock to `t`, `Ok(None)`
    /// for a skip that ends the run in success, and the error for a skip
    /// that is fatal to the adjustment.
    pub fn to_outcome(&self) -> (r: Result<Option<i64>, SyncError>)
        ensures
            r == self.outcome(),
    {
        match self {
            Decision::Adjust { target_ms } => Ok(Some(*target_ms)),
            Decision::SkipBelowThreshold => Ok(None),
            Decision::SkipDryRun => Ok(None),
            Decision::SkipNotPrivileged => Ok(None),
            Decision::SkipDelayOutOfRange => Err(SyncError::DelayOutOfRange),
            Decision::SkipYearOutOfRange => Err(SyncError::YearOutOfRange),
        }
    }
}

} // verus!
