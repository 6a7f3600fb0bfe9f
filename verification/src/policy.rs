//! The configuration of a run: built once, then passed to every component.
use vstd::prelude::*;

verus! {

/// Per-attempt timeout when none is asked for, in milliseconds.
pub const DEFAULT_TIMEOUT_MS: u64 = 2000;

/// Least per-attempt timeout.
pub const MIN_TIMEOUT_MS: u64 = 1;

/// Greatest per-attempt timeout.
pub const MAX_TIMEOUT_MS: u64 = 6000;

/// Attempts per address when no number is asked for.
pub const DEFAULT_RETRIES: u32 = 3;

/// Least number of attempts per address.
pub const MIN_RETRIES: u32 = 1;

/// Greatest number of attempts per address.
pub const MAX_RETRIES: u32 = 10;

/// Offsets that are not zero and smaller than this are left alone.
pub const DEFAULT_THRESHOLD_MS: i64 = 500;

/// A round trip longer than this discredits the sample.
pub const DEFAULT_MAX_DELAY_MS: i64 = 10000;

/// The earliest remote year that is believed.
pub const DEFAULT_MIN_YEAR: i32 = 2025;

/// The latest remote year that is believed.
pub const DEFAULT_MAX_YEAR: i32 = 2200;

/// The pause after a failed attempt, in milliseconds.
pub const RETRY_PAUSE_MS: u64 = 200;

/// What a run may do and what it believes.
#[derive(Clone, Copy, Debug, PartialEq, Eq, Structural)]
pub struct Policy {
    /// How long one attempt waits for its reply, in milliseconds.
    pub timeout_ms: u64,
    /// How many attempts each address gets.
    pub retries: u32,
    /// The least offset, in milliseconds, that is worth a clock write.
    pub threshold_ms: i64,
    /// The greatest round-trip delay, in milliseconds, that is believed.
    pub max_delay_ms: i64,
    /// The earliest remote calendar year that is believed.
    pub min_year: i32,
    /// The latest remote calendar year that is believed.
    pub max_year: i32,
    /// Whether the run must leave the clock alone.
    pub dry_run: bool,
}

/// `requested` brought into the span from `low` to `high`.
pub open spec fn clamped(requested: int, low: int, high: int) -> int {
    if requested < low {
        low
    } else if requested > high {
        high
    } else {
        requested
    }
}

impl Policy {
    /// The policy of a run that was given no options.
    pub open spec fn defaults() -> Policy {
        Policy {
            timeout_ms: DEFAULT_TIMEOUT_MS,
            retries: DEFAULT_RETRIES,
            threshold_ms: DEFAULT_THRESHOLD_MS,
            max_delay_ms: DEFAULT_MAX_DELAY_MS,
            min_year: DEFAULT_MIN_YEAR,
            max_year: DEFAULT_MAX_YEAR,
            dry_run: false,
        }
    }

    /// The same policy with the per-attempt timeout that was asked for,
    /// brought into the span from 1 to 6000 ms; with the default timeout
    /// where the request could not be read.
    pub fn with_timeout_ms(self, requested: Option<u64>) -> (p: Policy)
        ensures
            p == (Policy {
                timeout_ms: match requested {
                    Some(ms) => clamped(
                        ms as int,
                        MIN_TIMEOUT_MS as int,
                        MAX_TIMEOUT_MS as int,
                    ) as u64,
                    None => DEFAULT_TIMEOUT_MS,
                },
                ..self
            }),
            MIN_TIMEOUT_MS <= p.timeout_ms <= MAX_TIMEOUT_MS,
    {
        let timeout_ms: u64 = match requested {
            Some(ms) => if ms < MIN_TIMEOUT_MS {
                MIN_TIMEOUT_MS
            } else if ms > MAX_TIMEOUT_MS {
                MAX_TIMEOUT_MS
            } else {
                ms
            },
            None => DEFAULT_TIMEOUT_MS,
        };
        Policy { timeout_ms, ..self }
    }

    /// The same policy with the number of attempts that was asked for,
    /// brought into the span from 1 to 10; with the default number where the
    /// request could not be read.
    pub fn with_retries(self, requested: Option<u32>) -> (p: Policy)
        ensures
            p == (Policy {
                retries: match requested {
                    Some(n) => clamped(n as int, MIN_RETRIES as int, MAX_RETRIES as int) as u32,
                    None => DEFAULT_RETRIES,
                },
                ..self
            }),
            MIN_RETRIES <= p.retries <= MAX_RETRIES,
    {
        let retries: u32 = match requested {
            Some(n) => if n < MIN_RETRIES {
                MIN_RETRIES
            } else if n > MAX_RETRIES {
                MAX_RETRIES
            } else {
                n
            },
            None => DEFAULT_RETRIES,
        };
        Policy { retries, ..self }
    }

    /// The same policy, with the clock write allowed or forbidden.
    pub fn with_dry_run(self, dry_run: bool) -> (p: Policy)
        ensures
            p == (Policy { dry_run, ..self }),
    {
        Policy { dry_run, ..self }
    }
}

impl Default for Policy {
    fn default() -> (p: Policy)
        ensures
            p == Policy::defaults(),
    {
        Policy {
            timeout_ms: DEFAULT_TIMEOUT_MS,
            retries: DEFAULT_RETRIES,
            threshold_ms: DEFAULT_THRESHOLD_MS,
            max_delay_ms: DEFAULT_MAX_DELAY_MS,
            min_year: DEFAULT_MIN_YEAR,
            max_year: DEFAULT_MAX_YEAR,
            dry_run: false,
        }
    }
}

} // verus!
