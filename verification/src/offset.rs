//! Round-trip delay and clock offset from the four timestamps of an exchange.
use vstd::prelude::*;
use crate::error::SyncError;
use crate::wire::Reply;

verus! {

/// The four timestamps of one exchange, in Unix milliseconds.
#[derive(Clone, Copy, Debug, PartialEq, Eq, Structural)]
pub struct Exchange {
    /// Local time when the request was sent.
    pub t1: i64,
    /// Server time when the request arrived.
    pub t2: i64,
    /// Server time when the reply was sent.
    pub t3: i64,
    /// Local time when the reply arrived.
    pub t4: i64,
}

/// What an exchange says of the path and of the local clock.
#[derive(Clone, Copy, Debug, PartialEq, Eq, Structural)]
pub struct OffsetSample {
    /// Round-trip delay in milliseconds.
    pub delay_ms: i64,
    /// Remote clock minus local clock, in milliseconds.
    pub offset_ms: i64,
}

/// Whether a value fits the 64-bit width in which timestamps are held.
pub open spec fn fits_i64(x: int) -> bool {
    i64::MIN <= x <= i64::MAX
}

/// Half of `n`, rounded toward zero.
pub open spec fn half_toward_zero(n: int) -> int {
    if n >= 0 {
        n / 2
    } else {
        -((-n) / 2)
    }
}

/// Round-trip delay: the time away, less the time that the server held the
/// request.
pub open spec fn delay_of(t1: int, t2: int, t3: int, t4: int) -> int {
    (t4 - t1) - (t3 - t2)
}

/// Clock offset: the mean of the two one-way differences, rounded toward
/// zero.
pub open spec fn offset_of(t1: int, t2: int, t3: int, t4: int) -> int {
    half_toward_zero((t2 - t1) + (t3 - t4))
}

/// Whether the two sums whose halves are the local and the remote midpoint,
/// the delay and the offset all fit the working width.
pub open spec fn in_working_range(t1: int, t2: int, t3: int, t4: int) -> bool {
    &&& fits_i64(t1 + t4)
    &&& fits_i64(t2 + t3)
    &&& fits_i64(delay_of(t1, t2, t3, t4))
    &&& fits_i64(offset_of(t1, t2, t3, t4))
}

impl Exchange {
    /// Whether the local clock did not run backwards across the round trip.
    pub open spec fn trustworthy(self) -> bool {
        self.t1 <= self.t4
    }

    /// Whether the local clock did not run backwards across the round trip.
    pub fn is_trustworthy(&self) -> (b: bool)
        ensures
            b == self.trustworthy(),
    {
        self.t1 <= self.t4
    }

    /// The exchange of a reply to a request that was sent at local time
    /// `t1_ms`, the reply having arrived at local time `t4_ms`: the server's
    /// receive and transmit times in Unix milliseconds stand between the two.
    /// A server time before the Unix epoch is carried as the negative number
    /// that it is.
    pub fn from_reply(t1_ms: i64, reply: &Reply, t4_ms: i64) -> (exchange: Exchange)
        ensures
            exchange == exchange_of(t1_ms, *reply, t4_ms),
    {
        Exchange {
            t1: t1_ms,
            t2: reply.receive.to_unix_ms(),
            t3: reply.transmit.to_unix_ms(),
            t4: t4_ms,
        }
    }
}

/// The exchange that a reply and the two local timestamps make.
pub open spec fn exchange_of(t1_ms: i64, reply: Reply, t4_ms: i64) -> Exchange {
    Exchange {
        t1: t1_ms,
        t2: reply.receive.unix_ms() as i64,
        t3: reply.transmit.unix_ms() as i64,
        t4: t4_ms,
    }
}

/// Computes delay and offset of an exchange, in milliseconds:
/// `delay = (t4 - t1) - (t3 - t2)` and `offset = ((t2 - t1) + (t3 - t4)) / 2`,
/// the division rounding toward zero. All intermediate values are held in
/// 128 bits.
///
/// Fails with `ArithmeticOverflow` exactly when one of the sums `t1 + t4` and
/// `t2 + t3`, the delay or the offset does not fit in 64 bits.
pub fn compute(t1: i64, t2: i64, t3: i64, t4: i64) -> (r: Result<OffsetSample, SyncError>)
    ensures
        r is Ok <==> in_working_range(t1 as int, t2 as int, t3 as int, t4 as int),
        r matches Ok(sample) ==> sample.delay_ms == delay_of(
            t1 as int,
            t2 as int,
            t3 as int,
            t4 as int,
        ) && sample.offset_ms == offset_of(t1 as int, t2 as int, t3 as int, t4 as int),
        r is Err ==> r == Err::<OffsetSample, SyncError>(SyncError::ArithmeticOverflow),
        !fits_i64(t1 + t4) ==> r == Err::<OffsetSample, SyncError>(SyncError::ArithmeticOverflow),
{
    let w1: i128 = t1 as i128;
    let w2: i128 = t2 as i128;
    let w3: i128 = t3 as i128;
    let w4: i128 = t4 as i128;
    let local_sum: i128 = w1 + w4;
    let remote_sum: i128 = w2 + w3;
    let delay: i128 = (w4 - w1) - (w3 - w2);
    let offset: i128 = ((w2 - w1) + (w3 - w4)) / 2;
    if narrow(local_sum).is_none() || narrow(remote_sum).is_none() {
        return Err(SyncError::ArithmeticOverflow);
    }
    match narrow(delay) {
        Some(delay_ms) => match narrow(offset) {
            Some(offset_ms) => Ok(OffsetSample { delay_ms, offset_ms }),
            None => Err(SyncError::ArithmeticOverflow),
        },
        None => Err(SyncError::ArithmeticOverflow),
    }
}

/// The value in 64 bits, if it fits.
fn narrow(wide: i128) -> (r: Option<i64>)
    ensures
        r is Some <==> fits_i64(wide as int),
        r matches Some(x) ==> x == wide,
{
    if wide < i64::MIN as i128 || wide > i64::MAX as i128 {
        None
    } else {
        Some(wide as i64)
    }
}

} // verus!
