//! The protocol's 64-bit fixed-point timestamps and their conversion to and
//! from milliseconds since the Unix epoch.
use vstd::prelude::*;

verus! {

/// Seconds from the protocol epoch (1900-01-01) to the Unix epoch (1970-01-01).
pub const NTP_UNIX_EPOCH_DIFF: u64 = 2208988800;

/// The same distance in milliseconds.
pub const EPOCH_DIFF_MS: i64 = 2208988800000;

/// The first Unix millisecond that the 32-bit seconds field can no longer hold.
pub const ERA_END_MS: i64 = 2085978496000;

/// A protocol timestamp: whole seconds since 1900-01-01 and a binary fraction
/// of a second, scaled to 2^32.
#[derive(Clone, Copy, Debug, PartialEq, Eq, Structural)]
pub struct FixedPointTimestamp {
    pub seconds: u32,
    pub fraction: u32,
}

/// The 32-bit fraction that stands for `millis` thousandths of a second.
pub open spec fn fraction_of_millis(millis: int) -> int {
    (millis * 0x1_0000_0000) / 1000
}

/// The whole milliseconds held in a 32-bit fraction.
pub open spec fn millis_of_fraction(fraction: int) -> int {
    (fraction * 1000) / 0x1_0000_0000
}

/// Whether an instant, in Unix milliseconds, lies in the span that the
/// seconds field covers: from 1900-01-01 up to 2^32 seconds later.
pub open spec fn representable(ms: int) -> bool {
    -EPOCH_DIFF_MS <= ms < ERA_END_MS
}

/// The number that four octets spell in network byte order.
pub open spec fn be32_value(octets: Seq<u8>) -> int
    recommends
        octets.len() == 4,
{
    octets[0] * 0x100_0000 + octets[1] * 0x1_0000 + octets[2] * 0x100 + octets[3]
}

/// The four octets of a 32-bit number in network byte order.
pub open spec fn be32_octets(value: u32) -> Seq<u8> {
    seq![
        (value / 0x100_0000) as u8,
        ((value / 0x1_0000) % 0x100) as u8,
        ((value / 0x100) % 0x100) as u8,
        (value % 0x100) as u8,
    ]
}

impl FixedPointTimestamp {
    /// The timestamp of an instant given in Unix milliseconds.
    pub open spec fn of_unix_ms(ms: int) -> FixedPointTimestamp
        recommends
            representable(ms),
    {
        FixedPointTimestamp {
            seconds: ((ms + EPOCH_DIFF_MS) / 1000) as u32,
            fraction: fraction_of_millis((ms + EPOCH_DIFF_MS) % 1000) as u32,
        }
    }

    /// Whether the timestamp lies at or after the Unix epoch.
    pub open spec fn after_unix_epoch(self) -> bool {
        self.seconds >= NTP_UNIX_EPOCH_DIFF
    }

    /// The instant in Unix milliseconds, rounded down; negative for a
    /// timestamp before the Unix epoch.
    pub open spec fn unix_ms(self) -> int {
        (self.seconds - NTP_UNIX_EPOCH_DIFF) * 1000 + millis_of_fraction(self.fraction as int)
    }

    /// The eight octets of the timestamp on the wire: seconds, then fraction.
    pub open spec fn octets(self) -> Seq<u8> {
        be32_octets(self.seconds) + be32_octets(self.fraction)
    }

    /// The timestamp that eight octets spell.
    pub open spec fn from_octets(octets: Seq<u8>) -> FixedPointTimestamp
        recommends
            octets.len() == 8,
    {
        FixedPointTimestamp {
            seconds: be32_value(octets.subrange(0, 4)) as u32,
            fraction: be32_value(octets.subrange(4, 8)) as u32,
        }
    }
}

/// Reads a 32-bit number in network byte order.
fn read_be32(buf: &[u8], at: usize) -> (value: u32)
    requires
        at + 4 <= buf.len(),
    ensures
        value == be32_value(buf@.subrange(at as int, at + 4)),
{
    let b0: u32 = buf[at] as u32;
    let b1: u32 = buf[at + 1] as u32;
    let b2: u32 = buf[at + 2] as u32;
    let b3: u32 = buf[at + 3] as u32;
    b0 * 0x100_0000 + b1 * 0x1_0000 + b2 * 0x100 + b3
}

/// The four octets of `value`, most significant first.
fn split_be32(value: u32) -> (octets: (u8, u8, u8, u8))
    ensures
        seq![octets.0, octets.1, octets.2, octets.3] == be32_octets(value),
{
    (
        (value / 0x100_0000) as u8,
        ((value / 0x1_0000) % 0x100) as u8,
        ((value / 0x100) % 0x100) as u8,
        (value % 0x100) as u8,
    )
}

impl FixedPointTimestamp {
    /// Reads the timestamp that stands at offset `at` of a buffer.
    pub(crate) fn read(buf: &[u8], at: usize) -> (ts: FixedPointTimestamp)
        requires
            at + 8 <= buf.len(),
        ensures
            ts == Self::from_octets(buf@.subrange(at as int, at + 8)),
    {
        proof {
            let whole = buf@.subrange(at as int, at + 8);
            assert(whole.subrange(0, 4) == buf@.subrange(at as int, at + 4));
            assert(whole.subrange(4, 8) == buf@.subrange(at + 4, at + 8));
        }
        FixedPointTimestamp { seconds: read_be32(buf, at), fraction: read_be32(buf, at + 4) }
    }

    /// The instant in Unix milliseconds: the seconds less the epoch
    /// distance, and `(fraction * 1000) >> 32` milliseconds. A timestamp
    /// before the Unix epoch gives a negative number.
    pub fn to_unix_ms(&self) -> (ms: i64)
        ensures
            ms == self.unix_ms(),
            -EPOCH_DIFF_MS <= ms < ERA_END_MS,
            ms >= 0 <==> self.after_unix_epoch(),
    {
        let scaled: u64 = (self.fraction as u64) * 1000;
        assert((scaled >> 32) == scaled / 0x1_0000_0000) by (bit_vector);
        let millis: u64 = scaled >> 32;
        let seconds: i64 = self.seconds as i64 - NTP_UNIX_EPOCH_DIFF as i64;
        seconds * 1000 + millis as i64
    }

    /// The eight octets of the timestamp, in wire order.
    pub fn to_octets(&self) -> (out: [u8; 8])
        ensures
            out@ == self.octets(),
    {
        let s = split_be32(self.seconds);
        let f = split_be32(self.fraction);
        let out: [u8; 8] = [s.0, s.1, s.2, s.3, f.0, f.1, f.2, f.3];
        assert(out@ =~= seq![s.0, s.1, s.2, s.3] + seq![f.0, f.1, f.2, f.3]);
        out
    }
}

/// Converts an instant in Unix milliseconds to a protocol timestamp: the
/// epoch distance is added to the seconds, and the milliseconds within the
/// second become the fraction `(millis << 32) / 1000`.
///
/// Returns `None` exactly when the instant lies outside the span that the
/// 32-bit seconds field covers.
pub fn to_fixed_point(ms: i64) -> (r: Option<FixedPointTimestamp>)
    ensures
        r == if representable(ms as int) {
            Some(FixedPointTimestamp::of_unix_ms(ms as int))
        } else {
            None
        },
{
    if ms < -EPOCH_DIFF_MS || ms >= ERA_END_MS {
        return None;
    }
    let shifted: i64 = ms + EPOCH_DIFF_MS;
    let secs: i64 = shifted / 1000;
    let millis: u64 = (shifted % 1000) as u64;
    assert((millis << 32) == millis * 0x1_0000_0000) by (bit_vector)
        requires
            millis < 1000,
    ;
    let fraction: u64 = (millis << 32) / 1000;
    Some(FixedPointTimestamp { seconds: secs as u32, fraction: fraction as u32 })
}

/// Converts a protocol timestamp to Unix milliseconds: the epoch distance is
/// taken from the seconds, and the fraction gives `(fraction * 1000) >> 32`
/// milliseconds.
///
/// Returns `None` exactly when the timestamp lies before the Unix epoch.
pub fn from_fixed_point(ts: FixedPointTimestamp) -> (r: Option<i64>)
    ensures
        r is Some <==> ts.after_unix_epoch(),
        r matches Some(ms) ==> ms == ts.unix_ms(),
{
    if (ts.seconds as u64) < NTP_UNIX_EPOCH_DIFF {
        return None;
    }
    Some(ts.to_unix_ms())
}

/// Reads the timestamp in the first eight octets of `buf` and converts it to
/// Unix milliseconds.
///
/// Returns `None` exactly when `buf` holds fewer than eight octets or the
/// timestamp lies before the Unix epoch.
pub fn ntp_ts_to_unix_ms(buf: &[u8]) -> (r: Option<i64>)
    ensures
        r is Some <==> buf@.len() >= 8 && FixedPointTimestamp::from_octets(
            buf@.subrange(0, 8),
        ).after_unix_epoch(),
        r matches Some(ms) ==> ms == FixedPointTimestamp::from_octets(
            buf@.subrange(0, 8),
        ).unix_ms(),
{
    if buf.len() < 8 {
        return None;
    }
    from_fixed_point(FixedPointTimestamp::read(buf, 0))
}

/// Converting an instant at or after the Unix epoch to a timestamp and back
/// gives the instant again, or the millisecond before it: the instant itself
/// exactly when its milliseconds within the second are a multiple of 125,
/// which are the thousandths that a binary fraction holds without loss.
pub proof fn lemma_milliseconds_round_trip(ms: int)
    requires
        0 <= ms < ERA_END_MS,
    ensures
        representable(ms),
        FixedPointTimestamp::of_unix_ms(ms).after_unix_epoch(),
        ms - 1 <= FixedPointTimestamp::of_unix_ms(ms).unix_ms() <= ms,
        FixedPointTimestamp::of_unix_ms(ms).unix_ms() == ms <==> (ms % 1000) % 125 == 0,
{
    let shifted = ms + EPOCH_DIFF_MS;
    let millis = shifted % 1000;
    assert(millis == ms % 1000);
    let fraction = fraction_of_millis(millis);
    assert(0 <= fraction < 0x1_0000_0000);
    assert(millis - 1 <= millis_of_fraction(fraction) <= millis);
    assert(millis_of_fraction(fraction) == millis <==> millis % 125 == 0) by {
        let eighth = millis / 125;
        if millis % 125 == 0 {
            assert(millis == 125 * eighth);
            assert(millis * 0x1_0000_0000 == 1000 * (eighth * 0x2000_0000));
            assert(fraction == eighth * 0x2000_0000);
        } else {
            assert((millis * 0x1_0000_0000) % 1000 != 0) by {
                if (millis * 0x1_0000_0000) % 1000 == 0 {
                    let q = (millis * 0x1_0000_0000) / 1000;
                    assert(millis * 0x1_0000_0000 == 1000 * q);
                    assert(millis * 0x2000_0000 == 125 * q);
                    lemma_odd_multiple(millis, q);
                }
            }
        }
    }
}

/// Converting a timestamp at or after the Unix epoch to milliseconds and
/// back keeps the seconds, and takes from the fraction what it held beyond
/// the whole millisecond: no more than a millisecond's worth, rounded up.
pub proof fn lemma_timestamp_round_trip(ts: FixedPointTimestamp)
    requires
        ts.after_unix_epoch(),
    ensures
        0 <= ts.unix_ms() < ERA_END_MS,
        FixedPointTimestamp::of_unix_ms(ts.unix_ms()).seconds == ts.seconds,
        0 <= ts.fraction - FixedPointTimestamp::of_unix_ms(ts.unix_ms()).fraction <= 4_294_968,
{
    let millis = millis_of_fraction(ts.fraction as int);
    assert(0 <= millis < 1000);
    let ms = ts.unix_ms();
    let shifted = ms + EPOCH_DIFF_MS;
    assert(shifted == ts.seconds * 1000 + millis);
    assert(shifted / 1000 == ts.seconds);
    assert(shifted % 1000 == millis);
    let back = fraction_of_millis(millis);
    assert(0 <= back <= ts.fraction);
    assert(ts.fraction - back <= 4_294_968);
}

/// 125 divides `millis` when it divides `millis` times 2^29.
proof fn lemma_odd_multiple(millis: int, q: int)
    requires
        0 <= millis < 1000,
        millis * 0x2000_0000 == 125 * q,
    ensures
        millis % 125 == 0,
{
    assert((millis * 0x2000_0000) % 125 == 0);
    // 2^29 leaves 37 when divided by 125, and 37 * 98 leaves 1.
    assert(0x2000_0000 == 125 * 4294967 + 37);
    assert((millis * 37) % 125 == 0) by {
        assert(millis * 0x2000_0000 == 125 * (millis * 4294967) + millis * 37);
    }
    assert((millis * 37 * 98) % 125 == 0) by {
        let w = (millis * 37) / 125;
        assert(millis * 37 == 125 * w);
        assert(millis * 37 * 98 == 125 * (w * 98));
    }
    assert(millis * 37 * 98 == 125 * (millis * 29) + millis);
}

/// The octets of a timestamp spell that timestamp.
pub proof fn lemma_octets_round_trip(ts: FixedPointTimestamp)
    ensures
        ts.octets().len() == 8,
        FixedPointTimestamp::from_octets(ts.octets()) == ts,
{
    let o = ts.octets();
    assert(o.subrange(0, 4) == be32_octets(ts.seconds));
    assert(o.subrange(4, 8) == be32_octets(ts.fraction));
}

/// Four octets are the octets of the number that they spell.
pub proof fn lemma_be32_octets_exact(octets: Seq<u8>)
    requires
        octets.len() == 4,
    ensures
        0 <= be32_value(octets) <= u32::MAX,
        be32_octets(be32_value(octets) as u32) == octets,
{
    let b0 = octets[0] as int;
    let b1 = octets[1] as int;
    let b2 = octets[2] as int;
    let b3 = octets[3] as int;
    let v = be32_value(octets);
    assert(v == b0 * 0x100_0000 + b1 * 0x1_0000 + b2 * 0x100 + b3);
    assert(v / 0x100_0000 == b0);
    assert((v / 0x1_0000) % 0x100 == b1);
    assert((v / 0x100) % 0x100 == b2);
    assert(v % 0x100 == b3);
    assert(be32_octets(v as u32) =~= octets);
}

/// Eight octets are the octets of the timestamp that they spell.
pub proof fn lemma_timestamp_octets_exact(octets: Seq<u8>)
    requires
        octets.len() == 8,
    ensures
        FixedPointTimestamp::from_octets(octets).octets() == octets,
{
    lemma_be32_octets_exact(octets.subrange(0, 4));
    lemma_be32_octets_exact(octets.subrange(4, 8));
    assert(octets.subrange(0, 4) + octets.subrange(4, 8) =~= octets);
}

} // verus!
