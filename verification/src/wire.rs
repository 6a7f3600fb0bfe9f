//! The 48-octet datagram: building a request, and decoding and validating a
//! reply.
use vstd::prelude::*;
use crate::timestamp::FixedPointTimestamp;
use crate::timestamp::to_fixed_point;
use crate::timestamp::representable;
use crate::timestamp::NTP_UNIX_EPOCH_DIFF;

verus! {

/// Length of a request, and least length of a reply.
pub const NTP_PACKET_SIZE: usize = 48;

/// First octet of a request: no leap warning, version 4, client mode.
pub const REQUEST_HEADER: u8 = 0x23;

/// The mode that marks a datagram as sent by a server.
pub const MODE_SERVER: u8 = 4;

/// The mode that marks a datagram as sent by a client.
pub const MODE_CLIENT: u8 = 3;

/// Offset of the origin timestamp.
pub const ORIGIN_OFFSET: usize = 24;

/// Offset of the receive timestamp.
pub const RECEIVE_OFFSET: usize = 32;

/// Offset of the transmit timestamp.
pub const TRANSMIT_OFFSET: usize = 40;

/// Why a datagram is no acceptable reply.
#[derive(Clone, Copy, Debug, PartialEq, Eq, Structural)]
pub enum ValidationError {
    /// Fewer than 48 octets.
    ShortPacket,
    /// The mode is not that of a server.
    InvalidMode,
    /// Stratum zero.
    InvalidStratum,
    /// A version outside 1 to 4.
    InvalidVersion,
    /// A transmit time that lies before the Unix epoch.
    InvalidTimestamp,
}

/// The three timestamps of a validated reply.
#[derive(Clone, Copy, Debug, PartialEq, Eq, Structural)]
pub struct Reply {
    /// The client's transmit time, as the server echoed it.
    pub origin: FixedPointTimestamp,
    /// When the request reached the server.
    pub receive: FixedPointTimestamp,
    /// When the reply left the server.
    pub transmit: FixedPointTimestamp,
}

/// The mode: the low three bits of the first octet.
pub open spec fn mode_of(header: u8) -> u8 {
    header & 0x07
}

/// The version: bits 3 to 5 of the first octet.
pub open spec fn version_of(header: u8) -> u8 {
    (header >> 3) & 0x07
}

/// The timestamp that stands at offset `at` of a datagram.
pub open spec fn timestamp_at(bytes: Seq<u8>, at: int) -> FixedPointTimestamp
    recommends
        0 <= at,
        at + 8 <= bytes.len(),
{
    FixedPointTimestamp::from_octets(bytes.subrange(at, at + 8))
}

/// The request that carries `transmit`: the request header, the transmit
/// timestamp in its slot, and zero everywhere else.
pub open spec fn request_octets(transmit: FixedPointTimestamp) -> Seq<u8> {
    Seq::new(
        48,
        |i: int|
            if i == 0 {
                REQUEST_HEADER
            } else if 40 <= i < 48 {
                transmit.octets()[i - 40]
            } else {
                0u8
            },
    )
}

/// What decoding makes of a datagram: the first failed check in the order
/// length, mode, stratum, version, transmit time, or else the three
/// timestamps.
pub open spec fn decoded(bytes: Seq<u8>) -> Result<Reply, ValidationError> {
    if bytes.len() < 48 {
        Err(ValidationError::ShortPacket)
    } else if mode_of(bytes[0]) != MODE_SERVER {
        Err(ValidationError::InvalidMode)
    } else if bytes[1] == 0 {
        Err(ValidationError::InvalidStratum)
    } else if !(1 <= version_of(bytes[0]) <= 4) {
        Err(ValidationError::InvalidVersion)
    } else if !timestamp_at(bytes, 40).after_unix_epoch() {
        Err(ValidationError::InvalidTimestamp)
    } else {
        Ok(
            Reply {
                origin: timestamp_at(bytes, 24),
                receive: timestamp_at(bytes, 32),
                transmit: timestamp_at(bytes, 40),
            },
        )
    }
}

/// A reply datagram of 48 octets with the given header, stratum and
/// timestamps, and zero in the fields that the client does not read.
pub open spec fn reply_octets(
    header: u8,
    stratum: u8,
    origin: FixedPointTimestamp,
    receive: FixedPointTimestamp,
    transmit: FixedPointTimestamp,
) -> Seq<u8> {
    Seq::new(
        48,
        |i: int|
            if i == 0 {
                header
            } else if i == 1 {
                stratum
            } else if 24 <= i < 32 {
                origin.octets()[i - 24]
            } else if 32 <= i < 40 {
                receive.octets()[i - 32]
            } else if 40 <= i < 48 {
                transmit.octets()[i - 40]
            } else {
                0u8
            },
    )
}

/// Builds the request that carries no transmit time: the header octet, then
/// 47 zero octets.
pub fn build_ntp_request() -> (packet: [u8; 48])
    ensures
        packet@ == Seq::new(
            48,
            |i: int|
                if i == 0 {
                    REQUEST_HEADER
                } else {
                    0u8
                },
        ),
{
    let mut packet = [0u8; NTP_PACKET_SIZE];
    packet[0] = REQUEST_HEADER;
    assert(packet@ =~= Seq::new(
        48,
        |i: int|
            if i == 0 {
                REQUEST_HEADER
            } else {
                0u8
            },
    ));
    packet
}

/// Encodes a request: leap indicator 0, version 4, mode 3, the transmit
/// timestamp in its slot, all other fields zero.
pub fn encode_request(transmit_timestamp: FixedPointTimestamp) -> (packet: [u8; 48])
    ensures
        packet@ == request_octets(transmit_timestamp),
{
    let mut packet = [0u8; NTP_PACKET_SIZE];
    let stamp = transmit_timestamp.to_octets();
    packet[0] = REQUEST_HEADER;
    packet[40] = stamp[0];
    packet[41] = stamp[1];
    packet[42] = stamp[2];
    packet[43] = stamp[3];
    packet[44] = stamp[4];
    packet[45] = stamp[5];
    packet[46] = stamp[6];
    packet[47] = stamp[7];
    assert(packet@ =~= request_octets(transmit_timestamp));
    packet
}

/// The request to send at local time `now_ms`: it carries the time as its
/// transmit timestamp where the wire format can hold it, and no transmit time
/// otherwise.
pub fn request_at(now_ms: i64) -> (packet: [u8; 48])
    ensures
        packet@ == if representable(now_ms as int) {
            request_octets(FixedPointTimestamp::of_unix_ms(now_ms as int))
        } else {
            request_octets(FixedPointTimestamp { seconds: 0, fraction: 0 })
        },
{
    match to_fixed_point(now_ms) {
        Some(stamp) => encode_request(stamp),
        None => {
            proof {
                lemma_bare_request();
            }
            build_ntp_request()
        },
    }
}

/// Decodes and validates a reply. The checks come in this order, and the
/// first that fails names the error: at least 48 octets, server mode, a
/// stratum other than zero, a version from 1 to 4, a transmit time at or after
/// the Unix epoch. Octets past the 48th are not read.
pub fn decode_reply(bytes: &[u8]) -> (r: Result<Reply, ValidationError>)
    ensures
        r == decoded(bytes@),
        bytes@.len() < 48 ==> r == Err::<Reply, ValidationError>(ValidationError::ShortPacket),
{
    if bytes.len() < NTP_PACKET_SIZE {
        return Err(ValidationError::ShortPacket);
    }
    let header: u8 = bytes[0];
    if (header & 0x07) != MODE_SERVER {
        return Err(ValidationError::InvalidMode);
    }
    if bytes[1] == 0 {
        return Err(ValidationError::InvalidStratum);
    }
    let version: u8 = (header >> 3) & 0x07;
    if version < 1 || version > 4 {
        return Err(ValidationError::InvalidVersion);
    }
    let transmit = FixedPointTimestamp::read(bytes, TRANSMIT_OFFSET);
    if (transmit.seconds as u64) < NTP_UNIX_EPOCH_DIFF {
        return Err(ValidationError::InvalidTimestamp);
    }
    let origin = FixedPointTimestamp::read(bytes, ORIGIN_OFFSET);
    let receive = FixedPointTimestamp::read(bytes, RECEIVE_OFFSET);
    Ok(Reply { origin, receive, transmit })
}

/// The request without a transmit time is the request that carries the zero
/// timestamp.
pub proof fn lemma_bare_request()
    ensures
        request_octets(FixedPointTimestamp { seconds: 0, fraction: 0 }) == Seq::new(
            48,
            |i: int|
                if i == 0 {
                    REQUEST_HEADER
                } else {
                    0u8
                },
        ),
{
    let zero = FixedPointTimestamp { seconds: 0, fraction: 0 };
    assert(zero.octets() =~= seq![0u8, 0u8, 0u8, 0u8, 0u8, 0u8, 0u8, 0u8]);
    assert(request_octets(zero) =~= Seq::new(
        48,
        |i: int|
            if i == 0 {
                REQUEST_HEADER
            } else {
                0u8
            },
    ));
}

/// The header of a request says: no leap warning, version 4, client mode.
pub proof fn lemma_request_header()
    ensures
        REQUEST_HEADER >> 6 == 0,
        version_of(REQUEST_HEADER) == 4,
        mode_of(REQUEST_HEADER) == MODE_CLIENT,
{
    assert(0x23u8 >> 6 == 0) by (bit_vector);
    assert((0x23u8 >> 3) & 0x07 == 4) by (bit_vector);
    assert(0x23u8 & 0x07 == 3) by (bit_vector);
}

/// A request is never taken for a reply: it has client mode.
pub proof fn lemma_request_is_no_reply(transmit: FixedPointTimestamp)
    ensures
        decoded(request_octets(transmit)) == Err::<Reply, ValidationError>(
            ValidationError::InvalidMode,
        ),
{
    lemma_request_header();
}

/// A datagram of at least 48 octets with server mode, a stratum other than
/// zero, a version from 1 to 4 and a transmit time at or after the Unix epoch
/// decodes, and the three decoded timestamps are exactly the octets of the
/// three timestamp fields.
pub proof fn lemma_valid_reply_decodes(bytes: Seq<u8>)
    requires
        bytes.len() >= 48,
        mode_of(bytes[0]) == MODE_SERVER,
        bytes[1] != 0,
        1 <= version_of(bytes[0]) <= 4,
        timestamp_at(bytes, 40).after_unix_epoch(),
    ensures
        decoded(bytes) is Ok,
        decoded(bytes)->Ok_0.origin.octets() == bytes.subrange(24, 32),
        decoded(bytes)->Ok_0.receive.octets() == bytes.subrange(32, 40),
        decoded(bytes)->Ok_0.transmit.octets() == bytes.subrange(40, 48),
{
    crate::timestamp::lemma_timestamp_octets_exact(bytes.subrange(24, 32));
    crate::timestamp::lemma_timestamp_octets_exact(bytes.subrange(32, 40));
    crate::timestamp::lemma_timestamp_octets_exact(bytes.subrange(40, 48));
}

/// A reply laid out from three timestamps decodes to exactly those three,
/// whenever its header has server mode and a version from 1 to 4, its stratum
/// is not zero and its transmit time is at or after the Unix epoch.
pub proof fn lemma_reply_round_trip(
    header: u8,
    stratum: u8,
    origin: FixedPointTimestamp,
    receive: FixedPointTimestamp,
    transmit: FixedPointTimestamp,
)
    requires
        mode_of(header) == MODE_SERVER,
        1 <= version_of(header) <= 4,
        stratum != 0,
        transmit.after_unix_epoch(),
    ensures
        decoded(reply_octets(header, stratum, origin, receive, transmit)) == Ok::<
            Reply,
            ValidationError,
        >(Reply { origin, receive, transmit }),
{
    let bytes = reply_octets(header, stratum, origin, receive, transmit);
    crate::timestamp::lemma_octets_round_trip(origin);
    crate::timestamp::lemma_octets_round_trip(receive);
    crate::timestamp::lemma_octets_round_trip(transmit);
    assert(bytes.subrange(24, 32) =~= origin.octets());
    assert(bytes.subrange(32, 40) =~= receive.octets());
    assert(bytes.subrange(40, 48) =~= transmit.octets());
}

} // verus!
