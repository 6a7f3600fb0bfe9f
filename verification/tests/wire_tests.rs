use timesync::timestamp::FixedPointTimestamp;
use timesync::wire::build_ntp_request;
use timesync::wire::decode_reply;
use timesync::wire::encode_request;
use timesync::wire::request_at;
use timesync::wire::Reply;
use timesync::wire::ValidationError;
use timesync::wire::NTP_PACKET_SIZE;

fn stamp(seconds: u32, fraction: u32) -> FixedPointTimestamp {
    FixedPointTimestamp { seconds, fraction }
}

fn reply_packet(
    header: u8,
    stratum: u8,
    origin: FixedPointTimestamp,
    receive: FixedPointTimestamp,
    transmit: FixedPointTimestamp,
) -> Vec<u8> {
    let mut packet: Vec<u8> = vec![0u8; 48];
    packet[0] = header;
    packet[1] = stratum;
    packet[24..32].copy_from_slice(&origin.to_octets());
    packet[32..40].copy_from_slice(&receive.to_octets());
    packet[40..48].copy_from_slice(&transmit.to_octets());
    packet
}

fn good_reply() -> Vec<u8> {
    reply_packet(
        0x24,
        2,
        stamp(3_990_988_800, 11),
        stamp(3_990_988_801, 22),
        stamp(3_990_988_802, 33),
    )
}

#[test]
fn build_ntp_request_is_header_and_zeros() {
    let packet: [u8; 48] = build_ntp_request();
    assert_eq!(packet.len(), NTP_PACKET_SIZE);
    assert_eq!(packet[0], 0x23);
    assert!(packet[1..].iter().all(|b| *b == 0));
}

#[test]
fn encode_request_sets_client_header() {
    let packet: [u8; 48] = encode_request(stamp(1, 2));
    assert_eq!(packet[0], 0b00_100_011);
    assert_eq!(packet[0] >> 6, 0);
    assert_eq!((packet[0] >> 3) & 0x07, 4);
    assert_eq!(packet[0] & 0x07, 3);
}

#[test]
fn encode_request_writes_only_the_transmit_slot() {
    let packet: [u8; 48] = encode_request(stamp(0x0102_0304, 0x0506_0708));
    assert!(packet[1..40].iter().all(|b| *b == 0));
    assert_eq!(packet[40..48], [1u8, 2, 3, 4, 5, 6, 7, 8]);
}

#[test]
fn encode_request_of_zero_is_the_bare_request() {
    assert_eq!(encode_request(stamp(0, 0)), build_ntp_request());
}

#[test]
fn request_at_carries_the_local_time() {
    let packet: [u8; 48] = request_at(1500);
    assert_eq!(packet[0], 0x23);
    assert_eq!(packet[40..48], [0x83u8, 0xAA, 0x7E, 0x81, 0x80, 0, 0, 0]);
    assert_eq!(packet, encode_request(stamp(2_208_988_801, 2_147_483_648)));
}

#[test]
fn request_at_without_a_representable_time_is_bare() {
    assert_eq!(request_at(i64::MAX), build_ntp_request());
    assert_eq!(request_at(2_085_978_496_000), build_ntp_request());
    assert_eq!(request_at(i64::MIN), build_ntp_request());
}

#[test]
fn decode_reply_accepts_a_valid_reply() {
    let decoded = decode_reply(&good_reply());
    assert_eq!(
        decoded,
        Ok(Reply {
            origin: stamp(3_990_988_800, 11),
            receive: stamp(3_990_988_801, 22),
            transmit: stamp(3_990_988_802, 33),
        })
    );
}

#[test]
fn decode_reply_round_trips_the_three_timestamps() {
    let stamps: Vec<FixedPointTimestamp> = vec![
        stamp(2_208_988_800, 0),
        stamp(u32::MAX, u32::MAX),
        stamp(3_990_988_800, 0x8000_0000),
        stamp(0xDEAD_BEEF, 0x0102_0304),
    ];
    let headers: Vec<u8> = vec![0x0C, 0x14, 0x1C, 0x24, 0xE4, 0x64];
    for header in headers {
        for origin in &stamps {
            for receive in &stamps {
                for transmit in &stamps {
                    let packet = reply_packet(header, 1, *origin, *receive, *transmit);
                    let reply = decode_reply(&packet).expect("valid");
                    assert_eq!(reply.origin, *origin);
                    assert_eq!(reply.receive, *receive);
                    assert_eq!(reply.transmit, *transmit);
                    assert_eq!(packet[24..32], reply.origin.to_octets());
                    assert_eq!(packet[32..40], reply.receive.to_octets());
                    assert_eq!(packet[40..48], reply.transmit.to_octets());
                }
            }
        }
    }
}

#[test]
fn decode_reply_takes_origin_and_receive_before_1970() {
    let packet = reply_packet(0x24, 1, stamp(0, 0), stamp(5, 6), stamp(2_208_988_800, 0));
    let reply = decode_reply(&packet).expect("valid");
    assert_eq!(reply.origin, stamp(0, 0));
    assert_eq!(reply.receive, stamp(5, 6));
}

#[test]
fn decode_reply_ignores_octets_past_the_packet() {
    let mut packet = good_reply();
    packet.extend_from_slice(&[0xFFu8; 20]);
    assert_eq!(decode_reply(&packet), decode_reply(&good_reply()));
    assert!(decode_reply(&packet).is_ok());
}

#[test]
fn decode_reply_short_packet() {
    let full = good_reply();
    let mut len: usize = 0;
    while len < 48 {
        assert_eq!(decode_reply(&full[..len]), Err(ValidationError::ShortPacket));
        assert_eq!(decode_reply(&vec![0xFFu8; len]), Err(ValidationError::ShortPacket));
        len += 1;
    }
}

#[test]
fn decode_reply_invalid_mode() {
    let mut mode: u8 = 0;
    while mode < 8 {
        let mut packet = good_reply();
        packet[0] = 0x20 | mode;
        if mode == 4 {
            assert!(decode_reply(&packet).is_ok());
        } else {
            assert_eq!(decode_reply(&packet), Err(ValidationError::InvalidMode));
        }
        mode += 1;
    }
}

#[test]
fn decode_reply_invalid_stratum() {
    let mut packet = good_reply();
    packet[1] = 0;
    assert_eq!(decode_reply(&packet), Err(ValidationError::InvalidStratum));
    packet[1] = 255;
    assert!(decode_reply(&packet).is_ok());
}

#[test]
fn decode_reply_invalid_version() {
    let mut version: u8 = 0;
    while version < 8 {
        let mut packet = good_reply();
        packet[0] = (version << 3) | 4;
        if 1 <= version && version <= 4 {
            assert!(decode_reply(&packet).is_ok());
        } else {
            assert_eq!(decode_reply(&packet), Err(ValidationError::InvalidVersion));
        }
        version += 1;
    }
}

#[test]
fn decode_reply_invalid_timestamp() {
    let before = stamp(2_208_988_799, u32::MAX);
    let packet = reply_packet(0x24, 1, stamp(0, 0), stamp(3_990_988_801, 0), before);
    assert_eq!(decode_reply(&packet), Err(ValidationError::InvalidTimestamp));
    let zero = reply_packet(0x24, 1, stamp(0, 0), stamp(0, 0), stamp(0, 0));
    assert_eq!(decode_reply(&zero), Err(ValidationError::InvalidTimestamp));
}

#[test]
fn decode_reply_reports_the_first_failed_check() {
    let mut packet = reply_packet(0x03, 0, stamp(0, 0), stamp(0, 0), stamp(0, 0));
    assert_eq!(decode_reply(&packet[..47]), Err(ValidationError::ShortPacket));
    assert_eq!(decode_reply(&packet), Err(ValidationError::InvalidMode));
    packet[0] = 0x04;
    assert_eq!(decode_reply(&packet), Err(ValidationError::InvalidStratum));
    packet[1] = 3;
    assert_eq!(decode_reply(&packet), Err(ValidationError::InvalidVersion));
    packet[0] = 0x24;
    assert_eq!(decode_reply(&packet), Err(ValidationError::InvalidTimestamp));
}

#[test]
fn a_request_is_no_reply() {
    assert_eq!(decode_reply(&build_ntp_request()), Err(ValidationError::InvalidMode));
    assert_eq!(
        decode_reply(&encode_request(stamp(3_990_988_800, 7))),
        Err(ValidationError::InvalidMode)
    );
}
