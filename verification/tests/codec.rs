use icmp_probe::codec::assemble_echo_request;
use icmp_probe::codec::build_echo_request;
use icmp_probe::codec::parse_echo_reply;
use icmp_probe::codec::request_and_response_match;
use icmp_probe::codec::EchoReply;
use icmp_probe::codec::ICMP_HEADER_LENGTH;
use icmp_probe::codec::ICMP_PACKET_LENGTH;
use icmp_probe::codec::ICMP_PAYLOAD_LENGTH;

/// Independent Internet-checksum implementation to hold the library (and the
/// crate it calls) to: big-endian 16-bit words, the checksum word skipped, a
/// lone final byte as a high byte, carries folded, result complemented.
fn reference_checksum(buf: &[u8]) -> u16 {
    let mut sum: u32 = 0;
    let mut i = 0;
    while 2 * i < buf.len() {
        if i != 1 {
            let hi = buf[2 * i] as u32;
            let lo = if 2 * i + 1 < buf.len() {
                buf[2 * i + 1] as u32
            } else {
                0
            };
            sum += (hi << 8) | lo;
        }
        i += 1;
    }
    while sum >> 16 != 0 {
        sum = (sum >> 16) + (sum & 0xFFFF);
    }
    !(sum as u16)
}

fn encode_echo(icmp_type: u8, id: u16, seq: u16, payload: &[u8]) -> Vec<u8> {
    let mut v = vec![
        icmp_type,
        0,
        0,
        0,
        (id >> 8) as u8,
        id as u8,
        (seq >> 8) as u8,
        seq as u8,
    ];
    v.extend_from_slice(payload);
    let ck = reference_checksum(&v);
    v[2] = (ck >> 8) as u8;
    v[3] = ck as u8;
    v
}

#[test]
fn built_packet_has_exact_bytes() {
    let req = assemble_echo_request(0x1234, 0x0001, vec![1, 2, 3]);
    assert_eq!(
        req.packet,
        vec![8, 0, 0xE1, 0xC8, 0x12, 0x34, 0x00, 0x01, 1, 2, 3]
    );
    assert_eq!(req.identifier, 0x1234);
    assert_eq!(req.sequence, 0x0001);
    assert_eq!(req.payload, vec![1, 2, 3]);
}

#[test]
fn built_checksum_matches_recomputation() {
    let req = assemble_echo_request(0xBEEF, 0x00FF, vec![9, 8, 7, 6, 5]);
    let embedded = ((req.packet[2] as u16) << 8) | req.packet[3] as u16;
    assert_eq!(embedded, reference_checksum(&req.packet));
}

#[test]
fn built_random_packet_checksum_valid() {
    let req = build_echo_request(7, 42, ICMP_PAYLOAD_LENGTH);
    assert_eq!(req.payload.len(), ICMP_PAYLOAD_LENGTH);
    assert_eq!(req.packet.len(), ICMP_PACKET_LENGTH);
    assert_eq!(ICMP_PACKET_LENGTH, ICMP_HEADER_LENGTH + ICMP_PAYLOAD_LENGTH);
    let embedded = ((req.packet[2] as u16) << 8) | req.packet[3] as u16;
    assert_eq!(embedded, reference_checksum(&req.packet));
}

#[test]
fn independent_payloads_across_builds() {
    let a = build_echo_request(7, 1, ICMP_PAYLOAD_LENGTH);
    let b = build_echo_request(7, 2, ICMP_PAYLOAD_LENGTH);
    assert_ne!(a.payload, b.payload);
}

#[test]
fn parse_round_trip() {
    let req = assemble_echo_request(0xABCD, 513, vec![10, 20, 30, 40]);
    let reply = parse_echo_reply(&req.packet).expect("a freshly built packet must parse");
    assert_eq!(reply.identifier, 0xABCD);
    assert_eq!(reply.sequence, 513);
    assert_eq!(reply.payload, vec![10, 20, 30, 40]);
    let embedded = ((req.packet[2] as u16) << 8) | req.packet[3] as u16;
    assert_eq!(reply.checksum, embedded);
}

#[test]
fn parse_rejects_short_buffers() {
    for len in 0..8 {
        let buf = vec![0u8; len];
        assert!(parse_echo_reply(&buf).is_none());
    }
    let valid = encode_echo(0, 1, 1, &[1, 2]);
    assert!(parse_echo_reply(&valid[..7]).is_none());
}

#[test]
fn parse_rejects_corrupted_checksum() {
    let mut buf = encode_echo(0, 0x11, 0x22, &[1, 2, 3, 4]);
    assert!(parse_echo_reply(&buf).is_some());
    buf[9] ^= 0x01;
    assert!(parse_echo_reply(&buf).is_none());
}

#[test]
fn parse_agrees_with_outside_checksum() {
    let buf = encode_echo(0, 0x5555, 0x00AA, &[0xDE, 0xAD, 0xBE, 0xEF, 0x01]);
    let outside =
        pnet_packet::icmp::checksum(&pnet_packet::icmp::IcmpPacket::new(&buf).unwrap());
    assert_eq!(outside, reference_checksum(&buf));
    assert!(parse_echo_reply(&buf).is_some());
}

#[test]
fn match_requires_every_field() {
    let req = assemble_echo_request(100, 200, vec![1, 2, 3]);
    let good = EchoReply {
        identifier: 100,
        sequence: 200,
        checksum: 0,
        payload: vec![1, 2, 3],
    };
    assert!(request_and_response_match(&req, &good));

    let wrong_id = EchoReply {
        identifier: 101,
        sequence: 200,
        checksum: 0,
        payload: vec![1, 2, 3],
    };
    assert!(!request_and_response_match(&req, &wrong_id));

    let wrong_seq = EchoReply {
        identifier: 100,
        sequence: 201,
        checksum: 0,
        payload: vec![1, 2, 3],
    };
    assert!(!request_and_response_match(&req, &wrong_seq));

    let wrong_payload = EchoReply {
        identifier: 100,
        sequence: 200,
        checksum: 0,
        payload: vec![1, 2, 4],
    };
    assert!(!request_and_response_match(&req, &wrong_payload));

    let short_payload = EchoReply {
        identifier: 100,
        sequence: 200,
        checksum: 0,
        payload: vec![1, 2],
    };
    assert!(!request_and_response_match(&req, &short_payload));
}

#[test]
fn field_accessors_round_trip() {
    let mut buf = vec![0u8; 8];
    icmp_probe::codec::write_u16_be(&mut buf, 4, 0xCAFE);
    assert_eq!(buf, vec![0, 0, 0, 0, 0xCA, 0xFE, 0, 0]);
    assert_eq!(icmp_probe::codec::read_u16_be(&buf, 4), 0xCAFE);
}
