//! Tests for the CCSDS Space Packet codec.

use space_comms::ccsds::{crc16_ccitt, PacketType, SecondaryHeader, SpacePacket, SpacePacketHeader};

#[test]
fn test_space_packet_header_serialization() {
    let header = SpacePacketHeader::new(PacketType::Telemetry, 0x123, 0x456, 100, false).unwrap();

    let bytes = header.to_bytes();
    let deserialized = SpacePacketHeader::from_bytes(&bytes).unwrap();

    assert_eq!(header, deserialized);
}

#[test]
fn test_space_packet_creation() {
    let data = b"Hello, space!";
    let packet = SpacePacket::new(PacketType::Command, 0x100, 1, data, None).unwrap();

    assert_eq!(packet.header.packet_type, PacketType::Command);
    assert_eq!(packet.header.apid, 0x100);
    assert_eq!(packet.data.as_slice(), data);
}

#[test]
fn test_crc_calculation() {
    let mut packet = SpacePacket::new(PacketType::Telemetry, 0x200, 42, b"test data", None).unwrap();

    packet.calculate_crc();
    assert!(packet.error_control.is_some());
    assert!(packet.verify_crc());
}

#[test]
fn test_invalid_apid() {
    let result = SpacePacketHeader::new(
        PacketType::Telemetry,
        0x800, // Too large for 11 bits
        0,
        0,
        false,
    );
    assert!(result.is_err());
}

#[test]
fn test_crc16_ccitt() {
    // Test vector for CRC-16-CCITT
    let data = b"123456789";
    let crc = crc16_ccitt(0xFFFF, data);
    assert_eq!(crc, 0x29B1); // Known result for this test vector
}

#[test]
fn test_ccsds_packet() {
    let data = vec![0x01, 0x02, 0x03, 0x04];

    let packet = SpacePacket::new(PacketType::Telemetry, 0x100, 42, &data, None).unwrap();

    assert_eq!(packet.header.packet_type, PacketType::Telemetry);
    assert_eq!(packet.header.apid, 0x100);
    assert_eq!(packet.header.sequence_count, 42);
    assert_eq!(packet.data.len(), 4);
}

#[test]
fn scenario_ccsds_fixture() {
    // Telemetry packet, APID 0x123, sequence 0x456, payload [0x01, 0x02],
    // no secondary header, no CRC.
    let packet = SpacePacket::new(PacketType::Telemetry, 0x123, 0x456, &[0x01, 0x02], None).unwrap();
    let bytes = packet.to_bytes().unwrap();

    assert_eq!(bytes[0], 0x01);
    assert_eq!(bytes[1], 0x23);
    assert_eq!(bytes[2], 0xC4); // Unsegmented flags = 11
    assert_eq!(bytes[3], 0x56);
    assert_eq!(bytes[4], 0x00);
    assert_eq!(bytes[5], 0x01); // payload length minus one
    assert_eq!(&bytes[6..], &[0x01, 0x02]);

    // Decode is the inverse.
    let decoded = SpacePacket::from_bytes(&bytes).unwrap();
    assert_eq!(decoded.header, packet.header);
    assert_eq!(decoded.data, packet.data);
    assert!(decoded.secondary_header.is_none());
}

#[test]
fn round_trip_plain_packet() {
    let payload: Vec<u8> = (0u8..100).collect();
    let packet = SpacePacket::new(PacketType::Command, 0x2AA, 0x1FFF, &payload, None).unwrap();
    let bytes = packet.to_bytes().unwrap();
    let decoded = SpacePacket::from_bytes(&bytes).unwrap();
    assert_eq!(decoded.header, packet.header);
    assert_eq!(decoded.data, packet.data);
}

#[test]
fn round_trip_with_secondary_header() {
    let sec = SecondaryHeader { timestamp: 0x0102030405060708, mission_data: Vec::new() };
    let packet = SpacePacket::new(PacketType::Telemetry, 0x42, 7, &[9, 8, 7], Some(sec)).unwrap();
    let bytes = packet.to_bytes().unwrap();
    let decoded = SpacePacket::from_bytes(&bytes).unwrap();
    assert_eq!(decoded.header, packet.header);
    assert_eq!(decoded.data, vec![9, 8, 7]);
    let sh = decoded.secondary_header.unwrap();
    assert_eq!(sh.timestamp, 0x0102030405060708);
    assert!(sh.mission_data.is_empty());
}

#[test]
fn round_trip_random_headers() {
    // A simple linear congruential generator covers a spread of valid
    // APIDs and sequence counts.
    let mut state: u64 = 0x12345678;
    for _ in 0..200 {
        state = state.wrapping_mul(6364136223846793005).wrapping_add(1442695040888963407);
        let apid = (state >> 16) as u16 & 0x7FF;
        let seq = (state >> 32) as u16 & 0x3FFF;
        let len = (state % 32) as usize + 1;
        let payload: Vec<u8> = (0..len).map(|i| (i as u8).wrapping_mul(7)).collect();
        let packet = SpacePacket::new(PacketType::Telemetry, apid, seq, &payload, None).unwrap();
        let bytes = packet.to_bytes().unwrap();
        let decoded = SpacePacket::from_bytes(&bytes).unwrap();
        assert_eq!(decoded.header, packet.header);
        assert_eq!(decoded.data, packet.data);
    }
}

#[test]
fn decode_rejects_short_input() {
    let r = SpacePacketHeader::from_bytes(&[0x00, 0x01, 0x02]);
    assert!(r.is_err());
    let r2 = SpacePacket::from_bytes(&[0x00; 5]);
    assert!(r2.is_err());
}

#[test]
fn decode_rejects_bad_version() {
    // Version bits 0b001 in the top of the first byte.
    let bytes = [0x20, 0x00, 0xC0, 0x00, 0x00, 0x00, 0xAA];
    let r = SpacePacketHeader::from_bytes(&bytes);
    assert!(r.is_err());
}

#[test]
fn decode_rejects_truncated_body() {
    // Header declares two payload bytes but only one follows.
    let packet = SpacePacket::new(PacketType::Telemetry, 0x10, 1, &[0x01, 0x02], None).unwrap();
    let mut bytes = packet.to_bytes().unwrap();
    bytes.pop();
    let r = SpacePacket::from_bytes(&bytes);
    assert!(r.is_err());
}

#[test]
fn crc_detects_tampering() {
    let mut packet = SpacePacket::new(PacketType::Command, 0x33, 5, &[1, 2, 3, 4], None).unwrap();
    packet.calculate_crc();
    assert!(packet.verify_crc());
    packet.data[0] ^= 0xFF;
    assert!(!packet.verify_crc());
}

#[test]
fn crc_depends_on_initial_value() {
    // The register threads through consecutive calls: feeding a split
    // input through two calls equals feeding it at once.
    let whole = crc16_ccitt(0xFFFF, b"123456789");
    let first = crc16_ccitt(0xFFFF, b"12345");
    let rest = crc16_ccitt(first, b"6789");
    assert_eq!(whole, rest);
    assert_ne!(crc16_ccitt(0x0000, b"123456789"), whole);
}

#[test]
fn packet_id_combines_apid_and_sequence() {
    let packet = SpacePacket::new(PacketType::Command, 0x123, 0x456, &[0], None).unwrap();
    assert_eq!(packet.packet_id().value(), 0x0123_0456);
}

#[test]
fn total_packet_length_counts_header_and_data() {
    let header = SpacePacketHeader::new(PacketType::Telemetry, 1, 1, 9, false).unwrap();
    assert_eq!(header.total_packet_length(), 16);
}
