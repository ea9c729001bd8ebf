use ubx::checksum::fletcher8;
use ubx::class::{class_tag_name, ClassField};
use ubx::error::Error;
use ubx::header::PacketHeader;
use ubx::packet::Packet;

fn frame(class: u8, id: u8, payload: &[u8], ck_a: u8, ck_b: u8) -> Vec<u8> {
    let length = payload.len() as u16;
    let mut v = vec![0xB5, 0x62, class, id, (length & 0xff) as u8, (length >> 8) as u8];
    v.extend_from_slice(payload);
    v.push(ck_a);
    v.push(ck_b);
    v
}

#[test]
fn test_packet_header_from() {
    // The length field reads 0x0502 (low byte first), so the checksum bytes
    // lie far past the end of these nine bytes.
    let raw_bytes = [0xB5, 0x62, 0x05, 0x01, 0x02, 0x05, 0x01, 0x0, 0x0];
    let header = PacketHeader::from(&raw_bytes);
    assert_eq!(header, Err(Error::BufferTooShort));
}

#[test]
fn header_with_length_two_decodes() {
    let raw_bytes = [0xB5, 0x62, 0x05, 0x01, 0x02, 0x00, 0x01, 0x05, 0x0, 0x0];
    let header = PacketHeader::from(&raw_bytes).unwrap();
    assert_eq!(
        header,
        PacketHeader { header: [0xB5, 0x62], class: 0x05, id: 0x1, length: 0x02, ck_a: 0x0, ck_b: 0x0 }
    );
}

#[test]
fn header_reads_checksum_after_payload() {
    let raw_bytes = frame(0x01, 0x07, &[9, 8, 7], 0xAA, 0xBB);
    let header = PacketHeader::from(&raw_bytes).unwrap();
    assert_eq!(header.length, 3);
    assert_eq!(header.ck_a, 0xAA);
    assert_eq!(header.ck_b, 0xBB);
}

#[test]
fn header_ignores_bytes_after_frame() {
    let mut raw_bytes = frame(0x01, 0x07, &[9], 0xAA, 0xBB);
    raw_bytes.extend_from_slice(&[1, 2, 3]);
    let header = PacketHeader::from(&raw_bytes).unwrap();
    assert_eq!(header.ck_a, 0xAA);
    assert_eq!(header.ck_b, 0xBB);
}

#[test]
fn zero_sync_bytes_are_bad_signature() {
    let nine = [0x00, 0x00, 0x05, 0x01, 0x01, 0x00, 0x01, 0x00, 0x00];
    assert_eq!(PacketHeader::from(&nine), Err(Error::BadSignature));
    let mut long = vec![0x00, 0x00];
    long.extend_from_slice(&[0xB5; 30]);
    assert_eq!(PacketHeader::from(&long), Err(Error::BadSignature));
    assert_eq!(Packet::from(&long), Err(Error::BadSignature));
}

#[test]
fn one_wrong_sync_byte_is_bad_signature() {
    let first = [0x85, 0x62, 0x05, 0x01, 0x01, 0x00, 0x01, 0x00, 0x00];
    assert_eq!(PacketHeader::from(&first), Err(Error::BadSignature));
    let second = [0xB5, 0x63, 0x05, 0x01, 0x01, 0x00, 0x01, 0x00, 0x00];
    assert_eq!(PacketHeader::from(&second), Err(Error::BadSignature));
}

#[test]
fn five_bytes_are_too_small() {
    let raw_bytes = [0xB5, 0x62, 0x05, 0x01, 0x00];
    assert_eq!(PacketHeader::from(&raw_bytes), Err(Error::HeaderTooSmall));
    assert_eq!(Packet::from(&raw_bytes), Err(Error::HeaderTooSmall));
}

#[test]
fn small_buffers_are_too_small() {
    assert_eq!(PacketHeader::from(&[]), Err(Error::HeaderTooSmall));
    assert_eq!(PacketHeader::from(&[0x00]), Err(Error::HeaderTooSmall));
    // An empty payload makes an 8-byte frame, which the minimum size refuses.
    let empty_payload = frame(0x05, 0x01, &[], 0x06, 0x0F);
    assert_eq!(empty_payload.len(), 8);
    assert_eq!(PacketHeader::from(&empty_payload), Err(Error::HeaderTooSmall));
    assert_eq!(Packet::from(&empty_payload), Err(Error::HeaderTooSmall));
}

#[test]
fn declared_length_past_end_is_too_short() {
    let mut raw_bytes = frame(0x01, 0x07, &[1, 2, 3], 0, 0);
    raw_bytes.pop();
    assert_eq!(PacketHeader::from(&raw_bytes), Err(Error::BufferTooShort));
    assert_eq!(Packet::from(&raw_bytes), Err(Error::BufferTooShort));
    let largest = [0xB5, 0x62, 0x01, 0x07, 0xFF, 0xFF, 0, 0, 0, 0];
    assert_eq!(PacketHeader::from(&largest), Err(Error::BufferTooShort));
}

#[test]
fn exact_frame_gives_payload_of_declared_length() {
    for length in [1usize, 2, 3, 255, 256, 300] {
        let payload: Vec<u8> = (0..length).map(|i| (i % 251) as u8).collect();
        let raw_bytes = frame(0x02, 0x15, &payload, 1, 2);
        assert_eq!(raw_bytes.len(), 6 + length + 2);
        let packet = Packet::from(&raw_bytes).unwrap();
        assert_eq!(packet.payload.len(), length);
        assert_eq!(packet.header.length as usize, length);
        assert_eq!(packet.payload, payload);
    }
}

#[test]
fn largest_frame_decodes() {
    let payload = vec![0x5A; 0xFFFF];
    let raw_bytes = frame(0x10, 0x02, &payload, 0x11, 0x22);
    let packet = Packet::from(&raw_bytes).unwrap();
    assert_eq!(packet.header.length, 0xFFFF);
    assert_eq!(packet.payload.len(), 0xFFFF);
    assert_eq!(packet.header.ck_a, 0x11);
    assert_eq!(packet.header.ck_b, 0x22);
}

#[test]
fn assembled_frame_round_trips() {
    let payload = [0x10, 0x20, 0x30, 0x40];
    let raw_bytes = frame(0x0D, 0x03, &payload, 0x7E, 0x81);
    let packet = Packet::from(&raw_bytes).unwrap();
    assert_eq!(
        packet.header,
        PacketHeader { header: [0xB5, 0x62], class: 0x0D, id: 0x03, length: 4, ck_a: 0x7E, ck_b: 0x81 }
    );
    assert_eq!(packet.payload, payload.to_vec());

    let payload: Vec<u8> = (0..258u32).map(|i| (i * 7) as u8).collect();
    let raw_bytes = frame(0x0A, 0x09, &payload, 0x00, 0xFF);
    assert_eq!(raw_bytes[4], 0x02);
    assert_eq!(raw_bytes[5], 0x01);
    let packet = Packet::from(&raw_bytes).unwrap();
    assert_eq!(packet.header.class, 0x0A);
    assert_eq!(packet.header.id, 0x09);
    assert_eq!(packet.header.length, 258);
    assert_eq!(packet.header.ck_a, 0x00);
    assert_eq!(packet.header.ck_b, 0xFF);
    assert_eq!(packet.payload, payload);
}

#[test]
fn decoding_twice_gives_equal_packets() {
    let raw_bytes = frame(0x05, 0x01, &[0x06, 0x01], 0x0F, 0x38);
    let first = Packet::from(&raw_bytes);
    let second = Packet::from(&raw_bytes);
    assert!(first.is_ok());
    assert_eq!(first, second);
    assert_eq!(PacketHeader::from(&raw_bytes), PacketHeader::from(&raw_bytes));
}

#[test]
fn trailing_bytes_are_refused() {
    let mut raw_bytes = frame(0x05, 0x01, &[0x06, 0x01], 0x0F, 0x38);
    raw_bytes.push(0xB5);
    assert!(PacketHeader::from(&raw_bytes).is_ok());
    assert_eq!(Packet::from(&raw_bytes), Err(Error::TrailingBytes));
}

#[test]
fn unknown_class_byte_decodes() {
    let raw_bytes = frame(0xEE, 0x01, &[0x00], 0, 0);
    let packet = Packet::from(&raw_bytes).unwrap();
    assert_eq!(packet.header.class, 0xEE);
    assert_eq!(ClassField::from_byte(0xEE), None);
    assert_eq!(class_tag_name(0xEE), "unknown");
}

#[test]
fn class_bytes_and_names() {
    let table = [
        (0x01, ClassField::NAV, "navigation"),
        (0x02, ClassField::RXM, "receiver-manager"),
        (0x04, ClassField::INF, "info"),
        (0x05, ClassField::ACK, "ack"),
        (0x06, ClassField::CFG, "config"),
        (0x0A, ClassField::MON, "monitor"),
        (0x0B, ClassField::AID, "aiding"),
        (0x0D, ClassField::TIM, "timing"),
        (0x10, ClassField::ESF, "external-sensor-fusion"),
    ];
    for (byte, class, name) in table {
        assert_eq!(ClassField::from_byte(byte), Some(class));
        assert_eq!(class.byte(), byte);
        assert_eq!(class_tag_name(byte), name);
    }
    for byte in [0x00, 0x03, 0x07, 0x0C, 0x11, 0xFF] {
        assert_eq!(ClassField::from_byte(byte), None);
        assert_eq!(class_tag_name(byte), "unknown");
    }
}

#[test]
fn fletcher_checksum_values() {
    assert_eq!(fletcher8(&[]), (0, 0));
    assert_eq!(fletcher8(&[0x05, 0x01, 0x02, 0x00, 0x06, 0x01]), (0x0F, 0x38));
    assert_eq!(fletcher8(&[0xFF, 0xFF]), (0xFE, 0xFD));
}

#[test]
fn checksum_is_checked_separately() {
    let good = frame(0x05, 0x01, &[0x06, 0x01], 0x0F, 0x38);
    assert!(Packet::from(&good).unwrap().checksum_ok());
    let bad = frame(0x05, 0x01, &[0x06, 0x01], 0x0F, 0x39);
    let packet = Packet::from(&bad).unwrap();
    assert!(!packet.checksum_ok());
}

#[test]
fn error_messages_differ() {
    let errors = [Error::HeaderTooSmall, Error::BadSignature, Error::BufferTooShort, Error::TrailingBytes];
    for (i, a) in errors.iter().enumerate() {
        assert!(!a.message().is_empty());
        for b in errors.iter().skip(i + 1) {
            assert_ne!(a.message(), b.message());
        }
    }
}
