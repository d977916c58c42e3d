use fs3000_rs::{decode_packet, Packet};

#[test]
fn test_checksum() {
    // A bogus, invalid packet.
    let packet = Packet([0x00, 0x01, 0x02, 0x03, 0x04]);
    assert!(!packet.valid());

    // Example taken from the datasheet on page 10.
    let packet = Packet([0xCC, 0x01, 0x99, 0x01, 0x99]);
    assert!(packet.valid());
}

#[test]
fn test_measurement_decoding() {
    // Bytes 1 and 2 encode 0x199 = 409; the other bytes play no part.
    let packet = Packet([0xCC, 0x01, 0x99, 0x01, 0x99]);
    assert_eq!(packet.measurement(), 409);

    let packet = Packet([0x00, 0x01, 0x99, 0x55, 0xAA]);
    assert_eq!(packet.measurement(), 409);

    // Only the low four bits of byte 1 are significant.
    let packet = Packet([0x00, 0xF1, 0x99, 0x00, 0x00]);
    assert_eq!(packet.measurement(), 409);

    // The largest measurement the layout can carry.
    let packet = Packet([0x00, 0x0F, 0xFF, 0x00, 0x00]);
    assert_eq!(packet.measurement(), 4095);
}

#[test]
fn test_decode_packet() {
    // A valid packet decodes; an invalid one is rejected as data.
    assert_eq!(decode_packet(&Packet([0xCC, 0x01, 0x99, 0x01, 0x99])), Some(409));
    assert_eq!(decode_packet(&Packet([0x00, 0x01, 0x02, 0x03, 0x04])), None);
}
