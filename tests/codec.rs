use toolgun::plugin::networking::packet::{
    BlockPos, DecodeError, Packet, FRAME_LEN, PLUGIN_MESSAGE_LENGTH,
};

fn packet(player_id: u8, x: i32, y: i32, z: i32) -> Packet {
    Packet { player_id, block_pos: BlockPos { x, y, z } }
}

#[test]
fn encode_writes_big_endian_fields() {
    let p = packet(3, 0x1234, 0x00ff, 0xabcd);
    assert_eq!(p.encode(), vec![3, 0x12, 0x34, 0x00, 0xff, 0xab, 0xcd]);
}

#[test]
fn decode_reads_big_endian_fields() {
    let bytes = [255u8, 0x01, 0x02, 0xff, 0xff, 0x00, 0x00];
    assert_eq!(Packet::decode(&bytes), Ok(packet(255, 0x0102, 0xffff, 0)));
}

#[test]
fn round_trip_keeps_every_field() {
    let cases = [
        packet(0, 0, 0, 0),
        packet(255, 65535, 65535, 65535),
        packet(7, 1, 256, 65280),
        packet(128, 300, 64, 511),
    ];
    for p in cases {
        let frame = p.encode();
        assert_eq!(frame.len(), FRAME_LEN);
        assert_eq!(Packet::decode(&frame), Ok(p));
    }
}

#[test]
fn short_input_is_truncated() {
    let frame = packet(9, 10, 20, 30).encode();
    for len in 0..FRAME_LEN {
        assert_eq!(Packet::decode(&frame[..len]), Err(DecodeError::TruncatedInput));
    }
}

#[test]
fn trailing_bytes_are_ignored() {
    let p = packet(4, 17, 18, 19);
    let message = p.to_message();
    assert_eq!(message.len(), PLUGIN_MESSAGE_LENGTH);
    assert_eq!(&message[..FRAME_LEN], &p.encode()[..]);
    assert!(message[FRAME_LEN..].iter().all(|b| *b == 0));
    assert_eq!(Packet::decode(&message), Ok(p));
}

#[test]
fn wire_range_is_sixteen_bits() {
    assert!(packet(1, 0, 65535, 12).fits_wire());
    assert!(!packet(1, -1, 0, 0).fits_wire());
    assert!(!packet(1, 0, 65536, 0).fits_wire());
    assert!(!packet(1, 0, 0, i32::MAX).fits_wire());
}
