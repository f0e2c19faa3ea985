use bytes::{Bytes, BytesMut};
use jdwp_client::framing::{FramingError, RawCodec};
use jdwp_client::packet::{
    AnyRawPacket, CommandData, ErrorCode, Flags, HeaderVariableData, RawCommandPacket,
    RawReplyPacket, MAX_PACKET_LENGTH, MIN_PACKET_LENGTH,
};

#[test]
fn test_flag_invariants() {
    let command = Flags::new_command();
    assert!(!command.is_reply());
    let reply = Flags::new_reply();
    assert!(reply.is_reply());
}

#[test]
fn flags_set_and_clear_the_reply_bit_only() {
    let mut flags = Flags(0x05);
    flags.set_is_reply(true);
    assert_eq!(flags.0, 0x85);
    assert!(flags.is_reply());
    flags.set_is_reply(false);
    assert_eq!(flags.0, 0x05);
    assert!(!flags.is_reply());
}

#[test]
fn command_data_splits_and_joins_sixteen_bits() {
    let data = CommandData::from_u16(0x4064);
    assert_eq!(data.command_set(), 64);
    assert_eq!(data.command(), 100);
    assert_eq!(data.to_u16(), 0x4064);
    assert_eq!(CommandData::new(1, 7).to_u16(), 0x0107);
    assert_eq!(CommandData::from_u16(0xffff), CommandData::new(255, 255));
}

#[test]
fn error_code_is_its_sixteen_bits() {
    assert_eq!(ErrorCode::from_u16(112).code(), 112);
    assert_eq!(ErrorCode::new(503).to_u16(), 503);
}

#[test]
fn limits_are_those_of_the_protocol() {
    assert_eq!(MAX_PACKET_LENGTH, 1 << 22);
    assert_eq!(MIN_PACKET_LENGTH, 11);
}

#[test]
fn new_command_fills_the_header() {
    let packet = RawCommandPacket::new_command(7, CommandData::new(1, 2), Bytes::from(vec![1, 2, 3]));
    assert_eq!(packet.header().length(), 14);
    assert_eq!(packet.header().id(), 7);
    assert_eq!(packet.header().flags(), Flags(0));
    assert_eq!(*packet.header().var(), CommandData::new(1, 2));
    assert_eq!(packet.header().command(), CommandData::new(1, 2));
    assert_eq!(&packet.data()[..], &[1, 2, 3]);
}

#[test]
fn new_reply_fills_the_header() {
    let packet = RawReplyPacket::new_reply(9, ErrorCode::new(0), Bytes::new());
    assert_eq!(packet.header().length(), 11);
    assert_eq!(packet.header().id(), 9);
    assert_eq!(packet.header().flags(), Flags(0x80));
    assert_eq!(packet.header().error_code(), ErrorCode::new(0));
    assert!(packet.data().is_empty());
}

#[test]
fn encode_writes_the_header_in_order_then_the_payload() {
    let packet =
        RawCommandPacket::new_command(0x01020304, CommandData::new(1, 7), Bytes::from(vec![9, 8]));
    let mut dst = BytesMut::new();
    dst.extend_from_slice(&[0xaa]);
    RawCodec.encode(packet, &mut dst).unwrap();
    assert_eq!(&dst[..], &[0xaa, 0, 0, 0, 13, 1, 2, 3, 4, 0, 1, 7, 9, 8]);
}

#[test]
fn encode_writes_a_reply_with_its_flag_and_error_code() {
    let packet = RawReplyPacket::new_reply(2, ErrorCode::new(0x01f7), Bytes::from(vec![5]));
    let mut dst = BytesMut::new();
    RawCodec.encode(packet, &mut dst).unwrap();
    assert_eq!(&dst[..], &[0, 0, 0, 12, 0, 0, 0, 2, 0x80, 0x01, 0xf7, 5]);
}

#[test]
fn decode_needs_four_bytes_for_the_length() {
    let mut src = BytesMut::from(&[0u8, 0, 0][..]);
    assert!(matches!(RawCodec.decode(&mut src), Ok(None)));
    assert_eq!(&src[..], &[0, 0, 0]);
    let mut empty = BytesMut::new();
    assert!(matches!(RawCodec.decode(&mut empty), Ok(None)));
}

#[test]
fn decode_waits_for_the_whole_packet() {
    let mut src = BytesMut::from(&[0u8, 0, 0, 12, 0, 0, 0, 1, 0, 1, 1][..]);
    assert!(matches!(RawCodec.decode(&mut src), Ok(None)));
    assert_eq!(src.len(), 11);
    src.extend_from_slice(&[42]);
    match RawCodec.decode(&mut src) {
        Ok(Some(AnyRawPacket::Command(packet))) => {
            assert_eq!(packet.header().id(), 1);
            assert_eq!(packet.header().length(), 12);
            assert_eq!(packet.header().command(), CommandData::new(1, 1));
            assert_eq!(&packet.data()[..], &[42]);
        }
        other => panic!("expected a command, got {:?}", other),
    }
    assert!(src.is_empty());
}

#[test]
fn decode_rejects_an_oversized_length_before_any_payload_is_there() {
    let mut src = BytesMut::from(&[0x00u8, 0x40, 0x00, 0x01][..]);
    assert_eq!(
        RawCodec.decode(&mut src).unwrap_err(),
        FramingError::OversizedPacket((1 << 22) + 1)
    );
    assert_eq!(&src[..], &[0x00, 0x40, 0x00, 0x01]);
    let mut huge = BytesMut::from(&[0xffu8, 0xff, 0xff, 0xff, 1, 2, 3][..]);
    assert_eq!(
        RawCodec.decode(&mut huge).unwrap_err(),
        FramingError::OversizedPacket(0xffff_ffff)
    );
}

#[test]
fn decode_accepts_the_ceiling_itself() {
    let mut src = BytesMut::from(&[0x00u8, 0x40, 0x00, 0x00, 0, 0, 0, 1][..]);
    assert!(matches!(RawCodec.decode(&mut src), Ok(None)));
    assert_eq!(src.len(), 8);
}

#[test]
fn decode_rejects_an_undersized_length() {
    let mut src = BytesMut::from(&[0u8, 0, 0, 10, 0, 0, 0, 1, 0, 0, 0, 0][..]);
    assert_eq!(RawCodec.decode(&mut src).unwrap_err(), FramingError::UndersizedPacket(10));
    assert_eq!(src.len(), 12);
    let mut zero = BytesMut::from(&[0u8, 0, 0, 0][..]);
    assert_eq!(RawCodec.decode(&mut zero).unwrap_err(), FramingError::UndersizedPacket(0));
}

#[test]
fn decode_tells_replies_by_bit_seven() {
    let mut src = BytesMut::from(&[0u8, 0, 0, 13, 0, 0, 1, 0, 0x80, 0, 112, 7, 8, 99][..]);
    match RawCodec.decode(&mut src) {
        Ok(Some(AnyRawPacket::Reply(packet))) => {
            assert_eq!(packet.header().id(), 256);
            assert_eq!(packet.header().error_code(), ErrorCode::new(112));
            assert_eq!(packet.header().flags(), Flags(0x80));
            assert_eq!(&packet.data()[..], &[7, 8]);
        }
        other => panic!("expected a reply, got {:?}", other),
    }
    assert_eq!(&src[..], &[99]);
}

#[test]
fn decode_ignores_the_reserved_flag_bits() {
    let mut src = BytesMut::from(&[0u8, 0, 0, 11, 0, 0, 0, 5, 0x7f, 64, 100][..]);
    match RawCodec.decode(&mut src) {
        Ok(Some(AnyRawPacket::Command(packet))) => {
            assert_eq!(packet.header().flags(), Flags(0));
            assert_eq!(packet.header().command(), CommandData::new(64, 100));
            assert!(packet.data().is_empty());
        }
        other => panic!("expected a command, got {:?}", other),
    }
}

fn drain(codec: &mut RawCodec, src: &mut BytesMut, out: &mut Vec<AnyRawPacket>) {
    while let Some(packet) = codec.decode(src).unwrap() {
        out.push(packet);
    }
}

#[test]
fn framing_round_trip() {
    let command =
        RawCommandPacket::new_command(77, CommandData::new(1, 2), Bytes::from(vec![1, 2, 3, 4]));
    let reply = RawReplyPacket::new_reply(78, ErrorCode::new(21), Bytes::from(vec![0; 300]));
    let mut wire = BytesMut::new();
    RawCodec.encode(command.clone(), &mut wire).unwrap();
    RawCodec.encode(reply.clone(), &mut wire).unwrap();
    let mut out = Vec::new();
    drain(&mut RawCodec, &mut wire, &mut out);
    assert_eq!(out.len(), 2);
    assert!(matches!(&out[0], AnyRawPacket::Command(p) if *p == command));
    assert!(matches!(&out[1], AnyRawPacket::Reply(p) if *p == reply));
    assert!(wire.is_empty());
}

#[test]
fn incremental_framing_at_every_split() {
    let first =
        RawCommandPacket::new_command(1, CommandData::new(64, 100), Bytes::from(vec![2, 0, 0]));
    let second = RawReplyPacket::new_reply(1, ErrorCode::new(0), Bytes::from(vec![9; 17]));
    let mut wire = BytesMut::new();
    RawCodec.encode(first.clone(), &mut wire).unwrap();
    RawCodec.encode(second.clone(), &mut wire).unwrap();
    let wire = wire.freeze();
    for cut in 0..=wire.len() {
        let mut codec = RawCodec;
        let mut src = BytesMut::new();
        let mut out = Vec::new();
        src.extend_from_slice(&wire[..cut]);
        drain(&mut codec, &mut src, &mut out);
        src.extend_from_slice(&wire[cut..]);
        drain(&mut codec, &mut src, &mut out);
        assert_eq!(out.len(), 2, "cut at {}", cut);
        assert!(matches!(&out[0], AnyRawPacket::Command(p) if *p == first));
        assert!(matches!(&out[1], AnyRawPacket::Reply(p) if *p == second));
        assert!(src.is_empty());
    }
}

#[test]
fn incremental_framing_byte_by_byte() {
    let first = RawCommandPacket::new_command(3, CommandData::new(1, 1), Bytes::new());
    let second = RawCommandPacket::new_command(4, CommandData::new(1, 4), Bytes::from(vec![1]));
    let mut wire = BytesMut::new();
    RawCodec.encode(first.clone(), &mut wire).unwrap();
    RawCodec.encode(second.clone(), &mut wire).unwrap();
    let mut codec = RawCodec;
    let mut src = BytesMut::new();
    let mut out = Vec::new();
    for byte in wire.iter() {
        src.extend_from_slice(&[*byte]);
        drain(&mut codec, &mut src, &mut out);
    }
    assert_eq!(out.len(), 2);
    assert!(matches!(&out[0], AnyRawPacket::Command(p) if *p == first));
    assert!(matches!(&out[1], AnyRawPacket::Command(p) if *p == second));
}

#[test]
fn checked_constructors_build_the_same_packets() {
    let data = Bytes::from(vec![1, 2, 3]);
    let command = RawCommandPacket::checked_command(7, CommandData::new(1, 2), data.clone());
    assert_eq!(command, Some(RawCommandPacket::new_command(7, CommandData::new(1, 2), data.clone())));
    let reply = RawReplyPacket::checked_reply(7, ErrorCode::new(3), data.clone());
    assert_eq!(reply, Some(RawReplyPacket::new_reply(7, ErrorCode::new(3), data)));
}
