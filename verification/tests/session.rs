use bytes::Bytes;
use jdwp_client::codec::{DecodeJdwpDataError, JdwpCodec, JdwpEncoder};
use jdwp_client::commands::{
    AllThreads, ClassesBySignatures, Dispose, IdSizes as IdSizesCommand, IdSizesReply, Version,
};
use jdwp_client::constants::{ErrorConstant, SuspendPolicy};
use jdwp_client::events::{Event, Events};
use jdwp_client::ids::{FieldId, FrameId, MethodId, ObjectId, ThreadId};
use jdwp_client::packet::{AnyRawPacket, CommandData, ErrorCode, RawCommandPacket, RawReplyPacket};
use jdwp_client::session::{
    check_handshake, decode_reply, encode_command, fan_out, handshake, negotiated_sizes, route,
    Delivery, EventQueue, HandshakeMismatch, Inbound, PendingReplies, RequestIds, SendError,
};

#[test]
fn handshake_is_the_ascii_text() {
    assert_eq!(&handshake(), b"JDWP-Handshake");
    assert_eq!(handshake().len(), 14);
}

#[test]
fn handshake_must_match_byte_for_byte() {
    assert_eq!(check_handshake(b"JDWP-Handshake"), Ok(()));
    assert_eq!(check_handshake(b"JDWP-Handshakf"), Err(HandshakeMismatch));
    assert_eq!(check_handshake(b"jDWP-Handshake"), Err(HandshakeMismatch));
    assert_eq!(check_handshake(b"JDWP-Handshak"), Err(HandshakeMismatch));
    assert_eq!(check_handshake(b"JDWP-Handshake "), Err(HandshakeMismatch));
    assert_eq!(check_handshake(b""), Err(HandshakeMismatch));
    for i in 0..14 {
        let mut bytes = handshake();
        bytes[i] ^= 1;
        assert_eq!(check_handshake(&bytes), Err(HandshakeMismatch));
    }
}

fn reported(field: i32, method: i32, object: i32, reference: i32, frame: i32) -> IdSizesReply {
    let codec = JdwpCodec::default();
    let mut encoder = JdwpEncoder::new(&codec);
    for width in [field, method, object, reference, frame] {
        encoder.put(&width);
    }
    let reply = RawReplyPacket::new_reply(1, ErrorCode::new(0), encoder.finish());
    decode_reply::<IdSizesCommand>(&codec, &reply).unwrap()
}

#[test]
fn negotiation_takes_the_reported_widths() {
    let sizes = negotiated_sizes(&reported(1, 2, 3, 4, 5)).unwrap();
    assert_eq!(sizes.field_id_size(), 1);
    assert_eq!(sizes.method_id_size(), 2);
    assert_eq!(sizes.object_id_size(), 3);
    assert_eq!(sizes.frame_id_size(), 5);
    assert!(negotiated_sizes(&reported(8, 8, 8, 8, 8)).is_some());
    assert!(negotiated_sizes(&reported(1, 1, 1, 0, 1)).is_some());
    assert!(negotiated_sizes(&reported(1, 1, 1, 99, 1)).is_some());
}

#[test]
fn negotiation_refuses_widths_that_no_id_can_have() {
    assert!(negotiated_sizes(&reported(0, 8, 8, 8, 8)).is_none());
    assert!(negotiated_sizes(&reported(8, 9, 8, 8, 8)).is_none());
    assert!(negotiated_sizes(&reported(8, 8, -1, 8, 8)).is_none());
    assert!(negotiated_sizes(&reported(8, 8, 8, 8, i32::MAX)).is_none());
    assert!(negotiated_sizes(&reported(8, 8, 8, 8, i32::MIN)).is_none());
}

#[test]
fn id_size_table_activation() {
    let mut codec = JdwpCodec::default();
    let before = encode_command(&codec, 1, &IdSizesCommand).unwrap();
    assert!(before.data().is_empty());
    let mut encoder = JdwpEncoder::new(&codec);
    encoder.put(&ObjectId::new(1));
    assert_eq!(encoder.len(), 8);
    codec.set_id_sizes(negotiated_sizes(&reported(4, 4, 4, 4, 4)).unwrap());
    let mut encoder = JdwpEncoder::new(&codec);
    encoder.put(&ObjectId::new(0x0102030405060708));
    encoder.put(&MethodId::new(2));
    encoder.put(&FieldId::new(3));
    encoder.put(&FrameId::new(4));
    encoder.put(&ThreadId::new(5));
    assert_eq!(
        encoder.as_slice(),
        &[5, 6, 7, 8, 0, 0, 0, 2, 0, 0, 0, 3, 0, 0, 0, 4, 0, 0, 0, 5]
    );
    let reply = RawReplyPacket::new_reply(2, ErrorCode::new(0), Bytes::from(vec![0, 0, 0, 1, 0, 0, 0, 9]));
    let threads = decode_reply::<AllThreads>(&codec, &reply).unwrap();
    assert_eq!(threads.threads, vec![ThreadId::new(9)]);
}

#[test]
fn request_ids_start_at_one_and_grow() {
    let mut ids = RequestIds::new();
    assert_eq!(ids.allocate(), Some(1));
    assert_eq!(ids.allocate(), Some(2));
    assert_eq!(ids.allocate(), Some(3));
}

#[test]
fn encode_command_frames_the_payload() {
    let codec = JdwpCodec::default();
    let packet =
        encode_command(&codec, 5, &ClassesBySignatures { signature: String::from("LA;") }).unwrap();
    assert_eq!(packet.header().id(), 5);
    assert_eq!(packet.header().command(), CommandData::new(1, 2));
    assert_eq!(packet.header().length(), 18);
    assert!(!packet.header().flags().is_reply());
    assert_eq!(&packet.data()[..], &[0, 0, 0, 3, b'L', b'A', b';']);
    let empty = encode_command(&codec, 6, &Dispose).unwrap();
    assert_eq!(empty.header().length(), 11);
    assert_eq!(empty.header().command(), CommandData::new(1, 6));
}

#[test]
fn decode_reply_reads_the_payload() {
    let codec = JdwpCodec::default();
    let payload = vec![0, 0, 0, 0, 0, 0, 0, 8, 0, 0, 0, 1, 0, 0, 0, 0, 0, 0, 0, 0];
    let reply = RawReplyPacket::new_reply(1, ErrorCode::new(0), Bytes::from(payload));
    let version = decode_reply::<Version>(&codec, &reply).unwrap();
    assert_eq!(version.major, 8);
    assert_eq!(version.minor, 1);
    assert_eq!(version.description, "");
}

#[test]
fn decode_reply_surfaces_the_error_code() {
    let codec = JdwpCodec::default();
    let reply = RawReplyPacket::new_reply(1, ErrorCode::new(112), Bytes::from(vec![0, 0, 0, 0]));
    match decode_reply::<AllThreads>(&codec, &reply) {
        Err(SendError::Jdwp { code, constant }) => {
            assert_eq!(code, 112);
            assert_eq!(constant, Some(ErrorConstant::VmDead));
        }
        other => panic!("expected the error of the target VM, got {:?}", other),
    }
    let unknown = RawReplyPacket::new_reply(1, ErrorCode::new(9999), Bytes::new());
    assert!(matches!(
        decode_reply::<Dispose>(&codec, &unknown),
        Err(SendError::Jdwp { code: 9999, constant: None })
    ));
}

#[test]
fn decode_reply_reports_what_does_not_decode() {
    let codec = JdwpCodec::default();
    let short = RawReplyPacket::new_reply(1, ErrorCode::new(0), Bytes::from(vec![0, 0, 0, 1]));
    assert!(matches!(
        decode_reply::<AllThreads>(&codec, &short),
        Err(SendError::Decode(DecodeJdwpDataError::NotEnoughBytes))
    ));
    let negative = RawReplyPacket::new_reply(1, ErrorCode::new(0), Bytes::from(vec![0xff; 4]));
    assert!(matches!(
        decode_reply::<AllThreads>(&codec, &negative),
        Err(SendError::Decode(DecodeJdwpDataError::UnexpectedNegativeInt(-1)))
    ));
}

#[test]
fn route_hands_replies_to_their_id() {
    let codec = JdwpCodec::default();
    let reply = RawReplyPacket::new_reply(41, ErrorCode::new(0), Bytes::from(vec![1, 2]));
    match route(AnyRawPacket::Reply(reply.clone()), &codec) {
        Inbound::Reply { id, reply: routed } => {
            assert_eq!(id, 41);
            assert_eq!(routed, reply);
        }
        other => panic!("expected a reply, got {:?}", other),
    }
}

#[test]
fn route_tells_events_from_other_commands() {
    let codec = JdwpCodec::default();
    let payload = Bytes::from(vec![2, 0, 0, 0, 1, 99, 0, 0, 0, 7]);
    let events = RawCommandPacket::new_command(0, CommandData::new(64, 100), payload.clone());
    match route(AnyRawPacket::Command(events), &codec) {
        Inbound::Events(Events { policy, events }) => {
            assert_eq!(policy, SuspendPolicy::All);
            assert!(matches!(events[..], [Event::VmDeath { request_id: 7 }]));
        }
        other => panic!("expected events, got {:?}", other),
    }
    let other = RawCommandPacket::new_command(0, CommandData::new(1, 1), payload);
    assert!(matches!(route(AnyRawPacket::Command(other), &codec), Inbound::Unexpected(_)));
    let broken = RawCommandPacket::new_command(0, CommandData::new(64, 100), Bytes::from(vec![9]));
    assert!(matches!(route(AnyRawPacket::Command(broken), &codec), Inbound::Unexpected(_)));
}

fn composite(request_id: i32) -> Events {
    Events { policy: SuspendPolicy::Nothing, events: vec![Event::VmDeath { request_id }] }
}

fn request_ids(delivered: &[Events]) -> Vec<i32> {
    delivered
        .iter()
        .map(|composite| match composite.events[..] {
            [Event::VmDeath { request_id }] => request_id,
            _ => panic!("unexpected composite"),
        })
        .collect()
}

#[test]
fn events_are_held_back_until_a_handler_is_there() {
    let mut queue = EventQueue::new();
    assert_eq!(queue.len(), 0);
    assert!(queue.offer(composite(1), 0).is_empty());
    assert!(queue.offer(composite(2), 0).is_empty());
    assert_eq!(queue.len(), 2);
    assert!(queue.flush(0).is_empty());
    assert_eq!(queue.len(), 2);
    assert_eq!(request_ids(&queue.offer(composite(3), 1)), vec![1, 2, 3]);
    assert_eq!(queue.len(), 0);
    assert_eq!(request_ids(&queue.offer(composite(4), 2)), vec![4]);
    assert!(queue.flush(2).is_empty());
}

#[test]
fn flush_hands_out_everything_once_and_in_order() {
    let mut queue = EventQueue::new();
    for id in 1..=5 {
        assert!(queue.offer(composite(id), 0).is_empty());
    }
    assert_eq!(request_ids(&queue.flush(1)), vec![1, 2, 3, 4, 5]);
    assert_eq!(queue.len(), 0);
    assert!(queue.flush(1).is_empty());
    assert_eq!(request_ids(&queue.offer(composite(6), 1)), vec![6]);
}

#[test]
fn fan_out_calls_each_handler_for_each_event_in_order() {
    assert!(fan_out(0, 3).is_empty());
    assert!(fan_out(3, 0).is_empty());
    assert_eq!(fan_out(1, 1), vec![Delivery { handler: 0, event: 0 }]);
    let plan = fan_out(2, 3);
    let pairs: Vec<(usize, usize)> = plan.iter().map(|d| (d.handler, d.event)).collect();
    assert_eq!(pairs, vec![(0, 0), (0, 1), (0, 2), (1, 0), (1, 1), (1, 2)]);
}

#[test]
fn a_reply_goes_to_the_waiter_of_its_id_and_to_no_other() {
    let mut table = PendingReplies::new();
    assert_eq!(table.register(1, "first"), None);
    assert_eq!(table.register(2, "second"), None);
    assert_eq!(table.register(3, "third"), None);
    assert_eq!(table.complete(2), Some("second"));
    assert_eq!(table.complete(2), None);
    assert_eq!(table.complete(4), None);
    assert_eq!(table.complete(1), Some("first"));
    assert_eq!(table.complete(3), Some("third"));
    assert_eq!(table.complete(3), None);
}

#[test]
fn registering_twice_puts_the_earlier_waiter_out() {
    let mut table = PendingReplies::new();
    assert_eq!(table.register(7, 'a'), None);
    assert_eq!(table.register(7, 'b'), Some('a'));
    assert_eq!(table.complete(7), Some('b'));
}

#[test]
fn abandoning_lets_every_waiter_go() {
    let mut table = PendingReplies::new();
    table.register(1, 10);
    table.register(2, 20);
    table.abandon();
    assert_eq!(table.complete(1), None);
    assert_eq!(table.complete(2), None);
    assert_eq!(table.register(1, 11), None);
}
