use bytes::Bytes;
use jdwp_client::codec::{DecodeJdwpDataError, JdwpCodec, JdwpDecoder};
use jdwp_client::constants::{EventKind, SuspendPolicy, Tag, TypeTag};
use jdwp_client::events::{to_events, Event, Events, NotAnEventError, EVENT_COMMAND, EVENT_COMMAND_SET};
use jdwp_client::id_sizes::IdSizes;
use jdwp_client::ids::{ClassId, MethodId, ThreadId};
use jdwp_client::packet::{CommandData, RawCommandPacket};
use jdwp_client::values::{Location, Value};

fn small_codec() -> JdwpCodec {
    JdwpCodec::new(IdSizes::new(1, 1, 1, 1))
}

fn event(bytes: &[u8]) -> Result<Event, DecodeJdwpDataError> {
    let codec = small_codec();
    let mut decoder = JdwpDecoder::new(&codec, Bytes::copy_from_slice(bytes));
    let event = decoder.get::<Event>()?;
    assert_eq!(decoder.remaining(), 0);
    Ok(event)
}

const LOCATION: [u8; 11] = [1, 5, 6, 0, 0, 0, 0, 0, 0, 0, 7];

fn location() -> Location {
    Location { tag: TypeTag::Class, class: ClassId::new(5), method: MethodId::new(6), offset: 7 }
}

fn with(head: &[u8], parts: &[&[u8]]) -> Vec<u8> {
    let mut bytes = head.to_vec();
    for part in parts {
        bytes.extend_from_slice(part);
    }
    bytes
}

#[test]
fn events_with_thread_and_location() {
    let body = with(&[0, 0, 0, 9, 3], &[&LOCATION]);
    for (code, kind) in [
        (1u8, EventKind::SingleStep),
        (2, EventKind::Breakpoint),
        (40, EventKind::MethodEntry),
        (41, EventKind::MethodExit),
    ] {
        let decoded = event(&with(&[code], &[&body])).unwrap();
        assert_eq!(decoded.kind(), kind);
        match decoded {
            Event::SingleStep { request_id, thread, location: at }
            | Event::Breakpoint { request_id, thread, location: at }
            | Event::MethodEntry { request_id, thread, location: at }
            | Event::MethodExit { request_id, thread, location: at } => {
                assert_eq!(request_id, 9);
                assert_eq!(thread, ThreadId::new(3));
                assert_eq!(at, location());
            }
            other => panic!("unexpected event {:?}", other),
        }
    }
}

#[test]
fn events_without_payload() {
    assert!(matches!(event(&[3]).unwrap(), Event::FramePop));
    assert!(matches!(event(&[5]).unwrap(), Event::UserDefined));
    assert!(matches!(event(&[10]).unwrap(), Event::ClassLoad));
    assert!(matches!(event(&[30]).unwrap(), Event::ExceptionCatch));
}

#[test]
fn exception_event() {
    let bytes = with(&[4, 0, 0, 0, 1, 2], &[&LOCATION, &[76, 8], &LOCATION]);
    match event(&bytes).unwrap() {
        Event::Exception { request_id, thread, location: at, exception, catch_location } => {
            assert_eq!(request_id, 1);
            assert_eq!(thread, ThreadId::new(2));
            assert_eq!(at, location());
            assert_eq!(exception.tag(), Tag::Object);
            assert_eq!(exception.id().get(), 8);
            assert_eq!(catch_location, location());
        }
        other => panic!("unexpected event {:?}", other),
    }
}

#[test]
fn thread_and_vm_events() {
    assert!(matches!(
        event(&[6, 0, 0, 0, 1, 4]).unwrap(),
        Event::ThreadStart { request_id: 1, thread } if thread == ThreadId::new(4)
    ));
    assert!(matches!(
        event(&[7, 0, 0, 0, 2, 5]).unwrap(),
        Event::ThreadDeath { request_id: 2, thread } if thread == ThreadId::new(5)
    ));
    assert!(matches!(
        event(&[90, 0, 0, 0, 0, 1]).unwrap(),
        Event::VmStart { request_id: 0, thread } if thread == ThreadId::new(1)
    ));
    assert!(matches!(event(&[99, 0xff, 0xff, 0xff, 0xfe]).unwrap(), Event::VmDeath { request_id: -2 }));
}

#[test]
fn class_events() {
    let bytes = [8, 0, 0, 0, 3, 4, 2, 9, 0, 0, 0, 2, b'L', b';', 0, 0, 0, 7];
    match event(&bytes).unwrap() {
        Event::ClassPrepare { request_id, thread, ref_type_tag, type_id, signature, status } => {
            assert_eq!(request_id, 3);
            assert_eq!(thread, ThreadId::new(4));
            assert_eq!(ref_type_tag, TypeTag::Interface);
            assert_eq!(type_id.get(), 9);
            assert_eq!(signature, "L;");
            assert_eq!(status.0, 7);
            assert!(status.prepared());
        }
        other => panic!("unexpected event {:?}", other),
    }
    match event(&[9, 0, 0, 0, 3, 0, 0, 0, 1, b'x']).unwrap() {
        Event::ClassUnload { request_id, signature } => {
            assert_eq!(request_id, 3);
            assert_eq!(signature, "x");
        }
        other => panic!("unexpected event {:?}", other),
    }
}

#[test]
fn field_events() {
    let head = [0u8, 0, 0, 1, 2, 1, 3, 4, 5];
    match event(&with(&[20], &[&head])).unwrap() {
        Event::FieldAccess { request_id, thread, ref_type_tag, type_id, field_id, object } => {
            assert_eq!(request_id, 1);
            assert_eq!(thread, ThreadId::new(2));
            assert_eq!(ref_type_tag, TypeTag::Class);
            assert_eq!(type_id.get(), 3);
            assert_eq!(field_id.get(), 4);
            assert_eq!(object.get(), 5);
        }
        other => panic!("unexpected event {:?}", other),
    }
    match event(&with(&[21], &[&head, &[73, 0, 0, 0, 42]])).unwrap() {
        Event::FieldModification { field_id, object, value_to_be, .. } => {
            assert_eq!(field_id.get(), 4);
            assert_eq!(object.get(), 5);
            assert!(matches!(value_to_be, Value::Int(42)));
        }
        other => panic!("unexpected event {:?}", other),
    }
}

#[test]
fn method_exit_with_return_value() {
    let bytes = with(&[42, 0, 0, 0, 1, 2], &[&LOCATION, &[86]]);
    match event(&bytes).unwrap() {
        Event::MethodExitWithReturnValue { request_id, thread, location: at, value } => {
            assert_eq!(request_id, 1);
            assert_eq!(thread, ThreadId::new(2));
            assert_eq!(at, location());
            assert!(matches!(value, Value::Void));
        }
        other => panic!("unexpected event {:?}", other),
    }
}

#[test]
fn monitor_events() {
    let head = with(&[0, 0, 0, 1, 2, 116, 9], &[&LOCATION]);
    match event(&with(&[43], &[&head])).unwrap() {
        Event::MonitorContendedEnter { request_id, thread, object, location: at } => {
            assert_eq!(request_id, 1);
            assert_eq!(thread, ThreadId::new(2));
            assert_eq!(object.tag(), Tag::Thread);
            assert_eq!(object.id().get(), 9);
            assert_eq!(at, location());
        }
        other => panic!("unexpected event {:?}", other),
    }
    let entered = event(&with(&[44], &[&head])).unwrap();
    assert_eq!(entered.kind(), EventKind::MonitorContendedEntered);
    assert!(matches!(entered, Event::MonitorContendedEntered { request_id: 1, .. }));
    match event(&with(&[45], &[&head, &[0, 0, 0, 0, 0, 0, 1, 0]])).unwrap() {
        Event::MonitorWait { timeout, .. } => assert_eq!(timeout, 256),
        other => panic!("unexpected event {:?}", other),
    }
    match event(&with(&[46], &[&head, &[1]])).unwrap() {
        Event::MonitorWaited { timed_out, .. } => assert_eq!(timed_out, 1),
        other => panic!("unexpected event {:?}", other),
    }
}

#[test]
fn event_errors() {
    match event(&[100]) {
        Err(DecodeJdwpDataError::IllegalByteTag(e)) => assert_eq!(e.0, 100),
        other => panic!("expected an illegal tag, got {:?}", other),
    }
    match event(&[11]) {
        Err(DecodeJdwpDataError::IllegalByteTag(e)) => assert_eq!(e.0, 11),
        other => panic!("expected an illegal tag, got {:?}", other),
    }
    assert!(matches!(event(&[]), Err(DecodeJdwpDataError::NotEnoughBytes)));
    assert!(matches!(event(&[90, 0, 0, 0, 0]), Err(DecodeJdwpDataError::NotEnoughBytes)));
    assert!(matches!(event(&[1, 0, 0, 0, 9, 3, 7]), Err(DecodeJdwpDataError::IllegalByteTag(_))));
    assert!(matches!(
        event(&[9, 0, 0, 0, 3, 0xff, 0xff, 0xff, 0xff]),
        Err(DecodeJdwpDataError::UnexpectedNegativeInt(-1))
    ));
    assert!(matches!(
        event(&[9, 0, 0, 0, 3, 0, 0, 0, 1, 0x80]),
        Err(DecodeJdwpDataError::Utf8DecodeError(_))
    ));
}

fn command(set: u8, command: u8, payload: &[u8]) -> RawCommandPacket {
    RawCommandPacket::new_command(1, CommandData::new(set, command), Bytes::copy_from_slice(payload))
}

#[test]
fn composite_with_vm_start() {
    let codec = JdwpCodec::default();
    let payload = [2, 0, 0, 0, 1, 90, 0, 0, 0, 0, 0, 0, 0, 0, 0, 0, 0, 1];
    let Events { policy, events } =
        to_events(command(EVENT_COMMAND_SET, EVENT_COMMAND, &payload), &codec).unwrap();
    assert_eq!(policy, SuspendPolicy::All);
    assert_eq!(events.len(), 1);
    assert!(matches!(
        &events[0],
        Event::VmStart { request_id: 0, thread } if thread.get() == 1
    ));
}

#[test]
fn composite_keeps_the_order_of_the_wire() {
    let codec = small_codec();
    let payload = [1, 0, 0, 0, 3, 6, 0, 0, 0, 1, 4, 3, 7, 0, 0, 0, 2, 5];
    let events = to_events(command(64, 100, &payload), &codec).unwrap();
    assert_eq!(events.policy, SuspendPolicy::EventThread);
    let kinds: Vec<EventKind> = events.events.iter().map(|e| e.kind()).collect();
    assert_eq!(kinds, vec![EventKind::ThreadStart, EventKind::FramePop, EventKind::ThreadDeath]);
}

#[test]
fn other_commands_are_no_events() {
    let codec = small_codec();
    let payload = [2, 0, 0, 0, 0];
    assert!(to_events(command(64, 100, &payload), &codec).is_ok());
    assert_eq!(to_events(command(64, 99, &payload), &codec).unwrap_err(), NotAnEventError);
    assert_eq!(to_events(command(1, 100, &payload), &codec).unwrap_err(), NotAnEventError);
    assert_eq!(to_events(command(100, 64, &payload), &codec).unwrap_err(), NotAnEventError);
}

#[test]
fn broken_composites_are_no_events() {
    let codec = small_codec();
    assert!(to_events(command(64, 100, &[]), &codec).is_err());
    assert!(to_events(command(64, 100, &[3, 0, 0, 0, 0]), &codec).is_err());
    assert!(to_events(command(64, 100, &[2, 0xff, 0xff, 0xff, 0xff]), &codec).is_err());
    assert!(to_events(command(64, 100, &[2, 0, 0, 0, 1]), &codec).is_err());
    assert!(to_events(command(64, 100, &[2, 0, 0, 0, 1, 100]), &codec).is_err());
    assert!(to_events(command(64, 100, &[2, 0, 0, 0, 1, 200]), &codec).is_err());
}
