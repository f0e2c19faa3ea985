use bytes::Bytes;
use jdwp_client::codec::{DecodeJdwpDataError, JdwpCodec, JdwpDecoder, JdwpEncoder};
use jdwp_client::constants::{ClassStatus, EventKind, SuspendPolicy, Tag, TypeTag};
use jdwp_client::id_sizes::IdSizes;
use jdwp_client::ids::{
    ArrayId, ClassId, FieldId, FrameId, Id, MethodId, ObjectId, ReferenceTypeId, StringId,
    TaggedObjectId, ThreadId,
};
use jdwp_client::namespaces::{Object, Unknown};
use jdwp_client::values::{Location, Value};

#[test]
fn encode_special_ids() {
    let id: Id<Object> = Id::new(101);
    let codec = JdwpCodec::new(IdSizes::new(6, 6, 6, 6));
    let mut encoder = JdwpEncoder::new(&codec);
    encoder.put(&id);
    assert_eq!(encoder.len(), 6);
    assert_eq!(encoder.as_slice(), &[0, 0, 0, 0, 0, 101]);
    let mut decoder = JdwpDecoder::new(&codec, encoder.finish());
    let decoded_id = decoder
        .get::<ObjectId>()
        .expect("could not decode objectid");
    assert_eq!(decoded_id, id);
}

#[test]
fn encode_special_ids_out_of_bounds() {
    let id: Id<Object> = Id::new(u64::MAX);
    let codec = JdwpCodec::new(IdSizes::new(6, 6, 6, 6));
    let mut encoder = JdwpEncoder::new(&codec);
    encoder.put(&id);
    assert_eq!(encoder.len(), 6);
    let mut decoder = JdwpDecoder::new(&codec, encoder.finish());
    let decoded_id = decoder
        .get::<ObjectId>()
        .expect("could not decode objectid");
    assert_ne!(decoded_id, id);
    assert_eq!(decoded_id, Id::new(!(0xFFFF << 48)));
}

fn encoded<T: jdwp_client::codec::JdwpEncodable>(codec: &JdwpCodec, value: &T) -> Vec<u8> {
    let mut encoder = JdwpEncoder::new(codec);
    encoder.put(value);
    encoder.as_slice().to_vec()
}

fn decoder<'a>(codec: &'a JdwpCodec, bytes: &[u8]) -> JdwpDecoder<'a> {
    JdwpDecoder::new(codec, Bytes::copy_from_slice(bytes))
}

#[test]
fn default_table_is_eight_bytes_wide() {
    let sizes = IdSizes::default();
    assert_eq!(sizes.object_id_size(), 8);
    assert_eq!(sizes.method_id_size(), 8);
    assert_eq!(sizes.field_id_size(), 8);
    assert_eq!(sizes.frame_id_size(), 8);
    assert!(sizes.is_valid());
    assert_eq!(JdwpCodec::default().id_sizes().object_id_size(), 8);
}

#[test]
fn table_keeps_each_width_apart() {
    let sizes = IdSizes::new(1, 2, 3, 4);
    assert_eq!(sizes.object_id_size(), 1);
    assert_eq!(sizes.method_id_size(), 2);
    assert_eq!(sizes.field_id_size(), 3);
    assert_eq!(sizes.frame_id_size(), 4);
    assert!(sizes.is_valid());
    assert!(!IdSizes::new(0, 8, 8, 8).is_valid());
    assert!(!IdSizes::new(8, 9, 8, 8).is_valid());
    assert!(!IdSizes::new(8, 8, 0, 8).is_valid());
    assert!(!IdSizes::new(8, 8, 8, 9).is_valid());
}

#[test]
fn codec_takes_a_new_table() {
    let mut codec = JdwpCodec::default();
    codec.set_id_sizes(IdSizes::new(4, 4, 4, 4));
    assert_eq!(codec.id_sizes().object_id_size(), 4);
    assert_eq!(encoded(&codec, &ObjectId::new(1)), vec![0, 0, 0, 1]);
}

#[test]
fn codec_table_can_be_changed_in_place() {
    let mut codec = JdwpCodec::default();
    *codec.id_sizes_mut() = IdSizes::new(2, 3, 4, 5);
    assert_eq!(codec.id_sizes().object_id_size(), 2);
    assert_eq!(codec.id_sizes().method_id_size(), 3);
    assert_eq!(codec.id_sizes().field_id_size(), 4);
    assert_eq!(codec.id_sizes().frame_id_size(), 5);
    assert_eq!(encoded(&codec, &FrameId::new(1)), vec![0, 0, 0, 0, 1]);
}

#[test]
fn integers_are_big_endian() {
    let codec = JdwpCodec::default();
    assert_eq!(encoded(&codec, &0xabu8), vec![0xab]);
    assert_eq!(encoded(&codec, &0x1234u16), vec![0x12, 0x34]);
    assert_eq!(encoded(&codec, &(-2i16)), vec![0xff, 0xfe]);
    assert_eq!(encoded(&codec, &0x01020304i32), vec![1, 2, 3, 4]);
    assert_eq!(encoded(&codec, &(-1i32)), vec![0xff, 0xff, 0xff, 0xff]);
    assert_eq!(encoded(&codec, &0xdeadbeefu32), vec![0xde, 0xad, 0xbe, 0xef]);
    assert_eq!(encoded(&codec, &0x0102030405060708i64), vec![1, 2, 3, 4, 5, 6, 7, 8]);
    assert_eq!(encoded(&codec, &i64::MIN), vec![0x80, 0, 0, 0, 0, 0, 0, 0]);
    assert_eq!(encoded(&codec, &u64::MAX), vec![0xff; 8]);
}

#[test]
fn integers_round_trip() {
    let codec = JdwpCodec::default();
    for v in [0u8, 1, 127, 128, 255] {
        assert_eq!(decoder(&codec, &encoded(&codec, &v)).get::<u8>().unwrap(), v);
    }
    for v in [0u16, 1, 0x7fff, 0x8000, u16::MAX] {
        assert_eq!(decoder(&codec, &encoded(&codec, &v)).get::<u16>().unwrap(), v);
    }
    for v in [0i16, 1, -1, i16::MIN, i16::MAX] {
        assert_eq!(decoder(&codec, &encoded(&codec, &v)).get::<i16>().unwrap(), v);
    }
    for v in [0i32, 1, -1, i32::MIN, i32::MAX, 0x01020304] {
        assert_eq!(decoder(&codec, &encoded(&codec, &v)).get::<i32>().unwrap(), v);
    }
    for v in [0u32, 1, u32::MAX, 0x80000000] {
        assert_eq!(decoder(&codec, &encoded(&codec, &v)).get::<u32>().unwrap(), v);
    }
    for v in [0i64, 1, -1, i64::MIN, i64::MAX] {
        assert_eq!(decoder(&codec, &encoded(&codec, &v)).get::<i64>().unwrap(), v);
    }
    for v in [0u64, 1, u64::MAX, 1 << 63] {
        assert_eq!(decoder(&codec, &encoded(&codec, &v)).get::<u64>().unwrap(), v);
    }
}

#[test]
fn decoding_leaves_the_bytes_behind() {
    let codec = JdwpCodec::default();
    let mut d = decoder(&codec, &[0, 0, 0, 5, 9, 0xff, 0xff, 0xff, 0xff, 0xff, 0xff, 0xff, 0xfe, 7]);
    assert_eq!(d.remaining(), 14);
    assert_eq!(d.get::<i32>().unwrap(), 5);
    assert_eq!(d.get::<u8>().unwrap(), 9);
    assert_eq!(d.get::<i64>().unwrap(), -2);
    assert_eq!(d.remaining(), 1);
    assert_eq!(d.read_uint(1).unwrap(), 7);
    assert_eq!(d.remaining(), 0);
}

#[test]
fn short_input_is_not_enough_bytes() {
    let codec = JdwpCodec::default();
    assert!(matches!(decoder(&codec, &[]).get::<u8>(), Err(DecodeJdwpDataError::NotEnoughBytes)));
    assert!(matches!(decoder(&codec, &[1]).get::<u16>(), Err(DecodeJdwpDataError::NotEnoughBytes)));
    assert!(matches!(decoder(&codec, &[1]).get::<i16>(), Err(DecodeJdwpDataError::NotEnoughBytes)));
    assert!(matches!(
        decoder(&codec, &[1, 2, 3]).get::<i32>(),
        Err(DecodeJdwpDataError::NotEnoughBytes)
    ));
    assert!(matches!(
        decoder(&codec, &[1, 2, 3]).get::<u32>(),
        Err(DecodeJdwpDataError::NotEnoughBytes)
    ));
    assert!(matches!(
        decoder(&codec, &[1, 2, 3, 4, 5, 6, 7]).get::<i64>(),
        Err(DecodeJdwpDataError::NotEnoughBytes)
    ));
    assert!(matches!(
        decoder(&codec, &[1, 2, 3, 4, 5, 6, 7]).get::<ObjectId>(),
        Err(DecodeJdwpDataError::NotEnoughBytes)
    ));
    assert!(matches!(
        decoder(&codec, &[1, 2, 3]).get::<ClassStatus>(),
        Err(DecodeJdwpDataError::NotEnoughBytes)
    ));
    assert!(matches!(decoder(&codec, &[1, 2]).read_bytes(3), Err(DecodeJdwpDataError::NotEnoughBytes)));
}

#[test]
fn read_bytes_takes_them_as_they_are() {
    let codec = JdwpCodec::default();
    let mut d = decoder(&codec, &[1, 2, 3, 4]);
    assert_eq!(d.read_bytes(3).unwrap(), vec![1, 2, 3]);
    assert_eq!(d.read_bytes(0).unwrap(), Vec::<u8>::new());
    assert_eq!(d.read_bytes(1).unwrap(), vec![4]);
}

#[test]
fn ids_are_written_at_the_width_of_their_family() {
    let codec = JdwpCodec::new(IdSizes::new(1, 2, 3, 4));
    assert_eq!(encoded(&codec, &ObjectId::new(0x0102030405060708)), vec![8]);
    assert_eq!(encoded(&codec, &ThreadId::new(0x0102030405060708)), vec![8]);
    assert_eq!(encoded(&codec, &ReferenceTypeId::new(0xfe)), vec![0xfe]);
    assert_eq!(encoded(&codec, &MethodId::new(0x0102030405060708)), vec![7, 8]);
    assert_eq!(encoded(&codec, &FieldId::new(0x0102030405060708)), vec![6, 7, 8]);
    assert_eq!(encoded(&codec, &FrameId::new(0x0102030405060708)), vec![5, 6, 7, 8]);
    let mut d = decoder(&codec, &[8, 7, 8, 6, 7, 8, 5, 6, 7, 8]);
    assert_eq!(d.get::<ObjectId>().unwrap(), ObjectId::new(8));
    assert_eq!(d.get::<MethodId>().unwrap(), MethodId::new(0x0708));
    assert_eq!(d.get::<FieldId>().unwrap(), FieldId::new(0x060708));
    assert_eq!(d.get::<FrameId>().unwrap(), FrameId::new(0x05060708));
}

#[test]
fn ids_round_trip_at_every_width() {
    for width in 1..=8usize {
        let codec = JdwpCodec::new(IdSizes::new(width, width, width, width));
        let top = if width == 8 { u64::MAX } else { (1u64 << (8 * width)) - 1 };
        for v in [0u64, 1, top / 2, top] {
            let bytes = encoded(&codec, &ObjectId::new(v));
            assert_eq!(bytes.len(), width);
            assert_eq!(decoder(&codec, &bytes).get::<ObjectId>().unwrap(), ObjectId::new(v));
        }
        if width < 8 {
            let bytes = encoded(&codec, &ObjectId::new(top + 1 + 5));
            assert_eq!(decoder(&codec, &bytes).get::<ObjectId>().unwrap(), ObjectId::new(5));
        }
    }
}

#[test]
fn strings_are_length_prefixed_utf8() {
    let codec = JdwpCodec::default();
    assert_eq!(encoded(&codec, &String::from("hi")), vec![0, 0, 0, 2, b'h', b'i']);
    assert_eq!(encoded(&codec, &String::new()), vec![0, 0, 0, 0]);
    let snowman = String::from("\u{2603}!");
    assert_eq!(encoded(&codec, &snowman), vec![0, 0, 0, 4, 0xe2, 0x98, 0x83, b'!']);
    let mut d = decoder(&codec, &[0, 0, 0, 4, 0xe2, 0x98, 0x83, b'!', 1]);
    assert_eq!(d.get::<String>().unwrap(), snowman);
    assert_eq!(d.remaining(), 1);
    for s in ["", "Ljava/lang/String;", "\u{1f600} \u{e9}"] {
        let s = String::from(s);
        assert_eq!(decoder(&codec, &encoded(&codec, &s)).get::<String>().unwrap(), s);
    }
}

#[test]
fn string_errors() {
    let codec = JdwpCodec::default();
    assert!(matches!(
        decoder(&codec, &[0xff, 0xff, 0xff, 0xff, 1, 2]).get::<String>(),
        Err(DecodeJdwpDataError::UnexpectedNegativeInt(-1))
    ));
    assert!(matches!(
        decoder(&codec, &[0x80, 0, 0, 0]).get::<String>(),
        Err(DecodeJdwpDataError::UnexpectedNegativeInt(i32::MIN))
    ));
    assert!(matches!(
        decoder(&codec, &[0, 0, 0, 3, b'a', b'b']).get::<String>(),
        Err(DecodeJdwpDataError::NotEnoughBytes)
    ));
    assert!(matches!(
        decoder(&codec, &[0, 0]).get::<String>(),
        Err(DecodeJdwpDataError::NotEnoughBytes)
    ));
    assert!(matches!(
        decoder(&codec, &[0, 0, 0, 2, 0xc3, 0x28]).get::<String>(),
        Err(DecodeJdwpDataError::Utf8DecodeError(_))
    ));
    assert!(matches!(
        decoder(&codec, &[0, 0, 0, 1, 0xff]).get::<String>(),
        Err(DecodeJdwpDataError::Utf8DecodeError(_))
    ));
}

#[test]
fn tags_are_one_byte_and_unknown_ones_are_refused() {
    let codec = JdwpCodec::default();
    assert_eq!(encoded(&codec, &TypeTag::Interface), vec![2]);
    assert_eq!(encoded(&codec, &Tag::String), vec![115]);
    assert_eq!(encoded(&codec, &SuspendPolicy::All), vec![2]);
    assert_eq!(encoded(&codec, &EventKind::VmStart), vec![90]);
    assert_eq!(decoder(&codec, &[3]).get::<TypeTag>().unwrap(), TypeTag::Array);
    assert_eq!(decoder(&codec, &[91]).get::<Tag>().unwrap(), Tag::Array);
    assert_eq!(decoder(&codec, &[0]).get::<SuspendPolicy>().unwrap(), SuspendPolicy::Nothing);
    assert_eq!(decoder(&codec, &[99]).get::<EventKind>().unwrap(), EventKind::VmDeath);
    match decoder(&codec, &[4]).get::<TypeTag>() {
        Err(DecodeJdwpDataError::IllegalByteTag(e)) => assert_eq!(e.0, 4),
        other => panic!("expected an illegal tag, got {:?}", other),
    }
    match decoder(&codec, &[0]).get::<Tag>() {
        Err(DecodeJdwpDataError::IllegalByteTag(e)) => assert_eq!(e.0, 0),
        other => panic!("expected an illegal tag, got {:?}", other),
    }
    assert!(matches!(
        decoder(&codec, &[3]).get::<SuspendPolicy>(),
        Err(DecodeJdwpDataError::IllegalByteTag(_))
    ));
    assert!(matches!(
        decoder(&codec, &[11]).get::<EventKind>(),
        Err(DecodeJdwpDataError::IllegalByteTag(_))
    ));
    assert!(matches!(decoder(&codec, &[]).get::<Tag>(), Err(DecodeJdwpDataError::NotEnoughBytes)));
}

#[test]
fn class_status_keeps_every_bit() {
    let codec = JdwpCodec::default();
    let status = decoder(&codec, &[0xf0, 0, 0, 0x07]).get::<ClassStatus>().unwrap();
    assert_eq!(status.0, 0xf000_0007);
    assert!(status.verified());
    assert!(status.prepared());
    assert!(status.initialized());
    assert!(!status.error());
    assert_eq!(encoded(&codec, &status), vec![0xf0, 0, 0, 0x07]);
    assert!(ClassStatus(8).error());
    assert!(!ClassStatus(8).verified());
    assert!(!ClassStatus(1).prepared());
    assert!(!ClassStatus(2).initialized());
}

#[test]
fn location_is_tag_class_method_offset() {
    let codec = JdwpCodec::new(IdSizes::new(2, 3, 8, 8));
    let location = Location {
        tag: TypeTag::Class,
        class: ClassId::new(0x0102),
        method: MethodId::new(0x030405),
        offset: 0xf000_0000_0000_0009,
    };
    let bytes = encoded(&codec, &location);
    assert_eq!(bytes, vec![1, 1, 2, 3, 4, 5, 0xf0, 0, 0, 0, 0, 0, 0, 9]);
    assert_eq!(decoder(&codec, &bytes).get::<Location>().unwrap(), location);
    assert!(matches!(
        decoder(&codec, &[9, 1, 2, 3, 4, 5, 0, 0, 0, 0, 0, 0, 0, 9]).get::<Location>(),
        Err(DecodeJdwpDataError::IllegalByteTag(_))
    ));
    assert!(matches!(
        decoder(&codec, &bytes[..13]).get::<Location>(),
        Err(DecodeJdwpDataError::NotEnoughBytes)
    ));
}

#[test]
fn tagged_object_is_tag_then_object_id() {
    let codec = JdwpCodec::new(IdSizes::new(4, 8, 8, 8));
    let tagged = TaggedObjectId::from(ThreadId::new(0x01020304));
    let bytes = encoded(&codec, &tagged);
    assert_eq!(bytes, vec![116, 1, 2, 3, 4]);
    assert_eq!(decoder(&codec, &bytes).get::<TaggedObjectId>().unwrap(), tagged);
    for tag in [Tag::Object, Tag::Array, Tag::String, Tag::Thread, Tag::ThreadGroup, Tag::ClassLoader, Tag::ClassObject] {
        let tagged = TaggedObjectId::new(tag, Id::<Unknown>::new(77));
        assert_eq!(
            decoder(&codec, &encoded(&codec, &tagged)).get::<TaggedObjectId>().unwrap(),
            tagged
        );
    }
    match decoder(&codec, &[73, 0, 0, 0, 1]).get::<TaggedObjectId>() {
        Err(DecodeJdwpDataError::IllegalByteTag(e)) => assert_eq!(e.0, 73),
        other => panic!("expected an illegal tag, got {:?}", other),
    }
    assert!(matches!(
        decoder(&codec, &[200, 0, 0, 0, 1]).get::<TaggedObjectId>(),
        Err(DecodeJdwpDataError::IllegalByteTag(_))
    ));
    assert!(matches!(
        decoder(&codec, &[76, 0, 0, 1]).get::<TaggedObjectId>(),
        Err(DecodeJdwpDataError::NotEnoughBytes)
    ));
}

fn same_value(a: &Value, b: &Value) -> bool {
    match (a, b) {
        (Value::Array(x), Value::Array(y)) => x == y,
        (Value::Byte(x), Value::Byte(y)) => x == y,
        (Value::Boolean(x), Value::Boolean(y)) => x == y,
        (Value::Char(x), Value::Char(y)) => x == y,
        (Value::Object(x), Value::Object(y)) => x == y,
        (Value::Float(x), Value::Float(y)) => x == y,
        (Value::Double(x), Value::Double(y)) => x == y,
        (Value::Int(x), Value::Int(y)) => x == y,
        (Value::Long(x), Value::Long(y)) => x == y,
        (Value::Short(x), Value::Short(y)) => x == y,
        (Value::Void, Value::Void) => true,
        (Value::String(x), Value::String(y)) => x == y,
        (Value::Thread(x), Value::Thread(y)) => x == y,
        (Value::ThreadGroup(x), Value::ThreadGroup(y)) => x == y,
        (Value::ClassLoader(x), Value::ClassLoader(y)) => x == y,
        (Value::ClassObject(x), Value::ClassObject(y)) => x == y,
        _ => false,
    }
}

#[test]
fn values_round_trip_under_every_tag() {
    let codec = JdwpCodec::new(IdSizes::new(3, 8, 8, 8));
    let values = [
        Value::Array(Id::new(0x010203)),
        Value::Byte(0xfe),
        Value::Boolean(true),
        Value::Boolean(false),
        Value::Char(0x20ac),
        Value::Object(Id::new(0)),
        Value::Float(1.5f32.to_bits()),
        Value::Double((-2.25f64).to_bits()),
        Value::Int(-7),
        Value::Long(i64::MIN),
        Value::Short(-3),
        Value::Void,
        Value::String(Id::new(9)),
        Value::Thread(Id::new(10)),
        Value::ThreadGroup(Id::new(11)),
        Value::ClassLoader(Id::new(12)),
        Value::ClassObject(Id::new(13)),
    ];
    for value in values.iter() {
        let bytes = encoded(&codec, value);
        assert_eq!(bytes[0], value.tag().code());
        let mut d = decoder(&codec, &bytes);
        let back = d.get::<Value>().unwrap();
        assert!(same_value(&back, value), "{:?} came back as {:?}", value, back);
        assert_eq!(d.remaining(), 0);
    }
}

#[test]
fn values_have_the_bytes_of_the_protocol() {
    let codec = JdwpCodec::new(IdSizes::new(2, 8, 8, 8));
    assert_eq!(encoded(&codec, &Value::Void), vec![86]);
    assert_eq!(encoded(&codec, &Value::Boolean(true)), vec![90, 1]);
    assert_eq!(encoded(&codec, &Value::Int(1)), vec![73, 0, 0, 0, 1]);
    assert_eq!(encoded(&codec, &Value::Float(1.0f32.to_bits())), vec![70, 0x3f, 0x80, 0, 0]);
    assert_eq!(
        encoded(&codec, &Value::Double(1.0f64.to_bits())),
        vec![68, 0x3f, 0xf0, 0, 0, 0, 0, 0, 0]
    );
    assert_eq!(encoded(&codec, &Value::String(StringId::new(0x0a0b))), vec![115, 0x0a, 0x0b]);
    assert_eq!(encoded(&codec, &Value::Array(ArrayId::new(1))), vec![91, 0, 1]);
    match decoder(&codec, &[90, 7]).get::<Value>().unwrap() {
        Value::Boolean(b) => assert!(b),
        other => panic!("expected a boolean, got {:?}", other),
    }
    match decoder(&codec, &[70, 0x40, 0x49, 0x0f, 0xdb]).get::<Value>().unwrap() {
        Value::Float(bits) => assert_eq!(f32::from_bits(bits), std::f32::consts::PI),
        other => panic!("expected a float, got {:?}", other),
    }
}

#[test]
fn value_errors() {
    let codec = JdwpCodec::default();
    assert!(matches!(decoder(&codec, &[]).get::<Value>(), Err(DecodeJdwpDataError::NotEnoughBytes)));
    assert!(matches!(
        decoder(&codec, &[1]).get::<Value>(),
        Err(DecodeJdwpDataError::IllegalByteTag(_))
    ));
    for tag in [91u8, 66, 67, 76, 70, 68, 73, 74, 83, 90, 115, 116, 103, 108, 99] {
        assert!(
            matches!(decoder(&codec, &[tag]).get::<Value>(), Err(DecodeJdwpDataError::NotEnoughBytes)),
            "tag {}",
            tag
        );
    }
    assert!(matches!(decoder(&codec, &[86]).get::<Value>(), Ok(Value::Void)));
}

#[test]
fn sequences_are_count_then_items() {
    let codec = JdwpCodec::new(IdSizes::new(2, 8, 8, 8));
    let threads = vec![ThreadId::new(1), ThreadId::new(0x0203)];
    let bytes = encoded(&codec, &threads);
    assert_eq!(bytes, vec![0, 0, 0, 2, 0, 1, 2, 3]);
    assert_eq!(decoder(&codec, &bytes).get::<Vec<ThreadId>>().unwrap(), threads);
    assert_eq!(encoded(&codec, &Vec::<i32>::new()), vec![0, 0, 0, 0]);
    assert_eq!(decoder(&codec, &[0, 0, 0, 0, 9]).get::<Vec<i32>>().unwrap(), Vec::<i32>::new());
    let names = vec![String::from("a"), String::new(), String::from("bc")];
    assert_eq!(decoder(&codec, &encoded(&codec, &names)).get::<Vec<String>>().unwrap(), names);
    let nested = vec![vec![1u8, 2], vec![], vec![3]];
    assert_eq!(decoder(&codec, &encoded(&codec, &nested)).get::<Vec<Vec<u8>>>().unwrap(), nested);
}

#[test]
fn negative_array_length_is_rejected() {
    let codec = JdwpCodec::default();
    assert!(matches!(
        decoder(&codec, &[0xff, 0xff, 0xff, 0xff]).get::<Vec<u8>>(),
        Err(DecodeJdwpDataError::UnexpectedNegativeInt(-1))
    ));
    assert!(matches!(
        decoder(&codec, &[0x80, 0, 0, 1, 1, 2, 3]).get::<Vec<ThreadId>>(),
        Err(DecodeJdwpDataError::UnexpectedNegativeInt(-2147483647))
    ));
}

#[test]
fn oversized_count_with_short_buffer_is_not_enough_bytes() {
    let codec = JdwpCodec::default();
    assert!(matches!(
        decoder(&codec, &[0x7f, 0xff, 0xff, 0xff, 1, 2, 3]).get::<Vec<i32>>(),
        Err(DecodeJdwpDataError::NotEnoughBytes)
    ));
    assert!(matches!(
        decoder(&codec, &[0, 0, 0, 2, 0, 0, 0, 1]).get::<Vec<i32>>(),
        Err(DecodeJdwpDataError::NotEnoughBytes)
    ));
    assert!(matches!(
        decoder(&codec, &[0, 0, 0]).get::<Vec<i32>>(),
        Err(DecodeJdwpDataError::NotEnoughBytes)
    ));
}

#[test]
fn pairs_are_one_part_after_the_other() {
    let codec = JdwpCodec::default();
    let pair = (7u8, (String::from("x"), -1i32));
    let bytes = encoded(&codec, &pair);
    assert_eq!(bytes, vec![7, 0, 0, 0, 1, b'x', 0xff, 0xff, 0xff, 0xff]);
    assert_eq!(decoder(&codec, &bytes).get::<(u8, (String, i32))>().unwrap(), pair);
}

#[test]
fn write_uint_keeps_the_low_bytes() {
    let codec = JdwpCodec::default();
    let mut encoder = JdwpEncoder::new(&codec);
    encoder.write_uint(0x0102030405060708, 3);
    encoder.write_uint(0xff, 0);
    encoder.write_bytes(&[0xaa, 0xbb]);
    encoder.write_uint(1, 8);
    assert_eq!(encoder.as_slice(), &[6, 7, 8, 0xaa, 0xbb, 0, 0, 0, 0, 0, 0, 0, 1]);
    assert_eq!(encoder.id_sizes().object_id_size(), 8);
}
