//! What holds of the value codec: a value that was written is read back,
//! under every valid table of identifier widths; an identifier loses the bits
//! above its width and nothing else; a negative count is refused; and the
//! widths in force decide how many bytes an identifier takes.

use crate::codec::{parse_uint, DecodeFailure, JdwpDecodable, JdwpEncodable};
use crate::compound::{encode_items, models, parse_items, parse_vec};
use crate::constants::{ClassStatus, EventKind, SuspendPolicy, Tag, TypeTag};
use crate::id_sizes::IdSizes;
use crate::ids::{Id, TaggedObjectId};
use crate::namespaces::{Identifiable, Unknown};
use crate::primitives::parse_string;
use crate::values::{Location, Value};
use crate::wire::{
    be_bytes, lemma_be_bytes_len, lemma_be_round_trip, lemma_be_value_of_bytes,
    lemma_radix_positive, lemma_radix_values, radix,
};
use vstd::prelude::*;
use vstd::utf8::{encode_utf8, encode_utf8_decode_utf8, encode_utf8_valid_utf8};

verus! {

/// A value round-trips under `sizes`: whatever bytes stand behind its
/// encoding, reading gives the value back and leaves those bytes.
pub open spec fn round_trips<T: JdwpEncodable + JdwpDecodable>(v: T, sizes: IdSizes) -> bool {
    forall|rest: Seq<u8>| #[trigger]
        T::parse(v.encoding(sizes) + rest, sizes) == Ok::<(T::Model, Seq<u8>), DecodeFailure>(
            (v.model(), rest),
        )
}

/// What round-tripping says of one run of bytes behind the encoding.
pub proof fn lemma_round_trip_at<T: JdwpEncodable + JdwpDecodable>(
    v: T,
    sizes: IdSizes,
    rest: Seq<u8>,
)
    requires
        round_trips(v, sizes),
    ensures
        T::parse(v.encoding(sizes) + rest, sizes) == Ok::<(T::Model, Seq<u8>), DecodeFailure>(
            (v.model(), rest),
        ),
{
}

/// Reading `n` bytes that were written for `v` gives `v` without the bits
/// above the width, and leaves what stands behind them.
pub proof fn lemma_uint_round_trip(v: nat, n: nat, rest: Seq<u8>)
    ensures
        parse_uint(be_bytes(v, n) + rest, n) == Ok::<(nat, Seq<u8>), DecodeFailure>(
            (v % radix(n), rest),
        ),
        v < radix(n) ==> parse_uint(be_bytes(v, n) + rest, n) == Ok::<
            (nat, Seq<u8>),
            DecodeFailure,
        >((v, rest)),
{
    let bytes = be_bytes(v, n) + rest;
    lemma_be_bytes_len(v, n);
    lemma_be_value_of_bytes(v, n);
    lemma_radix_positive(n);
    assert(bytes.take(n as int) =~= be_bytes(v, n));
    assert(bytes.skip(n as int) =~= rest);
    if v < radix(n) {
        lemma_be_round_trip(v, n);
    }
}

/// Bytes round-trip.
pub proof fn lemma_byte_round_trip(v: u8, sizes: IdSizes)
    ensures
        round_trips(v, sizes),
{
    lemma_radix_values();
    assert forall|rest: Seq<u8>| #[trigger]
        u8::parse(v.encoding(sizes) + rest, sizes) == Ok::<(u8, Seq<u8>), DecodeFailure>(
            (v, rest),
        ) by {
        lemma_uint_round_trip(v as nat, 1, rest);
    }
}

/// Unsigned integers of two bytes, which characters are, round-trip.
pub proof fn lemma_char_round_trip(v: u16, sizes: IdSizes)
    ensures
        round_trips(v, sizes),
{
    lemma_radix_values();
    assert forall|rest: Seq<u8>| #[trigger]
        u16::parse(v.encoding(sizes) + rest, sizes) == Ok::<(u16, Seq<u8>), DecodeFailure>(
            (v, rest),
        ) by {
        lemma_uint_round_trip(v as nat, 2, rest);
    }
}

/// Shorts round-trip.
pub proof fn lemma_short_round_trip(v: i16, sizes: IdSizes)
    ensures
        round_trips(v, sizes),
{
    lemma_radix_values();
    assert((v as u16) as i16 == v) by (bit_vector);
    assert forall|rest: Seq<u8>| #[trigger]
        i16::parse(v.encoding(sizes) + rest, sizes) == Ok::<(i16, Seq<u8>), DecodeFailure>(
            (v, rest),
        ) by {
        lemma_uint_round_trip((v as u16) as nat, 2, rest);
    }
}

/// Unsigned integers of four bytes, which hold the bits of a float,
/// round-trip.
pub proof fn lemma_float_bits_round_trip(v: u32, sizes: IdSizes)
    ensures
        round_trips(v, sizes),
{
    lemma_radix_values();
    assert forall|rest: Seq<u8>| #[trigger]
        u32::parse(v.encoding(sizes) + rest, sizes) == Ok::<(u32, Seq<u8>), DecodeFailure>(
            (v, rest),
        ) by {
        lemma_uint_round_trip(v as nat, 4, rest);
    }
}

/// Ints round-trip.
pub proof fn lemma_int_round_trip(v: i32, sizes: IdSizes)
    ensures
        round_trips(v, sizes),
{
    lemma_radix_values();
    assert((v as u32) as i32 == v) by (bit_vector);
    assert forall|rest: Seq<u8>| #[trigger]
        i32::parse(v.encoding(sizes) + rest, sizes) == Ok::<(i32, Seq<u8>), DecodeFailure>(
            (v, rest),
        ) by {
        lemma_uint_round_trip((v as u32) as nat, 4, rest);
    }
}

/// Unsigned integers of eight bytes, which hold the bits of a double and the
/// offset of a location, round-trip.
pub proof fn lemma_double_bits_round_trip(v: u64, sizes: IdSizes)
    ensures
        round_trips(v, sizes),
{
    lemma_radix_values();
    assert forall|rest: Seq<u8>| #[trigger]
        u64::parse(v.encoding(sizes) + rest, sizes) == Ok::<(u64, Seq<u8>), DecodeFailure>(
            (v, rest),
        ) by {
        lemma_uint_round_trip(v as nat, 8, rest);
    }
}

/// Longs round-trip.
pub proof fn lemma_long_round_trip(v: i64, sizes: IdSizes)
    ensures
        round_trips(v, sizes),
{
    lemma_radix_values();
    assert((v as u64) as i64 == v) by (bit_vector);
    assert forall|rest: Seq<u8>| #[trigger]
        i64::parse(v.encoding(sizes) + rest, sizes) == Ok::<(i64, Seq<u8>), DecodeFailure>(
            (v, rest),
        ) by {
        lemma_uint_round_trip((v as u64) as nat, 8, rest);
    }
}

/// Whether the number of an identifier has no bit above the width of its
/// family.
pub open spec fn fits<T: Identifiable>(id: Id<T>, sizes: IdSizes) -> bool {
    id.value() < radix(T::width(sizes))
}

/// The width of an identifier's encoding is the width that the table gives
/// its family: the table in force decides how many bytes are written.
pub proof fn lemma_id_encoding_len<T: Identifiable>(id: Id<T>, sizes: IdSizes)
    ensures
        id.encoding(sizes).len() == T::width(sizes),
{
    lemma_be_bytes_len(id.value() as nat, T::width(sizes));
}

/// Id-size table activation: under a table, an identifier of each family is
/// written in as many bytes as the table gives the family, so that after
/// the target VM has reported widths of four bytes every identifier takes
/// four.
pub proof fn lemma_widths_in_force(
    object: Id<crate::namespaces::Object>,
    method: Id<crate::namespaces::Method>,
    field: Id<crate::namespaces::Field>,
    frame: Id<crate::namespaces::Frame>,
    sizes: IdSizes,
)
    ensures
        object.encoding(sizes).len() == sizes.object_width(),
        method.encoding(sizes).len() == sizes.method_width(),
        field.encoding(sizes).len() == sizes.field_width(),
        frame.encoding(sizes).len() == sizes.frame_width(),
{
    lemma_id_encoding_len(object, sizes);
    lemma_id_encoding_len(method, sizes);
    lemma_id_encoding_len(field, sizes);
    lemma_id_encoding_len(frame, sizes);
}

/// An identifier that is written and read back keeps the bits within the
/// width of its family and loses those above: its number comes back modulo
/// 256 to the power of the width.
pub proof fn lemma_id_truncation<T: Identifiable>(id: Id<T>, sizes: IdSizes, rest: Seq<u8>)
    ensures
        Id::<T>::parse(id.encoding(sizes) + rest, sizes) == Ok::<(Id<T>, Seq<u8>), DecodeFailure>(
            (Id::<T>::of((id.value() as nat % radix(T::width(sizes))) as u64), rest),
        ),
{
    lemma_uint_round_trip(id.value() as nat, T::width(sizes), rest);
}

/// An identifier whose number fits the width of its family round-trips.
pub proof fn lemma_id_round_trip<T: Identifiable>(id: Id<T>, sizes: IdSizes)
    requires
        fits(id, sizes),
    ensures
        round_trips(id, sizes),
{
    id.lemma_value_of();
    assert forall|rest: Seq<u8>| #[trigger]
        Id::<T>::parse(id.encoding(sizes) + rest, sizes) == Ok::<(Id<T>, Seq<u8>), DecodeFailure>(
            (id, rest),
        ) by {
        lemma_uint_round_trip(id.value() as nat, T::width(sizes), rest);
    }
}

/// A string of no more than 2^31 - 1 bytes of UTF-8 round-trips.
pub proof fn lemma_string_round_trip(s: String, sizes: IdSizes)
    requires
        encode_utf8(s@).len() <= i32::MAX,
    ensures
        round_trips(s, sizes),
{
    let text = encode_utf8(s@);
    let len = text.len();
    lemma_radix_values();
    encode_utf8_valid_utf8(s@);
    encode_utf8_decode_utf8(s@);
    assert((len as u32) as i32 == len as i32 && (len as u32) as nat == len) by {
        assert(len <= 0x7fff_ffff);
    }
    assert forall|rest: Seq<u8>| #[trigger]
        String::parse(s.encoding(sizes) + rest, sizes) == Ok::<(Seq<char>, Seq<u8>), DecodeFailure>(
            (s@, rest),
        ) by {
        let bytes = s.encoding(sizes) + rest;
        assert(bytes =~= be_bytes(len, 4) + (text + rest));
        lemma_uint_round_trip(len, 4, text + rest);
        assert((text + rest).take(len as int) =~= text);
        assert((text + rest).skip(len as int) =~= rest);
    }
}

/// The class status word round-trips, every bit of it.
pub proof fn lemma_class_status_round_trip(v: ClassStatus, sizes: IdSizes)
    ensures
        round_trips(v, sizes),
{
    lemma_radix_values();
    assert forall|rest: Seq<u8>| #[trigger]
        ClassStatus::parse(v.encoding(sizes) + rest, sizes) == Ok::<
            (ClassStatus, Seq<u8>),
            DecodeFailure,
        >((v, rest)) by {
        lemma_uint_round_trip(v.0 as nat, 4, rest);
    }
}

/// Type tags round-trip.
pub proof fn lemma_type_tag_round_trip(v: TypeTag, sizes: IdSizes)
    ensures
        round_trips(v, sizes),
{
    lemma_radix_values();
    v.lemma_code_round_trip();
    assert forall|rest: Seq<u8>| #[trigger]
        TypeTag::parse(v.encoding(sizes) + rest, sizes) == Ok::<(TypeTag, Seq<u8>), DecodeFailure>(
            (v, rest),
        ) by {
        lemma_uint_round_trip(v.spec_code() as nat, 1, rest);
    }
}

/// Tags round-trip.
pub proof fn lemma_tag_round_trip(v: Tag, sizes: IdSizes)
    ensures
        round_trips(v, sizes),
{
    lemma_radix_values();
    v.lemma_code_round_trip();
    assert forall|rest: Seq<u8>| #[trigger]
        Tag::parse(v.encoding(sizes) + rest, sizes) == Ok::<(Tag, Seq<u8>), DecodeFailure>(
            (v, rest),
        ) by {
        lemma_uint_round_trip(v.spec_code() as nat, 1, rest);
    }
}

/// Suspend policies round-trip.
pub proof fn lemma_suspend_policy_round_trip(v: SuspendPolicy, sizes: IdSizes)
    ensures
        round_trips(v, sizes),
{
    lemma_radix_values();
    v.lemma_code_round_trip();
    assert forall|rest: Seq<u8>| #[trigger]
        SuspendPolicy::parse(v.encoding(sizes) + rest, sizes) == Ok::<
            (SuspendPolicy, Seq<u8>),
            DecodeFailure,
        >((v, rest)) by {
        lemma_uint_round_trip(v.spec_code() as nat, 1, rest);
    }
}

/// Event kinds round-trip.
pub proof fn lemma_event_kind_round_trip(v: EventKind, sizes: IdSizes)
    ensures
        round_trips(v, sizes),
{
    lemma_radix_values();
    v.lemma_code_round_trip();
    assert forall|rest: Seq<u8>| #[trigger]
        EventKind::parse(v.encoding(sizes) + rest, sizes) == Ok::<
            (EventKind, Seq<u8>),
            DecodeFailure,
        >((v, rest)) by {
        lemma_uint_round_trip(v.spec_code() as nat, 1, rest);
    }
}

/// A pair round-trips where both of its parts do.
pub proof fn lemma_pair_round_trip<
    A: JdwpEncodable + JdwpDecodable,
    B: JdwpEncodable + JdwpDecodable,
>(a: A, b: B, sizes: IdSizes)
    requires
        round_trips(a, sizes),
        round_trips(b, sizes),
    ensures
        round_trips((a, b), sizes),
{
    assert forall|rest: Seq<u8>| #[trigger]
        <(A, B)>::parse((a, b).encoding(sizes) + rest, sizes) == Ok::<
            ((A::Model, B::Model), Seq<u8>),
            DecodeFailure,
        >(((a, b).model(), rest)) by {
        let behind = b.encoding(sizes) + rest;
        assert((a, b).encoding(sizes) + rest =~= a.encoding(sizes) + behind);
        lemma_round_trip_at(a, sizes, behind);
        lemma_round_trip_at(b, sizes, rest);
    }
}

/// A location whose two identifiers fit their widths round-trips.
pub proof fn lemma_location_round_trip(v: Location, sizes: IdSizes)
    requires
        fits(v.class, sizes),
        fits(v.method, sizes),
    ensures
        round_trips(v, sizes),
{
    lemma_type_tag_round_trip(v.tag, sizes);
    lemma_id_round_trip(v.class, sizes);
    lemma_id_round_trip(v.method, sizes);
    lemma_double_bits_round_trip(v.offset, sizes);
    lemma_pair_round_trip(v.method, v.offset, sizes);
    lemma_pair_round_trip(v.class, (v.method, v.offset), sizes);
    lemma_pair_round_trip(v.tag, (v.class, (v.method, v.offset)), sizes);
    let fields = (v.tag, (v.class, (v.method, v.offset)));
    assert forall|rest: Seq<u8>| #[trigger]
        Location::parse(v.encoding(sizes) + rest, sizes) == Ok::<
            (Location, Seq<u8>),
            DecodeFailure,
        >((v, rest)) by {
        lemma_round_trip_at(fields, sizes, rest);
    }
}

/// A tagged object with one of the seven object tags, whose number fits the
/// width of object identifiers, round-trips.
pub proof fn lemma_tagged_object_round_trip(v: TaggedObjectId, sizes: IdSizes)
    requires
        TaggedObjectId::is_object_tag(v.spec_tag()),
        v.value() < radix(sizes.object_width()),
    ensures
        round_trips(v, sizes),
{
    let tag = v.spec_tag();
    let id = Id::<Unknown>::of(v.value());
    Id::<Unknown>::lemma_of_value(v.value());
    v.lemma_parts_of();
    lemma_tag_round_trip(tag, sizes);
    lemma_id_round_trip(id, sizes);
    assert forall|rest: Seq<u8>| #[trigger]
        TaggedObjectId::parse(v.encoding(sizes) + rest, sizes) == Ok::<
            (TaggedObjectId, Seq<u8>),
            DecodeFailure,
        >((v, rest)) by {
        let behind = id.encoding(sizes) + rest;
        assert(v.encoding(sizes) + rest =~= tag.encoding(sizes) + behind);
        lemma_round_trip_at(tag, sizes, behind);
        lemma_round_trip_at(id, sizes, rest);
    }
}

/// Whether the identifier that a value holds, if it holds one, fits the
/// width of object identifiers.
pub open spec fn value_fits(v: Value, sizes: IdSizes) -> bool {
    match v {
        Value::Array(id) => fits(id, sizes),
        Value::Object(id) => fits(id, sizes),
        Value::String(id) => fits(id, sizes),
        Value::Thread(id) => fits(id, sizes),
        Value::ThreadGroup(id) => fits(id, sizes),
        Value::ClassLoader(id) => fits(id, sizes),
        Value::ClassObject(id) => fits(id, sizes),
        _ => true,
    }
}

/// A tagged value round-trips, provided that the identifier that it holds,
/// if it holds one, fits its width.
pub proof fn lemma_value_round_trip(v: Value, sizes: IdSizes)
    requires
        value_fits(v, sizes),
    ensures
        round_trips(v, sizes),
{
    let tag = v.spec_tag();
    lemma_tag_round_trip(tag, sizes);
    lemma_radix_values();
    match v {
        Value::Array(id) => lemma_id_round_trip(id, sizes),
        Value::Byte(b) => lemma_byte_round_trip(b, sizes),
        Value::Boolean(b) => lemma_byte_round_trip(if b { 1u8 } else { 0u8 }, sizes),
        Value::Char(c) => lemma_char_round_trip(c, sizes),
        Value::Object(id) => lemma_id_round_trip(id, sizes),
        Value::Float(bits) => lemma_float_bits_round_trip(bits, sizes),
        Value::Double(bits) => lemma_double_bits_round_trip(bits, sizes),
        Value::Int(i) => lemma_int_round_trip(i, sizes),
        Value::Long(l) => lemma_long_round_trip(l, sizes),
        Value::Short(s) => lemma_short_round_trip(s, sizes),
        Value::Void => {},
        Value::String(id) => lemma_id_round_trip(id, sizes),
        Value::Thread(id) => lemma_id_round_trip(id, sizes),
        Value::ThreadGroup(id) => lemma_id_round_trip(id, sizes),
        Value::ClassLoader(id) => lemma_id_round_trip(id, sizes),
        Value::ClassObject(id) => lemma_id_round_trip(id, sizes),
    }
    assert forall|rest: Seq<u8>| #[trigger]
        Value::parse(v.encoding(sizes) + rest, sizes) == Ok::<(Value, Seq<u8>), DecodeFailure>(
            (v, rest),
        ) by {
        let behind = v.payload(sizes) + rest;
        assert(v.encoding(sizes) + rest =~= tag.encoding(sizes) + behind);
        lemma_round_trip_at(tag, sizes, behind);
        match v {
            Value::Array(id) => {
                lemma_round_trip_at(id, sizes, rest);
            },
            Value::Byte(b) => {
                lemma_round_trip_at(b, sizes, rest);
            },
            Value::Boolean(b) => {
                let byte = if b { 1u8 } else { 0u8 };
                lemma_round_trip_at(byte, sizes, rest);
            },
            Value::Char(c) => {
                lemma_round_trip_at(c, sizes, rest);
            },
            Value::Object(id) => {
                lemma_round_trip_at(id, sizes, rest);
            },
            Value::Float(bits) => {
                lemma_round_trip_at(bits, sizes, rest);
            },
            Value::Double(bits) => {
                lemma_round_trip_at(bits, sizes, rest);
            },
            Value::Int(i) => {
                lemma_round_trip_at(i, sizes, rest);
            },
            Value::Long(l) => {
                lemma_round_trip_at(l, sizes, rest);
            },
            Value::Short(s) => {
                lemma_round_trip_at(s, sizes, rest);
            },
            Value::Void => {
                assert(behind =~= rest);
            },
            Value::String(id) => {
                lemma_round_trip_at(id, sizes, rest);
            },
            Value::Thread(id) => {
                lemma_round_trip_at(id, sizes, rest);
            },
            Value::ThreadGroup(id) => {
                lemma_round_trip_at(id, sizes, rest);
            },
            Value::ClassLoader(id) => {
                lemma_round_trip_at(id, sizes, rest);
            },
            Value::ClassObject(id) => {
                lemma_round_trip_at(id, sizes, rest);
            },
        }
    }
}

/// The values of a sequence, written one behind the other, are read back in
/// their order where each of them round-trips.
pub proof fn lemma_items_round_trip<T: JdwpEncodable + JdwpDecodable>(
    items: Seq<T>,
    sizes: IdSizes,
    rest: Seq<u8>,
)
    requires
        forall|i: int| 0 <= i < items.len() ==> round_trips(#[trigger] items[i], sizes),
    ensures
        parse_items::<T>(encode_items(items, sizes) + rest, sizes, items.len()) == Ok::<
            (Seq<T::Model>, Seq<u8>),
            DecodeFailure,
        >((models(items), rest)),
    decreases items.len(),
{
    if items.len() == 0 {
        assert(encode_items(items, sizes) + rest =~= rest);
        assert(models(items) =~= Seq::<T::Model>::empty());
    } else {
        let first = items[0];
        let others = items.skip(1);
        let behind = encode_items(others, sizes) + rest;
        assert(round_trips(first, sizes));
        assert(encode_items(items, sizes) + rest =~= first.encoding(sizes) + behind);
        lemma_round_trip_at(first, sizes, behind);
        assert forall|i: int| 0 <= i < others.len() implies round_trips(
            #[trigger] others[i],
            sizes,
        ) by {
            assert(others[i] == items[i + 1]);
        }
        lemma_items_round_trip(others, sizes, rest);
        assert(seq![first.model()] + models(others) =~= models(items));
    }
}

/// A sequence of no more than 2^31 - 1 values round-trips where each of its
/// values does.
pub proof fn lemma_vec_round_trip<T: JdwpEncodable + JdwpDecodable>(v: Vec<T>, sizes: IdSizes)
    requires
        v@.len() <= i32::MAX,
        forall|i: int| 0 <= i < v@.len() ==> round_trips(#[trigger] v@[i], sizes),
    ensures
        round_trips(v, sizes),
{
    let len = v@.len();
    lemma_radix_values();
    assert((len as u32) as i32 == len as i32 && (len as u32) as nat == len) by {
        assert(len <= 0x7fff_ffff);
    }
    assert forall|rest: Seq<u8>| #[trigger]
        Vec::<T>::parse(v.encoding(sizes) + rest, sizes) == Ok::<
            (Seq<T::Model>, Seq<u8>),
            DecodeFailure,
        >((v.model(), rest)) by {
        let behind = encode_items(v@, sizes) + rest;
        assert(v.encoding(sizes) + rest =~= be_bytes(len, 4) + behind);
        lemma_uint_round_trip(len, 4, behind);
        lemma_items_round_trip(v@, sizes, rest);
    }
}

/// A negative count in front of a sequence is refused, with the count in the
/// error, whatever the type of the values and whatever stands behind.
pub proof fn lemma_negative_length_rejected<T: JdwpDecodable>(
    len: i32,
    rest: Seq<u8>,
    sizes: IdSizes,
)
    requires
        len < 0,
    ensures
        parse_vec::<T>(len.encoding(sizes) + rest, sizes) == Err::<
            (Seq<T::Model>, Seq<u8>),
            DecodeFailure,
        >(DecodeFailure::UnexpectedNegativeInt(len)),
        parse_string(len.encoding(sizes) + rest) == Err::<(Seq<char>, Seq<u8>), DecodeFailure>(
            DecodeFailure::UnexpectedNegativeInt(len),
        ),
{
    lemma_int_round_trip(len, sizes);
    lemma_round_trip_at(len, sizes, rest);
}

/// A sequence whose bytes end before the values that its count announces is
/// refused for want of bytes, if reading a value from no bytes is.
pub proof fn lemma_short_items_rejected<T: JdwpDecodable>(n: nat, sizes: IdSizes)
    requires
        n > 0,
        T::parse(Seq::<u8>::empty(), sizes) == Err::<(T::Model, Seq<u8>), DecodeFailure>(
            DecodeFailure::NotEnoughBytes,
        ),
    ensures
        parse_items::<T>(Seq::<u8>::empty(), sizes, n) == Err::<
            (Seq<T::Model>, Seq<u8>),
            DecodeFailure,
        >(DecodeFailure::NotEnoughBytes),
{
}

} // verus!
