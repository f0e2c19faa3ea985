//! How the compound types are written and read: pairs, sequences, locations,
//! tagged object identifiers and tagged values.

use crate::codec::{
    DecodeFailure, DecodeJdwpDataError, JdwpDecodable, JdwpDecoder, JdwpEncodable, JdwpEncoder,
    Parsed,
};
use crate::constants::{Tag, TypeTag, UnknownTagError};
use crate::id_sizes::IdSizes;
use crate::ids::{
    ArrayId, ClassId, ClassLoaderId, ClassObjectId, Id, MethodId, ObjectId, StringId,
    TaggedObjectId, ThreadGroupId, ThreadId,
};
use crate::namespaces::Unknown;
use crate::primitives::parse_int;
use crate::values::{Location, Value};
use crate::wire::be_bytes;
use vstd::prelude::*;

verus! {

impl<A: JdwpDecodable, B: JdwpDecodable> JdwpDecodable for (A, B) {
    type Model = (A::Model, B::Model);

    open spec fn model(&self) -> (A::Model, B::Model) {
        (self.0.model(), self.1.model())
    }

    /// A pair is its first part and then its second.
    open spec fn parse(bytes: Seq<u8>, sizes: IdSizes) -> Parsed<(A::Model, B::Model)> {
        match A::parse(bytes, sizes) {
            Err(f) => Err(f),
            Ok((a, rest)) => match B::parse(rest, sizes) {
                Err(f) => Err(f),
                Ok((b, rest)) => Ok(((a, b), rest)),
            },
        }
    }

    fn decode(decoder: &mut JdwpDecoder) -> (r: Result<Self, DecodeJdwpDataError>) {
        let a = A::decode(decoder)?;
        let b = B::decode(decoder)?;
        Ok((a, b))
    }
}

impl<A: JdwpEncodable, B: JdwpEncodable> JdwpEncodable for (A, B) {
    open spec fn encoding(&self, sizes: IdSizes) -> Seq<u8> {
        self.0.encoding(sizes) + self.1.encoding(sizes)
    }

    fn encode(&self, encoder: &mut JdwpEncoder) {
        self.0.encode(encoder);
        self.1.encode(encoder);
        assert(encoder@ =~= old(encoder)@ + self.encoding(old(encoder).sizes()));
    }
}

/// Reading `n` values of one type, one behind the other.
pub open spec fn parse_items<T: JdwpDecodable>(bytes: Seq<u8>, sizes: IdSizes, n: nat) -> Parsed<
    Seq<T::Model>,
>
    decreases n,
{
    if n == 0 {
        Ok((Seq::empty(), bytes))
    } else {
        match T::parse(bytes, sizes) {
            Err(f) => Err(f),
            Ok((first, rest)) => match parse_items::<T>(rest, sizes, (n - 1) as nat) {
                Err(f) => Err(f),
                Ok((others, rest)) => Ok((seq![first] + others, rest)),
            },
        }
    }
}

/// Reading a sequence: a count of four bytes, which must not be negative,
/// then that many values.
pub open spec fn parse_vec<T: JdwpDecodable>(bytes: Seq<u8>, sizes: IdSizes) -> Parsed<
    Seq<T::Model>,
> {
    match parse_int(bytes) {
        Err(f) => Err(f),
        Ok((len, rest)) => if len < 0 {
            Err(DecodeFailure::UnexpectedNegativeInt(len))
        } else {
            parse_items::<T>(rest, sizes, len as nat)
        },
    }
}

/// What is still to be read, put behind what has been read.
pub open spec fn behind<M>(front: Seq<M>, back: Parsed<Seq<M>>) -> Parsed<Seq<M>> {
    match back {
        Ok((items, rest)) => Ok((front + items, rest)),
        Err(f) => Err(f),
    }
}

/// The models of the values of a sequence, in order.
pub open spec fn models<T: JdwpDecodable>(items: Seq<T>) -> Seq<T::Model> {
    Seq::new(items.len(), |i: int| items[i].model())
}

impl<T: JdwpDecodable> JdwpDecodable for Vec<T> {
    type Model = Seq<T::Model>;

    open spec fn model(&self) -> Seq<T::Model> {
        models(self@)
    }

    open spec fn parse(bytes: Seq<u8>, sizes: IdSizes) -> Parsed<Seq<T::Model>> {
        parse_vec::<T>(bytes, sizes)
    }

    /// The count only sizes the first allocation, and that by no more than
    /// the bytes at hand: a count that the bytes cannot bear ends in
    /// `NotEnoughBytes` when the bytes run out.
    fn decode(decoder: &mut JdwpDecoder) -> (r: Result<Self, DecodeJdwpDataError>) {
        let len = i32::decode(decoder)?;
        if len < 0 {
            return Err(DecodeJdwpDataError::UnexpectedNegativeInt(len));
        }
        let count = len as usize;
        let at_hand = decoder.remaining();
        let mut collect: Vec<T> = Vec::with_capacity(if count < at_hand { count } else { at_hand });
        let ghost start = decoder@;
        let ghost sizes = decoder.sizes();
        let mut i: usize = 0;
        assert(behind(models(collect@), parse_items::<T>(decoder@, sizes, count as nat))
            == parse_items::<T>(start, sizes, count as nat)) by {
            assert(models(collect@) =~= Seq::<T::Model>::empty());
            match parse_items::<T>(start, sizes, count as nat) {
                Ok((items, rest)) => {
                    assert(Seq::<T::Model>::empty() + items =~= items);
                },
                Err(f) => {},
            }
        }
        while i < count
            invariant
                i <= count,
                collect@.len() == i,
                decoder.sizes() == sizes,
                old(decoder).sizes() == sizes,
                sizes.valid(),
                parse_vec::<T>(old(decoder)@, sizes) == parse_items::<T>(
                    start,
                    sizes,
                    count as nat,
                ),
                behind(
                    models(collect@),
                    parse_items::<T>(decoder@, sizes, (count - i) as nat),
                ) == parse_items::<T>(start, sizes, count as nat),
            decreases count - i,
        {
            let ghost before = decoder@;
            let ghost front = models(collect@);
            let item = T::decode(decoder)?;
            collect.push(item);
            proof {
                let first = item.model();
                assert(models(collect@) =~= front.push(first));
                match parse_items::<T>(decoder@, sizes, (count - i - 1) as nat) {
                    Ok((others, rest)) => {
                        assert(front + (seq![first] + others) =~= front.push(first) + others);
                    },
                    Err(f) => {},
                }
            }
            i = i + 1;
        }
        proof {
            assert(models(collect@) + Seq::<T::Model>::empty() =~= models(collect@));
        }
        Ok(collect)
    }
}

/// The bytes of the values of a sequence, one behind the other.
pub open spec fn encode_items<T: JdwpEncodable>(items: Seq<T>, sizes: IdSizes) -> Seq<u8>
    decreases items.len(),
{
    if items.len() == 0 {
        Seq::empty()
    } else {
        items[0].encoding(sizes) + encode_items(items.skip(1), sizes)
    }
}

/// The bytes of a sequence that grew by one value grow by that value's bytes.
pub proof fn lemma_encode_items_push<T: JdwpEncodable>(items: Seq<T>, last: T, sizes: IdSizes)
    ensures
        encode_items(items.push(last), sizes) == encode_items(items, sizes) + last.encoding(sizes),
    decreases items.len(),
{
    let grown = items.push(last);
    if items.len() == 0 {
        assert(grown.skip(1) =~= Seq::<T>::empty());
        assert(encode_items(grown.skip(1), sizes) =~= Seq::<u8>::empty());
        assert(encode_items(grown, sizes) =~= last.encoding(sizes));
        assert(encode_items(items, sizes) + last.encoding(sizes) =~= last.encoding(sizes));
    } else {
        lemma_encode_items_push(items.skip(1), last, sizes);
        assert(grown.skip(1) =~= items.skip(1).push(last));
        assert(grown[0] == items[0]);
        assert(encode_items(grown, sizes) =~= encode_items(items, sizes) + last.encoding(sizes));
    }
}

impl<T: JdwpEncodable> JdwpEncodable for Vec<T> {
    /// A sequence is written as the number of its values, in four bytes, and
    /// then the values in order.
    open spec fn encoding(&self, sizes: IdSizes) -> Seq<u8> {
        be_bytes((self@.len() as u32) as nat, 4) + encode_items(self@, sizes)
    }

    fn encode(&self, encoder: &mut JdwpEncoder) {
        let ghost sizes = encoder.sizes();
        let count = self.len();
        let len = #[verifier::truncate] (count as u32);
        encoder.write_uint(len as u64, 4);
        let ghost head = encoder@;
        let mut i: usize = 0;
        assert(encoder@ =~= head + encode_items(self@.take(0), sizes));
        while i < count
            invariant
                i <= count,
                count == self@.len(),
                encoder.sizes() == sizes,
                sizes.valid(),
                encoder@ == head + encode_items(self@.take(i as int), sizes),
            decreases count - i,
        {
            self[i].encode(encoder);
            proof {
                lemma_encode_items_push(self@.take(i as int), self@[i as int], sizes);
                assert(self@.take(i as int).push(self@[i as int]) =~= self@.take(i + 1));
                assert(encoder@ =~= head + encode_items(self@.take(i + 1), sizes));
            }
            i = i + 1;
        }
        assert(self@.take(count as int) =~= self@);
        assert(encoder@ =~= old(encoder)@ + self.encoding(sizes));
    }
}

impl JdwpDecodable for Location {
    type Model = Location;

    open spec fn model(&self) -> Location {
        *self
    }

    /// A location is its type tag, its class, its method and its offset of
    /// eight bytes, in this order.
    open spec fn parse(bytes: Seq<u8>, sizes: IdSizes) -> Parsed<Location> {
        match <(TypeTag, (ClassId, (MethodId, u64)))>::parse(bytes, sizes) {
            Err(f) => Err(f),
            Ok(((tag, (class, (method, offset))), rest)) => Ok(
                (Location { tag, class, method, offset }, rest),
            ),
        }
    }

    fn decode(decoder: &mut JdwpDecoder) -> (r: Result<Self, DecodeJdwpDataError>) {
        let tag = TypeTag::decode(decoder)?;
        let class = ClassId::decode(decoder)?;
        let method = MethodId::decode(decoder)?;
        let offset = u64::decode(decoder)?;
        Ok(Location { tag, class, method, offset })
    }
}

impl JdwpEncodable for Location {
    open spec fn encoding(&self, sizes: IdSizes) -> Seq<u8> {
        (self.tag, (self.class, (self.method, self.offset))).encoding(sizes)
    }

    fn encode(&self, encoder: &mut JdwpEncoder) {
        (self.tag, (self.class, (self.method, self.offset))).encode(encoder);
    }
}

impl JdwpDecodable for TaggedObjectId {
    type Model = TaggedObjectId;

    open spec fn model(&self) -> TaggedObjectId {
        *self
    }

    /// A tagged object is a tag byte, which must be one of the seven that
    /// mark an object, and an object identifier.
    open spec fn parse(bytes: Seq<u8>, sizes: IdSizes) -> Parsed<TaggedObjectId> {
        match Tag::parse(bytes, sizes) {
            Err(f) => Err(f),
            Ok((tag, rest)) => if TaggedObjectId::is_object_tag(tag) {
                match Id::<Unknown>::parse(rest, sizes) {
                    Err(f) => Err(f),
                    Ok((id, rest)) => Ok((TaggedObjectId::of(tag, id.value()), rest)),
                }
            } else {
                Err(DecodeFailure::IllegalByteTag(tag.spec_code()))
            },
        }
    }

    fn decode(decoder: &mut JdwpDecoder) -> (r: Result<Self, DecodeJdwpDataError>) {
        let tag = Tag::decode(decoder)?;
        match tag {
            Tag::Object | Tag::Array | Tag::String | Tag::Thread | Tag::ThreadGroup
            | Tag::ClassLoader | Tag::ClassObject => {
                let id = Id::<Unknown>::decode(decoder)?;
                Ok(TaggedObjectId::new(tag, id))
            },
            _ => Err(DecodeJdwpDataError::IllegalByteTag(UnknownTagError(tag.code()))),
        }
    }
}

impl JdwpEncodable for TaggedObjectId {
    open spec fn encoding(&self, sizes: IdSizes) -> Seq<u8> {
        be_bytes(self.spec_tag().spec_code() as nat, 1) + be_bytes(
            self.value() as nat,
            sizes.object_width(),
        )
    }

    fn encode(&self, encoder: &mut JdwpEncoder) {
        self.tag().encode(encoder);
        self.id().encode(encoder);
        assert(encoder@ =~= old(encoder)@ + self.encoding(old(encoder).sizes()));
    }
}

/// Puts the value that `wrap` makes around what was read.
pub open spec fn wrapped<M>(parsed: Parsed<M>, wrap: spec_fn(M) -> Value) -> Parsed<Value> {
    match parsed {
        Ok((m, rest)) => Ok((wrap(m), rest)),
        Err(f) => Err(f),
    }
}

/// Reading the payload that belongs to `tag`.
pub open spec fn parse_payload(tag: Tag, bytes: Seq<u8>, sizes: IdSizes) -> Parsed<Value> {
    match tag {
        Tag::Array => wrapped(ArrayId::parse(bytes, sizes), |id: ArrayId| Value::Array(id)),
        Tag::Byte => wrapped(u8::parse(bytes, sizes), |b: u8| Value::Byte(b)),
        Tag::Char => wrapped(u16::parse(bytes, sizes), |c: u16| Value::Char(c)),
        Tag::Object => wrapped(ObjectId::parse(bytes, sizes), |id: ObjectId| Value::Object(id)),
        Tag::Float => wrapped(u32::parse(bytes, sizes), |bits: u32| Value::Float(bits)),
        Tag::Double => wrapped(u64::parse(bytes, sizes), |bits: u64| Value::Double(bits)),
        Tag::Int => wrapped(i32::parse(bytes, sizes), |i: i32| Value::Int(i)),
        Tag::Long => wrapped(i64::parse(bytes, sizes), |l: i64| Value::Long(l)),
        Tag::Short => wrapped(i16::parse(bytes, sizes), |s: i16| Value::Short(s)),
        Tag::Void => Ok((Value::Void, bytes)),
        Tag::Boolean => wrapped(u8::parse(bytes, sizes), |b: u8| Value::Boolean(b != 0)),
        Tag::String => wrapped(StringId::parse(bytes, sizes), |id: StringId| Value::String(id)),
        Tag::Thread => wrapped(ThreadId::parse(bytes, sizes), |id: ThreadId| Value::Thread(id)),
        Tag::ThreadGroup => wrapped(
            ThreadGroupId::parse(bytes, sizes),
            |id: ThreadGroupId| Value::ThreadGroup(id),
        ),
        Tag::ClassLoader => wrapped(
            ClassLoaderId::parse(bytes, sizes),
            |id: ClassLoaderId| Value::ClassLoader(id),
        ),
        Tag::ClassObject => wrapped(
            ClassObjectId::parse(bytes, sizes),
            |id: ClassObjectId| Value::ClassObject(id),
        ),
    }
}

impl Value {
    /// The tag that says of what type this value is.
    pub open spec fn spec_tag(&self) -> Tag {
        match self {
            Value::Array(_) => Tag::Array,
            Value::Byte(_) => Tag::Byte,
            Value::Boolean(_) => Tag::Boolean,
            Value::Char(_) => Tag::Char,
            Value::Object(_) => Tag::Object,
            Value::Float(_) => Tag::Float,
            Value::Double(_) => Tag::Double,
            Value::Int(_) => Tag::Int,
            Value::Long(_) => Tag::Long,
            Value::Short(_) => Tag::Short,
            Value::Void => Tag::Void,
            Value::String(_) => Tag::String,
            Value::Thread(_) => Tag::Thread,
            Value::ThreadGroup(_) => Tag::ThreadGroup,
            Value::ClassLoader(_) => Tag::ClassLoader,
            Value::ClassObject(_) => Tag::ClassObject,
        }
    }

    /// The bytes that stand for what the value holds, without its tag.
    pub open spec fn payload(&self, sizes: IdSizes) -> Seq<u8> {
        match self {
            Value::Array(id) => id.encoding(sizes),
            Value::Byte(b) => b.encoding(sizes),
            Value::Boolean(b) => be_bytes(if *b { 1 } else { 0 }, 1),
            Value::Char(c) => c.encoding(sizes),
            Value::Object(id) => id.encoding(sizes),
            Value::Float(bits) => bits.encoding(sizes),
            Value::Double(bits) => bits.encoding(sizes),
            Value::Int(i) => i.encoding(sizes),
            Value::Long(l) => l.encoding(sizes),
            Value::Short(s) => s.encoding(sizes),
            Value::Void => Seq::empty(),
            Value::String(id) => id.encoding(sizes),
            Value::Thread(id) => id.encoding(sizes),
            Value::ThreadGroup(id) => id.encoding(sizes),
            Value::ClassLoader(id) => id.encoding(sizes),
            Value::ClassObject(id) => id.encoding(sizes),
        }
    }

    /// The tag that says of what type this value is.
    #[verifier::when_used_as_spec(spec_tag)]
    pub fn tag(&self) -> (tag: Tag)
        ensures
            tag == self.spec_tag(),
    {
        match self {
            Value::Array(_) => Tag::Array,
            Value::Byte(_) => Tag::Byte,
            Value::Boolean(_) => Tag::Boolean,
            Value::Char(_) => Tag::Char,
            Value::Object(_) => Tag::Object,
            Value::Float(_) => Tag::Float,
            Value::Double(_) => Tag::Double,
            Value::Int(_) => Tag::Int,
            Value::Long(_) => Tag::Long,
            Value::Short(_) => Tag::Short,
            Value::Void => Tag::Void,
            Value::String(_) => Tag::String,
            Value::Thread(_) => Tag::Thread,
            Value::ThreadGroup(_) => Tag::ThreadGroup,
            Value::ClassLoader(_) => Tag::ClassLoader,
            Value::ClassObject(_) => Tag::ClassObject,
        }
    }
}

impl JdwpDecodable for Value {
    type Model = Value;

    open spec fn model(&self) -> Value {
        *self
    }

    /// A value is a tag byte and then the payload that belongs to the tag.
    open spec fn parse(bytes: Seq<u8>, sizes: IdSizes) -> Parsed<Value> {
        match Tag::parse(bytes, sizes) {
            Err(f) => Err(f),
            Ok((tag, rest)) => parse_payload(tag, rest, sizes),
        }
    }

    fn decode(decoder: &mut JdwpDecoder) -> (r: Result<Self, DecodeJdwpDataError>) {
        let tag = Tag::decode(decoder)?;
        let value = match tag {
            Tag::Array => Value::Array(decoder.get()?),
            Tag::Byte => Value::Byte(decoder.get()?),
            Tag::Char => Value::Char(decoder.get()?),
            Tag::Object => Value::Object(decoder.get()?),
            Tag::Float => Value::Float(decoder.get()?),
            Tag::Double => Value::Double(decoder.get()?),
            Tag::Int => Value::Int(decoder.get()?),
            Tag::Long => Value::Long(decoder.get()?),
            Tag::Short => Value::Short(decoder.get()?),
            Tag::Void => Value::Void,
            Tag::Boolean => Value::Boolean(decoder.get::<u8>()? != 0),
            Tag::String => Value::String(decoder.get()?),
            Tag::Thread => Value::Thread(decoder.get()?),
            Tag::ThreadGroup => Value::ThreadGroup(decoder.get()?),
            Tag::ClassLoader => Value::ClassLoader(decoder.get()?),
            Tag::ClassObject => Value::ClassObject(decoder.get()?),
        };
        Ok(value)
    }
}

impl JdwpEncodable for Value {
    open spec fn encoding(&self, sizes: IdSizes) -> Seq<u8> {
        self.spec_tag().encoding(sizes) + self.payload(sizes)
    }

    fn encode(&self, encoder: &mut JdwpEncoder) {
        self.tag().encode(encoder);
        let ghost tagged = encoder@;
        match self {
            Value::Array(id) => id.encode(encoder),
            Value::Byte(b) => b.encode(encoder),
            Value::Boolean(b) => encoder.write_uint(if *b { 1 } else { 0 }, 1),
            Value::Char(c) => c.encode(encoder),
            Value::Object(id) => id.encode(encoder),
            Value::Float(bits) => bits.encode(encoder),
            Value::Double(bits) => bits.encode(encoder),
            Value::Int(i) => i.encode(encoder),
            Value::Long(l) => l.encode(encoder),
            Value::Short(s) => s.encode(encoder),
            Value::Void => {},
            Value::String(id) => id.encode(encoder),
            Value::Thread(id) => id.encode(encoder),
            Value::ThreadGroup(id) => id.encode(encoder),
            Value::ClassLoader(id) => id.encode(encoder),
            Value::ClassObject(id) => id.encode(encoder),
        }
        assert(encoder@ =~= tagged + self.payload(old(encoder).sizes()));
        assert(encoder@ =~= old(encoder)@ + self.encoding(old(encoder).sizes()));
    }
}

} // verus!
