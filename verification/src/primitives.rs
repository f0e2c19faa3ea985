//! How the simple types are written and read: the integers, strings,
//! identifiers, the one-byte enumerations and the class status word.

use crate::codec::{
    parse_bytes, parse_uint, DecodeFailure, DecodeJdwpDataError, JdwpDecodable, JdwpDecoder,
    JdwpEncodable, JdwpEncoder, Parsed,
};
use crate::constants::{ClassStatus, EventKind, SuspendPolicy, Tag, TypeTag};
use crate::id_sizes::IdSizes;
use crate::ids::Id;
use crate::namespaces::Identifiable;
use crate::wire::{be_bytes, lemma_be_value_bound, lemma_radix_values};
use vstd::prelude::*;
use vstd::utf8::{decode_utf8, encode_utf8, valid_utf8};

verus! {

/// Reading one byte.
pub open spec fn parse_byte(bytes: Seq<u8>) -> Parsed<u8> {
    match parse_uint(bytes, 1) {
        Ok((v, rest)) => Ok((v as u8, rest)),
        Err(f) => Err(f),
    }
}

/// Reading a signed integer of four bytes.
pub open spec fn parse_int(bytes: Seq<u8>) -> Parsed<i32> {
    match parse_uint(bytes, 4) {
        Ok((v, rest)) => Ok(((v as u32) as i32, rest)),
        Err(f) => Err(f),
    }
}

/// What `read_uint` has read fits the width that it was read at.
proof fn lemma_parse_uint_bound(bytes: Seq<u8>, n: nat)
    requires
        n <= 8,
    ensures
        match parse_uint(bytes, n) {
            Ok((v, rest)) => {
                &&& n == 1 ==> v < 0x100
                &&& n == 2 ==> v < 0x1_0000
                &&& n == 4 ==> v < 0x1_0000_0000
                &&& v < 0x1_0000_0000_0000_0000
            },
            Err(f) => true,
        },
{
    if bytes.len() >= n {
        lemma_be_value_bound(bytes.take(n as int));
        lemma_radix_values();
    }
}

impl JdwpDecodable for u8 {
    type Model = u8;

    open spec fn model(&self) -> u8 {
        *self
    }

    open spec fn parse(bytes: Seq<u8>, sizes: IdSizes) -> Parsed<u8> {
        parse_byte(bytes)
    }

    fn decode(decoder: &mut JdwpDecoder) -> (r: Result<Self, DecodeJdwpDataError>) {
        let ghost bytes = decoder@;
        let ghost sizes = decoder.sizes();
        proof {
            lemma_parse_uint_bound(bytes, 1);
        }
        match decoder.read_uint(1) {
            Ok(raw) => {
                let value = raw as u8;
                assert(Self::parse(bytes, sizes) == Ok::<(u8, Seq<u8>), DecodeFailure>(
                    (value, decoder@),
                ));
                assert(value.model() == value);
                Ok(value)
            },
            Err(e) => {
                assert(Self::parse(bytes, sizes) == Err::<(u8, Seq<u8>), DecodeFailure>(e.kind()));
                Err(e)
            },
        }
    }
}

impl JdwpEncodable for u8 {
    open spec fn encoding(&self, sizes: IdSizes) -> Seq<u8> {
        be_bytes(*self as nat, 1)
    }

    fn encode(&self, encoder: &mut JdwpEncoder) {
        encoder.write_uint(*self as u64, 1);
    }
}

impl JdwpDecodable for u16 {
    type Model = u16;

    open spec fn model(&self) -> u16 {
        *self
    }

    open spec fn parse(bytes: Seq<u8>, sizes: IdSizes) -> Parsed<u16> {
        match parse_uint(bytes, 2) {
            Ok((v, rest)) => Ok((v as u16, rest)),
            Err(f) => Err(f),
        }
    }

    fn decode(decoder: &mut JdwpDecoder) -> (r: Result<Self, DecodeJdwpDataError>) {
        let ghost bytes = decoder@;
        let ghost sizes = decoder.sizes();
        proof {
            lemma_parse_uint_bound(bytes, 2);
        }
        match decoder.read_uint(2) {
            Ok(raw) => {
                let value = raw as u16;
                assert(Self::parse(bytes, sizes) == Ok::<(u16, Seq<u8>), DecodeFailure>(
                    (value, decoder@),
                ));
                assert(value.model() == value);
                Ok(value)
            },
            Err(e) => {
                assert(Self::parse(bytes, sizes) == Err::<(u16, Seq<u8>), DecodeFailure>(e.kind()));
                Err(e)
            },
        }
    }
}

impl JdwpEncodable for u16 {
    open spec fn encoding(&self, sizes: IdSizes) -> Seq<u8> {
        be_bytes(*self as nat, 2)
    }

    fn encode(&self, encoder: &mut JdwpEncoder) {
        encoder.write_uint(*self as u64, 2);
    }
}

impl JdwpDecodable for i16 {
    type Model = i16;

    open spec fn model(&self) -> i16 {
        *self
    }

    open spec fn parse(bytes: Seq<u8>, sizes: IdSizes) -> Parsed<i16> {
        match parse_uint(bytes, 2) {
            Ok((v, rest)) => Ok(((v as u16) as i16, rest)),
            Err(f) => Err(f),
        }
    }

    fn decode(decoder: &mut JdwpDecoder) -> (r: Result<Self, DecodeJdwpDataError>) {
        let ghost bytes = decoder@;
        let ghost sizes = decoder.sizes();
        proof {
            lemma_parse_uint_bound(bytes, 2);
        }
        match decoder.read_uint(2) {
            Ok(raw) => {
                let word = raw as u16;
                let value = #[verifier::truncate] (word as i16);
                assert(Self::parse(bytes, sizes) == Ok::<(i16, Seq<u8>), DecodeFailure>(
                    (value, decoder@),
                ));
                assert(value.model() == value);
                Ok(value)
            },
            Err(e) => {
                assert(Self::parse(bytes, sizes) == Err::<(i16, Seq<u8>), DecodeFailure>(e.kind()));
                Err(e)
            },
        }
    }
}

impl JdwpEncodable for i16 {
    open spec fn encoding(&self, sizes: IdSizes) -> Seq<u8> {
        be_bytes((*self as u16) as nat, 2)
    }

    fn encode(&self, encoder: &mut JdwpEncoder) {
        let word = #[verifier::truncate] (*self as u16);
        encoder.write_uint(word as u64, 2);
    }
}

impl JdwpDecodable for u32 {
    type Model = u32;

    open spec fn model(&self) -> u32 {
        *self
    }

    open spec fn parse(bytes: Seq<u8>, sizes: IdSizes) -> Parsed<u32> {
        match parse_uint(bytes, 4) {
            Ok((v, rest)) => Ok((v as u32, rest)),
            Err(f) => Err(f),
        }
    }

    fn decode(decoder: &mut JdwpDecoder) -> (r: Result<Self, DecodeJdwpDataError>) {
        let ghost bytes = decoder@;
        let ghost sizes = decoder.sizes();
        proof {
            lemma_parse_uint_bound(bytes, 4);
        }
        match decoder.read_uint(4) {
            Ok(raw) => {
                let value = raw as u32;
                assert(Self::parse(bytes, sizes) == Ok::<(u32, Seq<u8>), DecodeFailure>(
                    (value, decoder@),
                ));
                assert(value.model() == value);
                Ok(value)
            },
            Err(e) => {
                assert(Self::parse(bytes, sizes) == Err::<(u32, Seq<u8>), DecodeFailure>(e.kind()));
                Err(e)
            },
        }
    }
}

impl JdwpEncodable for u32 {
    open spec fn encoding(&self, sizes: IdSizes) -> Seq<u8> {
        be_bytes(*self as nat, 4)
    }

    fn encode(&self, encoder: &mut JdwpEncoder) {
        encoder.write_uint(*self as u64, 4);
    }
}

impl JdwpDecodable for i32 {
    type Model = i32;

    open spec fn model(&self) -> i32 {
        *self
    }

    open spec fn parse(bytes: Seq<u8>, sizes: IdSizes) -> Parsed<i32> {
        parse_int(bytes)
    }

    fn decode(decoder: &mut JdwpDecoder) -> (r: Result<Self, DecodeJdwpDataError>) {
        let ghost bytes = decoder@;
        let ghost sizes = decoder.sizes();
        proof {
            lemma_parse_uint_bound(bytes, 4);
        }
        match decoder.read_uint(4) {
            Ok(raw) => {
                let word = raw as u32;
                let value = #[verifier::truncate] (word as i32);
                assert(Self::parse(bytes, sizes) == Ok::<(i32, Seq<u8>), DecodeFailure>(
                    (value, decoder@),
                ));
                assert(value.model() == value);
                Ok(value)
            },
            Err(e) => {
                assert(Self::parse(bytes, sizes) == Err::<(i32, Seq<u8>), DecodeFailure>(e.kind()));
                Err(e)
            },
        }
    }
}

impl JdwpEncodable for i32 {
    open spec fn encoding(&self, sizes: IdSizes) -> Seq<u8> {
        be_bytes((*self as u32) as nat, 4)
    }

    fn encode(&self, encoder: &mut JdwpEncoder) {
        let word = #[verifier::truncate] (*self as u32);
        encoder.write_uint(word as u64, 4);
    }
}

impl JdwpDecodable for u64 {
    type Model = u64;

    open spec fn model(&self) -> u64 {
        *self
    }

    open spec fn parse(bytes: Seq<u8>, sizes: IdSizes) -> Parsed<u64> {
        match parse_uint(bytes, 8) {
            Ok((v, rest)) => Ok((v as u64, rest)),
            Err(f) => Err(f),
        }
    }

    fn decode(decoder: &mut JdwpDecoder) -> (r: Result<Self, DecodeJdwpDataError>) {
        let ghost bytes = decoder@;
        let ghost sizes = decoder.sizes();
        proof {
            lemma_parse_uint_bound(bytes, 8);
        }
        match decoder.read_uint(8) {
            Ok(raw) => {
                let value = raw;
                assert(Self::parse(bytes, sizes) == Ok::<(u64, Seq<u8>), DecodeFailure>(
                    (value, decoder@),
                ));
                assert(value.model() == value);
                Ok(value)
            },
            Err(e) => {
                assert(Self::parse(bytes, sizes) == Err::<(u64, Seq<u8>), DecodeFailure>(e.kind()));
                Err(e)
            },
        }
    }
}

impl JdwpEncodable for u64 {
    open spec fn encoding(&self, sizes: IdSizes) -> Seq<u8> {
        be_bytes(*self as nat, 8)
    }

    fn encode(&self, encoder: &mut JdwpEncoder) {
        encoder.write_uint(*self, 8);
    }
}

impl JdwpDecodable for i64 {
    type Model = i64;

    open spec fn model(&self) -> i64 {
        *self
    }

    open spec fn parse(bytes: Seq<u8>, sizes: IdSizes) -> Parsed<i64> {
        match parse_uint(bytes, 8) {
            Ok((v, rest)) => Ok(((v as u64) as i64, rest)),
            Err(f) => Err(f),
        }
    }

    fn decode(decoder: &mut JdwpDecoder) -> (r: Result<Self, DecodeJdwpDataError>) {
        let ghost bytes = decoder@;
        let ghost sizes = decoder.sizes();
        proof {
            lemma_parse_uint_bound(bytes, 8);
        }
        match decoder.read_uint(8) {
            Ok(raw) => {
                let value = #[verifier::truncate] (raw as i64);
                assert(Self::parse(bytes, sizes) == Ok::<(i64, Seq<u8>), DecodeFailure>(
                    (value, decoder@),
                ));
                assert(value.model() == value);
                Ok(value)
            },
            Err(e) => {
                assert(Self::parse(bytes, sizes) == Err::<(i64, Seq<u8>), DecodeFailure>(e.kind()));
                Err(e)
            },
        }
    }
}

impl JdwpEncodable for i64 {
    open spec fn encoding(&self, sizes: IdSizes) -> Seq<u8> {
        be_bytes((*self as u64) as nat, 8)
    }

    fn encode(&self, encoder: &mut JdwpEncoder) {
        let word = #[verifier::truncate] (*self as u64);
        encoder.write_uint(word, 8);
    }
}

impl<T: Identifiable> JdwpDecodable for Id<T> {
    type Model = Id<T>;

    open spec fn model(&self) -> Id<T> {
        *self
    }

    /// An identifier is read at the width of its family; the bytes read are
    /// the low-order bytes of its number, and the bytes above are zero.
    open spec fn parse(bytes: Seq<u8>, sizes: IdSizes) -> Parsed<Id<T>> {
        match parse_uint(bytes, T::width(sizes)) {
            Ok((v, rest)) => Ok((Id::<T>::of(v as u64), rest)),
            Err(f) => Err(f),
        }
    }

    fn decode(decoder: &mut JdwpDecoder) -> (r: Result<Self, DecodeJdwpDataError>) {
        let sizes = decoder.id_sizes();
        let width = T::id_width(&sizes);
        let raw = decoder.read_uint(width)?;
        Ok(Id::new(raw))
    }
}

impl<T: Identifiable> JdwpEncodable for Id<T> {
    /// An identifier is written at the width of its family: the low-order
    /// bytes of its number. Bits above the width are dropped.
    open spec fn encoding(&self, sizes: IdSizes) -> Seq<u8> {
        be_bytes(self.value() as nat, T::width(sizes))
    }

    fn encode(&self, encoder: &mut JdwpEncoder) {
        let sizes = encoder.id_sizes();
        let width = T::id_width(&sizes);
        encoder.write_uint(self.get(), width);
    }
}

/// Reading a string: a length of four bytes, then that many bytes of UTF-8.
pub open spec fn parse_string(bytes: Seq<u8>) -> Parsed<Seq<char>> {
    match parse_int(bytes) {
        Err(f) => Err(f),
        Ok((len, rest)) => if len < 0 {
            Err(DecodeFailure::UnexpectedNegativeInt(len))
        } else {
            match parse_bytes(rest, len as nat) {
                Err(f) => Err(f),
                Ok((text, rest)) => if valid_utf8(text) {
                    Ok((decode_utf8(text), rest))
                } else {
                    Err(DecodeFailure::InvalidUtf8)
                },
            }
        },
    }
}

impl JdwpDecodable for String {
    type Model = Seq<char>;

    open spec fn model(&self) -> Seq<char> {
        self@
    }

    open spec fn parse(bytes: Seq<u8>, sizes: IdSizes) -> Parsed<Seq<char>> {
        parse_string(bytes)
    }

    fn decode(decoder: &mut JdwpDecoder) -> (r: Result<Self, DecodeJdwpDataError>) {
        let len = i32::decode(decoder)?;
        if len < 0 {
            return Err(DecodeJdwpDataError::UnexpectedNegativeInt(len));
        }
        let text = decoder.read_bytes(len as usize)?;
        match String::from_utf8(text) {
            Ok(string) => Ok(string),
            Err(e) => Err(DecodeJdwpDataError::Utf8DecodeError(e)),
        }
    }
}

impl JdwpEncodable for String {
    /// A string is written as the number of its UTF-8 bytes, in four bytes,
    /// and then those bytes.
    open spec fn encoding(&self, sizes: IdSizes) -> Seq<u8> {
        be_bytes((encode_utf8(self@).len() as u32) as nat, 4) + encode_utf8(self@)
    }

    fn encode(&self, encoder: &mut JdwpEncoder) {
        let text = self.as_str().as_bytes();
        let len = #[verifier::truncate] (text.len() as u32);
        encoder.write_uint(len as u64, 4);
        encoder.write_bytes(text);
        assert(encoder@ =~= old(encoder)@ + self.encoding(old(encoder).sizes()));
    }
}

impl JdwpDecodable for ClassStatus {
    type Model = ClassStatus;

    open spec fn model(&self) -> ClassStatus {
        *self
    }

    /// The status word is taken as it comes: no bit is dropped.
    open spec fn parse(bytes: Seq<u8>, sizes: IdSizes) -> Parsed<ClassStatus> {
        match parse_uint(bytes, 4) {
            Ok((v, rest)) => Ok((ClassStatus(v as u32), rest)),
            Err(f) => Err(f),
        }
    }

    fn decode(decoder: &mut JdwpDecoder) -> (r: Result<Self, DecodeJdwpDataError>) {
        let word = u32::decode(decoder)?;
        Ok(ClassStatus(word))
    }
}

impl JdwpEncodable for ClassStatus {
    open spec fn encoding(&self, sizes: IdSizes) -> Seq<u8> {
        be_bytes(self.0 as nat, 4)
    }

    fn encode(&self, encoder: &mut JdwpEncoder) {
        encoder.write_uint(self.0 as u64, 4);
    }
}

impl JdwpDecodable for TypeTag {
    type Model = TypeTag;

    open spec fn model(&self) -> TypeTag {
        *self
    }

    /// A type tag is one byte; a byte that stands for none is refused.
    open spec fn parse(bytes: Seq<u8>, sizes: IdSizes) -> Parsed<TypeTag> {
        match parse_byte(bytes) {
            Err(f) => Err(f),
            Ok((byte, rest)) => match TypeTag::spec_from_code(byte) {
                Some(v) => Ok((v, rest)),
                None => Err(DecodeFailure::IllegalByteTag(byte)),
            },
        }
    }

    fn decode(decoder: &mut JdwpDecoder) -> (r: Result<Self, DecodeJdwpDataError>) {
        let byte = u8::decode(decoder)?;
        match TypeTag::from_code(byte) {
            Ok(v) => Ok(v),
            Err(e) => Err(DecodeJdwpDataError::IllegalByteTag(e)),
        }
    }
}

impl JdwpEncodable for TypeTag {
    open spec fn encoding(&self, sizes: IdSizes) -> Seq<u8> {
        be_bytes(self.spec_code() as nat, 1)
    }

    fn encode(&self, encoder: &mut JdwpEncoder) {
        encoder.write_uint(self.code() as u64, 1);
    }
}

impl JdwpDecodable for Tag {
    type Model = Tag;

    open spec fn model(&self) -> Tag {
        *self
    }

    /// A tag is one byte; a byte that stands for none is refused.
    open spec fn parse(bytes: Seq<u8>, sizes: IdSizes) -> Parsed<Tag> {
        match parse_byte(bytes) {
            Err(f) => Err(f),
            Ok((byte, rest)) => match Tag::spec_from_code(byte) {
                Some(v) => Ok((v, rest)),
                None => Err(DecodeFailure::IllegalByteTag(byte)),
            },
        }
    }

    fn decode(decoder: &mut JdwpDecoder) -> (r: Result<Self, DecodeJdwpDataError>) {
        let byte = u8::decode(decoder)?;
        match Tag::from_code(byte) {
            Ok(v) => Ok(v),
            Err(e) => Err(DecodeJdwpDataError::IllegalByteTag(e)),
        }
    }
}

impl JdwpEncodable for Tag {
    open spec fn encoding(&self, sizes: IdSizes) -> Seq<u8> {
        be_bytes(self.spec_code() as nat, 1)
    }

    fn encode(&self, encoder: &mut JdwpEncoder) {
        encoder.write_uint(self.code() as u64, 1);
    }
}

impl JdwpDecodable for SuspendPolicy {
    type Model = SuspendPolicy;

    open spec fn model(&self) -> SuspendPolicy {
        *self
    }

    /// A suspend policy is one byte; a byte that stands for none is refused.
    open spec fn parse(bytes: Seq<u8>, sizes: IdSizes) -> Parsed<SuspendPolicy> {
        match parse_byte(bytes) {
            Err(f) => Err(f),
            Ok((byte, rest)) => match SuspendPolicy::spec_from_code(byte) {
                Some(v) => Ok((v, rest)),
                None => Err(DecodeFailure::IllegalByteTag(byte)),
            },
        }
    }

    fn decode(decoder: &mut JdwpDecoder) -> (r: Result<Self, DecodeJdwpDataError>) {
        let byte = u8::decode(decoder)?;
        match SuspendPolicy::from_code(byte) {
            Ok(v) => Ok(v),
            Err(e) => Err(DecodeJdwpDataError::IllegalByteTag(e)),
        }
    }
}

impl JdwpEncodable for SuspendPolicy {
    open spec fn encoding(&self, sizes: IdSizes) -> Seq<u8> {
        be_bytes(self.spec_code() as nat, 1)
    }

    fn encode(&self, encoder: &mut JdwpEncoder) {
        encoder.write_uint(self.code() as u64, 1);
    }
}

impl JdwpDecodable for EventKind {
    type Model = EventKind;

    open spec fn model(&self) -> EventKind {
        *self
    }

    /// A event kind is one byte; a byte that stands for none is refused.
    open spec fn parse(bytes: Seq<u8>, sizes: IdSizes) -> Parsed<EventKind> {
        match parse_byte(bytes) {
            Err(f) => Err(f),
            Ok((byte, rest)) => match EventKind::spec_from_code(byte) {
                Some(v) => Ok((v, rest)),
                None => Err(DecodeFailure::IllegalByteTag(byte)),
            },
        }
    }

    fn decode(decoder: &mut JdwpDecoder) -> (r: Result<Self, DecodeJdwpDataError>) {
        let byte = u8::decode(decoder)?;
        match EventKind::from_code(byte) {
            Ok(v) => Ok(v),
            Err(e) => Err(DecodeJdwpDataError::IllegalByteTag(e)),
        }
    }
}

impl JdwpEncodable for EventKind {
    open spec fn encoding(&self, sizes: IdSizes) -> Seq<u8> {
        be_bytes(self.spec_code() as nat, 1)
    }

    fn encode(&self, encoder: &mut JdwpEncoder) {
        encoder.write_uint(self.code() as u64, 1);
    }
}

} // verus!
