//! The typed value codec: how each type of the protocol is written to and
//! read from bytes, under the identifier widths of the connection.

use crate::buffer::{
    buffer_as_slice, buffer_contents, buffer_freeze, buffer_len, buffer_new, buffer_put_slice,
    bytes_as_slice, bytes_contents, bytes_len, bytes_split_to,
};
use crate::constants::UnknownTagError;
use crate::id_sizes::IdSizes;
use crate::wire::{be_bytes, be_value, read_be, write_be};
use bytes::{Bytes, BytesMut};
use std::string::FromUtf8Error;
use vstd::prelude::*;

verus! {

/// `std::string::FromUtf8Error`: what `String::from_utf8` hands back for
/// bytes that are not UTF-8.
#[verifier::external_type_specification]
#[verifier::external_body]
pub struct ExFromUtf8Error(FromUtf8Error);

/// `String::from_utf8`: succeeds exactly on well-formed UTF-8, and the string
/// then holds the characters that the bytes spell.
pub assume_specification[ std::string::String::from_utf8 ](vec: Vec<u8>) -> (r: Result<
    std::string::String,
    FromUtf8Error,
>)
    ensures
        r is Ok <==> vstd::utf8::valid_utf8(vec@),
        r matches Ok(s) ==> s@ == vstd::utf8::decode_utf8(vec@),
;

/// Why bytes could not be read as a value.
pub enum DecodeFailure {
    /// The bytes end before the value does.
    NotEnoughBytes,
    /// A length was negative.
    UnexpectedNegativeInt(i32),
    /// A tag byte stands for no variant that is allowed in its place.
    IllegalByteTag(u8),
    /// The bytes of a string are not UTF-8.
    InvalidUtf8,
}

/// What reading a value from bytes comes to: the value and the bytes behind
/// it, or the reason why there is none.
pub type Parsed<M> = Result<(M, Seq<u8>), DecodeFailure>;

/// Why a value could not be decoded.
#[derive(Debug)]
pub enum DecodeJdwpDataError {
    /// Not enough bytes to decode the type.
    NotEnoughBytes,
    /// Got a negative integer where only a non-negative one is allowed.
    UnexpectedNegativeInt(i32),
    /// A tag byte stands for no variant that is allowed in its place.
    IllegalByteTag(UnknownTagError<u8>),
    /// The bytes of a string are not UTF-8.
    Utf8DecodeError(FromUtf8Error),
}

impl DecodeJdwpDataError {
    /// The reason that this error reports.
    pub open spec fn kind(&self) -> DecodeFailure {
        match self {
            DecodeJdwpDataError::NotEnoughBytes => DecodeFailure::NotEnoughBytes,
            DecodeJdwpDataError::UnexpectedNegativeInt(n) => DecodeFailure::UnexpectedNegativeInt(
                *n,
            ),
            DecodeJdwpDataError::IllegalByteTag(e) => DecodeFailure::IllegalByteTag(e.0),
            DecodeJdwpDataError::Utf8DecodeError(_) => DecodeFailure::InvalidUtf8,
        }
    }
}

/// The state of the codec of one connection: the identifier widths in force.
#[derive(Debug)]
pub struct JdwpCodec {
    id_sizes: IdSizes,
}

impl JdwpCodec {
    /// The identifier widths in force.
    pub closed spec fn sizes(&self) -> IdSizes {
        self.id_sizes
    }

    /// A codec with the given identifier widths.
    pub fn new(id_sizes: IdSizes) -> (codec: Self)
        ensures
            codec.sizes() == id_sizes,
    {
        Self { id_sizes }
    }

    /// The identifier widths in force.
    pub fn id_sizes(&self) -> (sizes: IdSizes)
        ensures
            sizes == self.sizes(),
    {
        self.id_sizes
    }

    /// The identifier widths in force, to be changed in place.
    pub fn id_sizes_mut(&mut self) -> (sizes: &mut IdSizes)
        ensures
            *sizes == old(self).sizes(),
            final(self).sizes() == *final(sizes),
    {
        &mut self.id_sizes
    }

    /// Puts other identifier widths in force: what the client does once, when
    /// the target VM has reported its own.
    pub fn set_id_sizes(&mut self, id_sizes: IdSizes)
        ensures
            final(self).sizes() == id_sizes,
    {
        self.id_sizes = id_sizes;
    }
}

impl Default for JdwpCodec {
    /// The codec of a fresh connection: every identifier takes eight bytes.
    fn default() -> (codec: Self)
        ensures
            codec.sizes().valid(),
            codec.sizes().object_width() == 8,
            codec.sizes().method_width() == 8,
            codec.sizes().field_width() == 8,
            codec.sizes().frame_width() == 8,
    {
        Self { id_sizes: IdSizes::default() }
    }
}

/// A type that can be read from bytes.
pub trait JdwpDecodable: Sized {
    /// What a value of this type is, mathematically.
    type Model;

    /// What this value is, mathematically.
    spec fn model(&self) -> Self::Model;

    /// What reading a value of this type from the front of `bytes` comes to
    /// under the identifier widths `sizes`.
    spec fn parse(bytes: Seq<u8>, sizes: IdSizes) -> Parsed<Self::Model>;

    /// Reads a value from the front of the decoder's bytes. On success the
    /// decoder is left with the bytes behind the value.
    fn decode(decoder: &mut JdwpDecoder) -> (r: Result<Self, DecodeJdwpDataError>)
        requires
            old(decoder).sizes().valid(),
        ensures
            final(decoder).sizes() == old(decoder).sizes(),
            match Self::parse(old(decoder)@, old(decoder).sizes()) {
                Ok((m, rest)) => r matches Ok(v) && v.model() == m && final(decoder)@ == rest,
                Err(f) => r matches Err(e) && e.kind() == f,
            },
    ;
}

/// A type that can be written to bytes.
pub trait JdwpEncodable {
    /// The bytes that stand for this value under the identifier widths `sizes`.
    spec fn encoding(&self, sizes: IdSizes) -> Seq<u8>;

    /// Appends the bytes that stand for this value to the encoder's buffer.
    fn encode(&self, encoder: &mut JdwpEncoder)
        requires
            old(encoder).sizes().valid(),
        ensures
            final(encoder).sizes() == old(encoder).sizes(),
            final(encoder)@ == old(encoder)@ + self.encoding(old(encoder).sizes()),
    ;
}

/// Reads values from a run of bytes, front first.
#[derive(Debug)]
pub struct JdwpDecoder<'a> {
    codec: &'a JdwpCodec,
    data: Bytes,
}

impl<'a> View for JdwpDecoder<'a> {
    type V = Seq<u8>;

    /// The bytes that are still to be read.
    closed spec fn view(&self) -> Seq<u8> {
        bytes_contents(self.data)
    }
}

impl<'a> JdwpDecoder<'a> {
    /// The identifier widths that this decoder reads by.
    pub closed spec fn sizes(&self) -> IdSizes {
        self.codec.sizes()
    }

    /// Creates a new decoder with a given codec.
    pub fn new(codec: &'a JdwpCodec, data: Bytes) -> (decoder: Self)
        ensures
            decoder@ == bytes_contents(data),
            decoder.sizes() == codec.sizes(),
    {
        Self { codec, data }
    }

    /// Decodes the next value.
    pub fn get<T: JdwpDecodable>(&mut self) -> (r: Result<T, DecodeJdwpDataError>)
        requires
            old(self).sizes().valid(),
        ensures
            final(self).sizes() == old(self).sizes(),
            match T::parse(old(self)@, old(self).sizes()) {
                Ok((m, rest)) => r matches Ok(v) && v.model() == m && final(self)@ == rest,
                Err(f) => r matches Err(e) && e.kind() == f,
            },
    {
        T::decode(self)
    }

    /// The number of bytes that are still to be read.
    pub fn remaining(&self) -> (n: usize)
        ensures
            n == self@.len(),
    {
        bytes_len(&self.data)
    }

    /// The identifier widths that this decoder reads by.
    pub fn id_sizes(&self) -> (sizes: IdSizes)
        ensures
            sizes == self.sizes(),
    {
        self.codec.id_sizes()
    }

    /// Reads an unsigned big-endian integer of `n` bytes.
    pub fn read_uint(&mut self, n: usize) -> (r: Result<u64, DecodeJdwpDataError>)
        requires
            n <= 8,
        ensures
            final(self).sizes() == old(self).sizes(),
            match parse_uint(old(self)@, n as nat) {
                Ok((v, rest)) => r == Ok::<u64, DecodeJdwpDataError>(v as u64) && final(self)@
                    == rest,
                Err(f) => r matches Err(e) && e.kind() == f,
            },
    {
        if bytes_len(&self.data) < n {
            return Err(DecodeJdwpDataError::NotEnoughBytes);
        }
        Ok(read_be(&mut self.data, n))
    }

    /// Takes the next `n` bytes as they are.
    pub fn read_bytes(&mut self, n: usize) -> (r: Result<Vec<u8>, DecodeJdwpDataError>)
        ensures
            final(self).sizes() == old(self).sizes(),
            match parse_bytes(old(self)@, n as nat) {
                Ok((v, rest)) => r matches Ok(got) && got@ == v && final(self)@ == rest,
                Err(f) => r matches Err(e) && e.kind() == f,
            },
    {
        if bytes_len(&self.data) < n {
            return Err(DecodeJdwpDataError::NotEnoughBytes);
        }
        let front = bytes_split_to(&mut self.data, n);
        Ok(vstd::slice::slice_to_vec(bytes_as_slice(&front)))
    }
}

/// Reading an unsigned big-endian integer of `n` bytes.
pub open spec fn parse_uint(bytes: Seq<u8>, n: nat) -> Parsed<nat> {
    if bytes.len() < n {
        Err(DecodeFailure::NotEnoughBytes)
    } else {
        Ok((be_value(bytes.take(n as int)), bytes.skip(n as int)))
    }
}

/// Taking `n` bytes as they are.
pub open spec fn parse_bytes(bytes: Seq<u8>, n: nat) -> Parsed<Seq<u8>> {
    if bytes.len() < n {
        Err(DecodeFailure::NotEnoughBytes)
    } else {
        Ok((bytes.take(n as int), bytes.skip(n as int)))
    }
}

/// Writes values to a growing run of bytes.
#[derive(Debug)]
pub struct JdwpEncoder<'a> {
    codec: &'a JdwpCodec,
    data: BytesMut,
}

impl<'a> View for JdwpEncoder<'a> {
    type V = Seq<u8>;

    /// The bytes written so far.
    closed spec fn view(&self) -> Seq<u8> {
        buffer_contents(self.data)
    }
}

impl<'a> JdwpEncoder<'a> {
    /// The identifier widths that this encoder writes by.
    pub closed spec fn sizes(&self) -> IdSizes {
        self.codec.sizes()
    }

    /// Creates a new encoder with a given codec and nothing written.
    pub fn new(codec: &'a JdwpCodec) -> (encoder: Self)
        ensures
            encoder@ == Seq::<u8>::empty(),
            encoder.sizes() == codec.sizes(),
    {
        Self { codec, data: buffer_new() }
    }

    /// Encodes a value behind what is written already.
    pub fn put<T: JdwpEncodable>(&mut self, to_encoded: &T)
        requires
            old(self).sizes().valid(),
        ensures
            final(self).sizes() == old(self).sizes(),
            final(self)@ == old(self)@ + to_encoded.encoding(old(self).sizes()),
    {
        to_encoded.encode(self)
    }

    /// The number of bytes written so far.
    pub fn len(&self) -> (n: usize)
        ensures
            n == self@.len(),
    {
        buffer_len(&self.data)
    }

    /// The identifier widths that this encoder writes by.
    pub fn id_sizes(&self) -> (sizes: IdSizes)
        ensures
            sizes == self.sizes(),
    {
        self.codec.id_sizes()
    }

    /// The bytes written so far.
    pub fn as_slice(&self) -> (written: &[u8])
        ensures
            written@ == self@,
    {
        buffer_as_slice(&self.data)
    }

    /// Ends the encoding and hands out the bytes written.
    pub fn finish(self) -> (data: Bytes)
        ensures
            bytes_contents(data) == self@,
    {
        buffer_freeze(self.data)
    }

    /// Writes the `n` lowest-order bytes of `value`, most significant first.
    pub fn write_uint(&mut self, value: u64, n: usize)
        requires
            n <= 8,
        ensures
            final(self).sizes() == old(self).sizes(),
            final(self)@ == old(self)@ + be_bytes(value as nat, n as nat),
    {
        write_be(&mut self.data, value, n);
    }

    /// Writes the bytes of `src` as they are.
    pub fn write_bytes(&mut self, src: &[u8])
        ensures
            final(self).sizes() == old(self).sizes(),
            final(self)@ == old(self)@ + src@,
    {
        buffer_put_slice(&mut self.data, src);
    }
}

} // verus!
