//! The framing codec: how packets are cut out of a growing buffer of bytes,
//! and how they are written.

use crate::buffer::{
    buffer_contents, buffer_freeze, buffer_len, buffer_put_slice, buffer_put_u8, buffer_reserve,
    buffer_split_to, bytes_as_slice, bytes_contents, bytes_get_u8,
};
use crate::packet::{
    AnyRawPacket, CommandData, ErrorCode, Flags, HeaderVariableData, PacketModel, RawPacket,
    MAX_PACKET_LENGTH, MIN_PACKET_LENGTH,
};
use crate::wire::{
    be_bytes, be_value, lemma_be_value_bound, lemma_radix_values, peek_be, read_be, write_be,
};
use bytes::BytesMut;
use vstd::prelude::*;

verus! {

/// Why the bytes in the buffer cannot be the start of a packet.
#[derive(Debug, Clone, Copy, PartialEq, Eq, Structural)]
pub enum FramingError {
    /// The advertised length, held here, is above the ceiling of 4 MiB.
    OversizedPacket(usize),
    /// The advertised length, held here, is below that of a header.
    UndersizedPacket(usize),
}

/// What the front of a buffer comes to.
pub enum Framed {
    /// A packet may yet come of it: more bytes are needed.
    NeedMore,
    /// One packet, and the bytes behind it.
    Packet(PacketModel, Seq<u8>),
    /// No packet can come of it.
    Failed(FramingError),
}

/// The sixteen bits behind the flags of a packet.
pub open spec fn header_var(p: PacketModel) -> u16 {
    match p {
        PacketModel::Command { command_set, command, .. } => (command_set as u16 * 256
            + command as u16) as u16,
        PacketModel::Reply { error_code, .. } => error_code,
    }
}

/// The flags byte of a packet: bit 7 for a reply, nothing else.
pub open spec fn header_flags(p: PacketModel) -> u8 {
    match p {
        PacketModel::Command { .. } => 0,
        PacketModel::Reply { .. } => 0x80,
    }
}

/// The id of a packet.
pub open spec fn header_id(p: PacketModel) -> u32 {
    match p {
        PacketModel::Command { id, .. } => id,
        PacketModel::Reply { id, .. } => id,
    }
}

/// The bytes of a packet whose header holds the given fields: length, id,
/// flags and the two variable bytes, each big-endian, then the payload.
pub open spec fn frame_bytes(length: u32, id: u32, flags: u8, var: u16, data: Seq<u8>) -> Seq<u8> {
    be_bytes(length as nat, 4) + be_bytes(id as nat, 4) + seq![flags] + be_bytes(var as nat, 2)
        + data
}

/// The bytes that stand for a packet on the wire.
pub open spec fn frame(p: PacketModel) -> Seq<u8> {
    frame_bytes(p.length() as u32, header_id(p), header_flags(p), header_var(p), p.data())
}

/// The packet that `length` bytes at the front of `buf` hold.
pub open spec fn packet_at(buf: Seq<u8>, length: int) -> PacketModel {
    let id = be_value(buf.subrange(4, 8)) as u32;
    let var = be_value(buf.subrange(9, 11)) as u16;
    let data = buf.subrange(11, length);
    if Flags(buf[8]).spec_is_reply() {
        PacketModel::Reply { id, error_code: var, data }
    } else {
        PacketModel::Command { id, command_set: (var / 256) as u8, command: (var % 256) as u8, data }
    }
}

/// What the front of `buf` comes to. The advertised length is judged as soon
/// as its four bytes are there, before any of the payload is.
pub open spec fn unframe(buf: Seq<u8>) -> Framed {
    if buf.len() < 4 {
        Framed::NeedMore
    } else {
        let length = be_value(buf.take(4));
        if length > MAX_PACKET_LENGTH {
            Framed::Failed(FramingError::OversizedPacket(length as usize))
        } else if length < MIN_PACKET_LENGTH {
            Framed::Failed(FramingError::UndersizedPacket(length as usize))
        } else if buf.len() < length {
            Framed::NeedMore
        } else {
            Framed::Packet(packet_at(buf, length as int), buf.skip(length as int))
        }
    }
}

/// The bytes that `RawCodec::encode` writes for a packet.
pub open spec fn frame_of<T: HeaderVariableData>(packet: RawPacket<T>) -> Seq<u8> {
    frame_bytes(
        packet.spec_header().spec_length(),
        packet.spec_header().spec_id(),
        packet.spec_header().spec_flags().0,
        packet.spec_header().spec_var().spec_to_u16(),
        packet.payload(),
    )
}

/// Codec for encoding and decoding raw packets.
#[derive(Debug, Default, Copy, Clone)]
pub struct RawCodec;

impl RawCodec {
    /// Appends the packet to `dst`: the header fields in their order, then
    /// the payload.
    pub fn encode<T: HeaderVariableData>(&mut self, item: RawPacket<T>, dst: &mut BytesMut) -> (r:
        Result<(), FramingError>)
        ensures
            r is Ok,
            buffer_contents(*final(dst)) == buffer_contents(*old(dst)) + frame_of(item),
    {
        write_be(dst, item.header().length() as u64, 4);
        write_be(dst, item.header().id() as u64, 4);
        buffer_put_u8(dst, item.header().flags().0);
        write_be(dst, item.header().var().to_u16() as u64, 2);
        buffer_put_slice(dst, bytes_as_slice(item.data()));
        assert(buffer_contents(*dst) =~= buffer_contents(*old(dst)) + frame_of(item));
        Ok(())
    }

    /// Cuts one packet off the front of `src`, if a whole one is there.
    ///
    /// With fewer bytes than the packet needs the buffer is left as it is and
    /// `None` is returned; with an advertised length above the ceiling or
    /// below a header's the buffer is left as it is and the error says which.
    pub fn decode(&mut self, src: &mut BytesMut) -> (r: Result<Option<AnyRawPacket>, FramingError>)
        ensures
            match unframe(buffer_contents(*old(src))) {
                Framed::NeedMore => r == Ok::<Option<AnyRawPacket>, FramingError>(None)
                    && buffer_contents(*final(src)) == buffer_contents(*old(src)),
                Framed::Packet(p, rest) => r matches Ok(Some(packet)) && packet.model() == p
                    && packet.wf() && buffer_contents(*final(src)) == rest,
                Framed::Failed(e) => r == Err::<Option<AnyRawPacket>, FramingError>(e)
                    && buffer_contents(*final(src)) == buffer_contents(*old(src)),
            },
    {
        let ghost buf = buffer_contents(*src);
        let buffered = buffer_len(src);
        if buffered < 4 {
            return Ok(None);
        }
        proof {
            lemma_be_value_bound(buf.take(4));
            lemma_radix_values();
        }
        let length = peek_be(src, 4) as usize;
        if length > MAX_PACKET_LENGTH {
            return Err(FramingError::OversizedPacket(length));
        }
        if length < MIN_PACKET_LENGTH {
            return Err(FramingError::UndersizedPacket(length));
        }
        if buffered < length {
            buffer_reserve(src, length - buffered);
            return Ok(None);
        }
        let mut packet = buffer_freeze(buffer_split_to(src, length));
        let ghost whole = bytes_contents(packet);
        assert(whole.skip(0) =~= whole);
        let _ = read_be(&mut packet, 4);
        let id = read_be(&mut packet, 4);
        let flags = Flags(bytes_get_u8(&mut packet));
        let var = read_be(&mut packet, 2);
        proof {
            assert(whole.skip(4).take(4) =~= buf.subrange(4, 8));
            assert(whole.skip(4).skip(4) =~= whole.skip(8));
            assert(whole.skip(8)[0] == buf[8]);
            assert(whole.skip(8).skip(1) =~= whole.skip(9));
            assert(whole.skip(9).take(2) =~= buf.subrange(9, 11));
            assert(whole.skip(9).skip(2) =~= buf.subrange(11, length as int));
            lemma_be_value_bound(buf.subrange(4, 8));
            lemma_be_value_bound(buf.subrange(9, 11));
        }
        let id = id as u32;
        let var = var as u16;
        if flags.is_reply() {
            let error_code = ErrorCode::from_u16(var);
            proof {
                error_code.lemma_to_u16();
            }
            Ok(Some(AnyRawPacket::Reply(RawPacket::new_reply(id, error_code, packet))))
        } else {
            let command = CommandData::from_u16(var);
            proof {
                command.lemma_to_u16();
            }
            Ok(Some(AnyRawPacket::Command(RawPacket::new_command(id, command, packet))))
        }
    }
}

} // verus!
