//! What holds of the framing codec: a packet that was written is read back,
//! however the bytes are cut on their way, and a length above the ceiling is
//! refused at once.

use crate::framing::{
    frame, frame_of, header_flags, header_id, header_var, packet_at, unframe, Framed,
    FramingError,
};
use crate::packet::{
    CommandData, ErrorCode, Flags, PacketModel, RawPacket, MAX_PACKET_LENGTH, MIN_PACKET_LENGTH,
};
use crate::wire::{be_bytes, be_value, lemma_be_bytes_len, lemma_be_round_trip, lemma_radix_values};
use vstd::prelude::*;

verus! {

/// The bytes of a packet are as many as its length says.
pub proof fn lemma_frame_len(p: PacketModel)
    ensures
        frame(p).len() == p.length(),
{
    lemma_be_bytes_len(p.length() as u32 as nat, 4);
    lemma_be_bytes_len(header_id(p) as nat, 4);
    lemma_be_bytes_len(header_var(p) as nat, 2);
}

/// Framing round trip: a packet of no more than 4 MiB that was written is
/// read back as the same packet, and the bytes behind it are left over.
pub proof fn lemma_frame_round_trip(p: PacketModel, rest: Seq<u8>)
    requires
        p.length() <= MAX_PACKET_LENGTH,
    ensures
        unframe(frame(p) + rest) == Framed::Packet(p, rest),
{
    let length = p.length();
    let buf = frame(p) + rest;
    let data = p.data();
    lemma_frame_len(p);
    lemma_radix_values();
    lemma_be_bytes_len(length as u32 as nat, 4);
    lemma_be_bytes_len(header_id(p) as nat, 4);
    lemma_be_bytes_len(header_var(p) as nat, 2);
    lemma_be_round_trip(length, 4);
    lemma_be_round_trip(header_id(p) as nat, 4);
    lemma_be_round_trip(header_var(p) as nat, 2);
    assert(buf.take(4) =~= be_bytes(length, 4));
    assert(buf.subrange(4, 8) =~= be_bytes(header_id(p) as nat, 4));
    assert(buf[8] == header_flags(p));
    assert(buf.subrange(9, 11) =~= be_bytes(header_var(p) as nat, 2));
    assert(buf.subrange(11, length as int) =~= data);
    assert(buf.skip(length as int) =~= rest);
    assert(!Flags(0u8).spec_is_reply()) by (bit_vector);
    assert(Flags(0x80u8).spec_is_reply()) by (bit_vector);
    assert(packet_at(buf, length as int) == p);
}

/// What `RawCodec::encode` writes for a command packet is the frame of the
/// packet's model.
pub proof fn lemma_frame_of_command(packet: RawPacket<CommandData>)
    requires
        packet.wf(),
        packet.spec_header().spec_flags().0 == 0,
    ensures
        frame_of(packet) == frame(packet.model()),
{
    packet.spec_header().spec_var().lemma_to_u16();
}

/// What `RawCodec::encode` writes for a reply packet is the frame of the
/// packet's model.
pub proof fn lemma_frame_of_reply(packet: RawPacket<ErrorCode>)
    requires
        packet.wf(),
        packet.spec_header().spec_flags().0 == 0x80,
    ensures
        frame_of(packet) == frame(packet.model()),
{
    packet.spec_header().spec_var().lemma_to_u16();
}

/// Size bound: an advertised length above 4 MiB is refused as soon as its
/// four bytes are there, whatever follows them and however little of it.
pub proof fn lemma_oversized_rejected(buf: Seq<u8>)
    requires
        buf.len() >= 4,
        be_value(buf.take(4)) > MAX_PACKET_LENGTH,
    ensures
        unframe(buf) == Framed::Failed(
            FramingError::OversizedPacket(be_value(buf.take(4)) as usize),
        ),
{
}

/// An advertised length below that of a header is refused.
pub proof fn lemma_undersized_rejected(buf: Seq<u8>)
    requires
        buf.len() >= 4,
        be_value(buf.take(4)) < MIN_PACKET_LENGTH,
    ensures
        unframe(buf) == Framed::Failed(
            FramingError::UndersizedPacket(be_value(buf.take(4)) as usize),
        ),
{
}

/// The packets that a decoder cuts off the front of `buf`, one call after the
/// other until a call yields none, and the bytes that stay in the buffer.
pub open spec fn drain(buf: Seq<u8>) -> (Seq<PacketModel>, Seq<u8>)
    decreases buf.len(),
{
    match unframe(buf) {
        Framed::Packet(p, rest) => if rest.len() < buf.len() {
            (seq![p] + drain(rest).0, drain(rest).1)
        } else {
            (Seq::empty(), buf)
        },
        _ => (Seq::empty(), buf),
    }
}

/// A packet that is whole in the buffer is the same packet with more bytes
/// behind it.
pub proof fn lemma_unframe_extend(a: Seq<u8>, b: Seq<u8>)
    ensures
        unframe(a) matches Framed::Packet(p, rest) ==> unframe(a + b) == Framed::Packet(
            p,
            rest + b,
        ) && rest.len() < a.len(),
{
    if let Framed::Packet(p, rest) = unframe(a) {
        let length = be_value(a.take(4)) as int;
        let ab = a + b;
        assert(ab.take(4) =~= a.take(4));
        assert(ab.subrange(4, 8) =~= a.subrange(4, 8));
        assert(ab.subrange(9, 11) =~= a.subrange(9, 11));
        assert(ab.subrange(11, length) =~= a.subrange(11, length));
        assert(ab[8] == a[8]);
        assert(ab.skip(length) =~= a.skip(length) + b);
    }
}

/// Feeding a buffer in two parts gives what feeding it whole gives: the
/// packets cut off the first part, then the packets cut off what stayed of
/// it with the second part behind, and the same bytes stay at the end.
pub proof fn lemma_drain_split(a: Seq<u8>, b: Seq<u8>)
    ensures
        drain(a + b).0 == drain(a).0 + drain(drain(a).1 + b).0,
        drain(a + b).1 == drain(drain(a).1 + b).1,
    decreases a.len(),
{
    lemma_unframe_extend(a, b);
    match unframe(a) {
        Framed::Packet(p, rest) => {
            lemma_drain_split(rest, b);
            assert(drain(a + b).0 =~= drain(a).0 + drain(drain(a).1 + b).0);
        },
        _ => {
            assert(drain(a).1 == a);
            assert(drain(a + b).0 =~= drain(a).0 + drain(drain(a).1 + b).0);
        },
    }
}

/// Two packets written one behind the other are read back as those two, and
/// nothing stays in the buffer.
pub proof fn lemma_drain_two(first: PacketModel, second: PacketModel)
    requires
        first.length() <= MAX_PACKET_LENGTH,
        second.length() <= MAX_PACKET_LENGTH,
    ensures
        drain(frame(first) + frame(second)) == (seq![first, second], Seq::<u8>::empty()),
{
    let empty = Seq::<u8>::empty();
    lemma_frame_round_trip(first, frame(second));
    lemma_frame_round_trip(second, empty);
    lemma_frame_len(first);
    lemma_frame_len(second);
    assert(frame(second) + empty =~= frame(second));
    assert(drain(empty) == (Seq::<PacketModel>::empty(), empty));
    assert(drain(frame(second)).0 =~= seq![second]);
    assert(drain(frame(first) + frame(second)).0 =~= seq![first, second]);
}

/// Incremental framing: two packets written one behind the other and fed to
/// the decoder in two parts, cut at any byte, come out as exactly those two
/// packets in their order, and nothing stays in the buffer.
pub proof fn lemma_incremental_framing(first: PacketModel, second: PacketModel, a: Seq<u8>, b: Seq<u8>)
    requires
        first.length() <= MAX_PACKET_LENGTH,
        second.length() <= MAX_PACKET_LENGTH,
        a + b == frame(first) + frame(second),
    ensures
        drain(a).0 + drain(drain(a).1 + b).0 == seq![first, second],
        drain(drain(a).1 + b).1 == Seq::<u8>::empty(),
{
    lemma_drain_split(a, b);
    lemma_drain_two(first, second);
}

/// The bytes of the parts of a stream, put together in their order.
pub open spec fn joined(parts: Seq<Seq<u8>>) -> Seq<u8>
    decreases parts.len(),
{
    if parts.len() == 0 {
        Seq::empty()
    } else {
        joined(parts.drop_last()) + parts.last()
    }
}

/// What comes of feeding the parts of a stream to a decoder one after the
/// other, cutting off every whole packet after each part: the packets in the
/// order in which they came out, and the bytes that stay in the buffer.
pub open spec fn feed(parts: Seq<Seq<u8>>) -> (Seq<PacketModel>, Seq<u8>)
    decreases parts.len(),
{
    if parts.len() == 0 {
        (Seq::empty(), Seq::empty())
    } else {
        let before = feed(parts.drop_last());
        let now = drain(before.1 + parts.last());
        (before.0 + now.0, now.1)
    }
}

/// Feeding a stream in parts gives what feeding it whole gives, however
/// many parts there are and wherever they are cut.
pub proof fn lemma_feed_joined(parts: Seq<Seq<u8>>)
    ensures
        feed(parts) == drain(joined(parts)),
    decreases parts.len(),
{
    if parts.len() == 0 {
        assert(feed(parts).0 =~= drain(joined(parts)).0);
    } else {
        lemma_feed_joined(parts.drop_last());
        lemma_drain_split(joined(parts.drop_last()), parts.last());
    }
}

/// Incremental framing, for any number of parts: two packets written one
/// behind the other come out as exactly those two, in their order, however
/// the bytes are cut into parts on their way.
pub proof fn lemma_incremental_framing_parts(
    first: PacketModel,
    second: PacketModel,
    parts: Seq<Seq<u8>>,
)
    requires
        first.length() <= MAX_PACKET_LENGTH,
        second.length() <= MAX_PACKET_LENGTH,
        joined(parts) == frame(first) + frame(second),
    ensures
        feed(parts) == (seq![first, second], Seq::<u8>::empty()),
{
    lemma_feed_joined(parts);
    lemma_drain_two(first, second);
}

} // verus!
