//! The decisions of the multiplexing client, free of any I/O: the handshake
//! check, the negotiation of identifier widths, request ids, what becomes of
//! a command on its way out and of a packet on its way in, and the buffering
//! of events until a handler is there.

use crate::codec::{DecodeJdwpDataError, JdwpCodec, JdwpDecodable, JdwpDecoder, JdwpEncoder};
use crate::commands::{IdSizesReply, JdwpCommand};
use crate::constants::ErrorConstant;
use crate::events::{events_of, to_events, Events, NotAnEventError};
use crate::id_sizes::IdSizes;
use crate::packet::{AnyRawPacket, RawCommandPacket, RawPacket, RawReplyPacket, MIN_PACKET_LENGTH};
use std::collections::HashMap;
use vstd::prelude::*;

verus! {

broadcast use vstd::std_specs::hash::group_hash_axioms;

/// The fourteen bytes that both sides send before the first packet:
/// `JDWP-Handshake` in ASCII.
pub open spec fn handshake_bytes() -> Seq<u8> {
    seq![74u8, 68, 87, 80, 45, 72, 97, 110, 100, 115, 104, 97, 107, 101]
}

/// The handshake that the target VM sent back is not the expected one.
#[derive(Debug, Clone, Copy, PartialEq, Eq, Structural)]
pub struct HandshakeMismatch;

/// The bytes to send as the handshake.
pub fn handshake() -> (bytes: [u8; 14])
    ensures
        bytes@ == handshake_bytes(),
{
    let bytes = [74u8, 68, 87, 80, 45, 72, 97, 110, 100, 115, 104, 97, 107, 101];
    assert(bytes@ =~= handshake_bytes());
    bytes
}

/// Checks what the target VM sent back: it must be the handshake, byte for
/// byte.
pub fn check_handshake(received: &[u8]) -> (r: Result<(), HandshakeMismatch>)
    ensures
        r is Ok <==> received@ == handshake_bytes(),
{
    let expected = handshake();
    if received.len() != 14 {
        return Err(HandshakeMismatch);
    }
    let mut i: usize = 0;
    while i < 14
        invariant
            i <= 14,
            received@.len() == 14,
            expected@ == handshake_bytes(),
            forall|j: int| 0 <= j < i ==> received@[j] == handshake_bytes()[j],
        decreases 14 - i,
    {
        if received[i] != expected[i] {
            return Err(HandshakeMismatch);
        }
        i = i + 1;
    }
    assert(received@ =~= handshake_bytes());
    Ok(())
}

/// Whether `width`, as the target VM reported it, can be the width of an
/// identifier.
pub open spec fn usable_width(width: i32) -> bool {
    1 <= width <= 8
}

/// The table that the reply to the `IdSizes` command puts in force, if each
/// of the four widths that the codec reads by lies between 1 and 8.
pub fn negotiated_sizes(reply: &IdSizesReply) -> (r: Option<IdSizes>)
    ensures
        r is Some <==> usable_width(reply.object_id_size) && usable_width(reply.method_id_size)
            && usable_width(reply.field_id_size) && usable_width(reply.frame_id_size),
        r matches Some(sizes) ==> sizes.valid() && sizes.object_width() == reply.object_id_size
            && sizes.method_width() == reply.method_id_size && sizes.field_width()
            == reply.field_id_size && sizes.frame_width() == reply.frame_id_size,
{
    if 1 <= reply.object_id_size && reply.object_id_size <= 8 && 1 <= reply.method_id_size
        && reply.method_id_size <= 8 && 1 <= reply.field_id_size && reply.field_id_size <= 8 && 1
        <= reply.frame_id_size && reply.frame_id_size <= 8 {
        Some(
            IdSizes::new(
                reply.object_id_size as usize,
                reply.method_id_size as usize,
                reply.field_id_size as usize,
                reply.frame_id_size as usize,
            ),
        )
    } else {
        None
    }
}

/// Hands out the ids of the requests of one connection: 1, 2, 3 and so on.
/// The ids do not wrap around: after 2^32 - 1 requests there is none left.
#[derive(Debug)]
pub struct RequestIds {
    issued: u32,
}

impl RequestIds {
    /// How many ids were handed out so far; the last one is this number.
    pub closed spec fn issued(&self) -> u32 {
        self.issued
    }

    /// The ids of a fresh connection: none handed out yet.
    pub fn new() -> (ids: Self)
        ensures
            ids.issued() == 0,
    {
        Self { issued: 0 }
    }

    /// The next id, one above the last, or nothing when the ids are used up.
    pub fn allocate(&mut self) -> (id: Option<u32>)
        ensures
            old(self).issued() < u32::MAX ==> id == Some((old(self).issued() + 1) as u32)
                && final(self).issued() == old(self).issued() + 1,
            old(self).issued() == u32::MAX ==> id is None && final(self).issued() == old(
                self,
            ).issued(),
    {
        if self.issued == u32::MAX {
            None
        } else {
            self.issued = self.issued + 1;
            Some(self.issued)
        }
    }
}

/// The pending-reply table: for each request that is on its way, whoever
/// waits for its reply. What a waiter is, is for the client to say; the table
/// only keeps each under the id of its request.
pub struct PendingReplies<W> {
    waiters: HashMap<u32, W>,
}

impl<W> View for PendingReplies<W> {
    type V = Map<u32, W>;

    /// The waiters, each under the id of its request.
    closed spec fn view(&self) -> Map<u32, W> {
        self.waiters@
    }
}

impl<W> PendingReplies<W> {
    /// A table with no request on its way.
    pub fn new() -> (table: Self)
        ensures
            table@ == Map::<u32, W>::empty(),
    {
        Self { waiters: HashMap::new() }
    }

    /// Enters a waiter under the id of its request, before the request is
    /// sent. A waiter that was entered under the same id is put out and
    /// handed back; with ids from [`RequestIds`] there is none.
    pub fn register(&mut self, id: u32, waiter: W) -> (displaced: Option<W>)
        ensures
            final(self)@ == old(self)@.insert(id, waiter),
            match displaced {
                Some(w) => old(self)@.contains_key(id) && w == old(self)@[id],
                None => !old(self)@.contains_key(id),
            },
    {
        self.waiters.insert(id, waiter)
    }

    /// Takes out the waiter for the reply with the given id: the one that
    /// was entered under this id, and no other. Without one the table stays
    /// as it is and the reply has nobody to go to.
    pub fn complete(&mut self, id: u32) -> (waiter: Option<W>)
        ensures
            match waiter {
                Some(w) => old(self)@.contains_key(id) && w == old(self)@[id] && final(self)@
                    == old(self)@.remove(id),
                None => !old(self)@.contains_key(id) && final(self)@ == old(self)@,
            },
    {
        let waiter = self.waiters.remove(&id);
        proof {
            if waiter is None {
                assert(final(self)@ =~= old(self)@);
            }
        }
        waiter
    }

    /// Lets every waiter go, when the inbound stream has ended: the table is
    /// left empty, and a waiter that is dropped learns that no reply will
    /// come.
    pub fn abandon(&mut self)
        ensures
            final(self)@ == Map::<u32, W>::empty(),
    {
        self.waiters.clear();
    }
}

/// A reply goes to the exact waiter that was entered under its id, whatever
/// other waiters were entered before or after under other ids.
pub proof fn lemma_reply_reaches_its_waiter<W>(
    table: Map<u32, W>,
    id: u32,
    waiter: W,
    other: u32,
    bystander: W,
)
    requires
        other != id,
    ensures
        table.insert(id, waiter).insert(other, bystander)[id] == waiter,
        table.insert(other, bystander).insert(id, waiter)[id] == waiter,
        table.insert(id, waiter).remove(other)[id] == waiter,
        !table.insert(id, waiter).remove(id).contains_key(id),
{
}

/// Why a command got no typed reply, as far as the bytes decide it.
#[derive(Debug)]
pub enum SendError {
    /// The command's payload, of the length held here, leaves no room for the
    /// header in a length of 32 bits.
    PayloadTooLarge(usize),
    /// The target VM replied with an error code other than zero. The constant
    /// is the one that the code stands for, if it stands for any.
    Jdwp { code: u16, constant: Option<ErrorConstant> },
    /// The reply's payload does not read as the reply of the command.
    Decode(DecodeJdwpDataError),
}

/// Frames a command for sending: the payload is the command's encoding under
/// the codec's widths, and the header holds the given id and the command's
/// opcodes.
pub fn encode_command<T: JdwpCommand>(codec: &JdwpCodec, id: u32, command: &T) -> (r: Result<
    RawCommandPacket,
    SendError,
>)
    requires
        codec.sizes().valid(),
    ensures
        match r {
            Ok(packet) => {
                &&& MIN_PACKET_LENGTH + command.encoding(codec.sizes()).len() <= u32::MAX
                &&& packet.wf()
                &&& packet.spec_header().spec_flags().0 == 0
                &&& packet.spec_header().spec_id() == id
                &&& packet.spec_header().spec_var().spec_command_set() == T::opcodes().0
                &&& packet.spec_header().spec_var().spec_command() == T::opcodes().1
                &&& packet.payload() == command.encoding(codec.sizes())
            },
            Err(SendError::PayloadTooLarge(n)) => {
                &&& n == command.encoding(codec.sizes()).len()
                &&& MIN_PACKET_LENGTH + n > u32::MAX
            },
            Err(_) => false,
        },
{
    let mut encoder = JdwpEncoder::new(codec);
    command.encode(&mut encoder);
    assert(encoder@ =~= command.encoding(codec.sizes()));
    let len = encoder.len();
    if len > u32::MAX as usize - MIN_PACKET_LENGTH {
        return Err(SendError::PayloadTooLarge(len));
    }
    Ok(RawPacket::new_command(id, T::command_data(), encoder.finish()))
}

/// Reads the reply to a command of type `T`. A reply with an error code other
/// than zero is the target VM's refusal and is not decoded; otherwise the
/// payload is read as `T::Reply` under the codec's widths.
pub fn decode_reply<T: JdwpCommand>(codec: &JdwpCodec, reply: &RawReplyPacket) -> (r: Result<
    T::Reply,
    SendError,
>)
    requires
        codec.sizes().valid(),
    ensures
        match r {
            Ok(value) => {
                &&& reply.spec_header().spec_var().spec_code() == 0
                &&& T::Reply::parse(reply.payload(), codec.sizes()) matches Ok((m, rest))
                &&& value.model() == m
            },
            Err(SendError::Jdwp { code, constant }) => {
                &&& code != 0
                &&& code == reply.spec_header().spec_var().spec_code()
                &&& constant == ErrorConstant::spec_from_code(code)
            },
            Err(SendError::Decode(e)) => {
                &&& reply.spec_header().spec_var().spec_code() == 0
                &&& T::Reply::parse(reply.payload(), codec.sizes()) matches Err(f)
                &&& e.kind() == f
            },
            Err(SendError::PayloadTooLarge(_)) => false,
        },
{
    let code = reply.header().error_code().code();
    if code != 0 {
        let constant = match ErrorConstant::from_code(code) {
            Ok(constant) => Some(constant),
            Err(_) => None,
        };
        return Err(SendError::Jdwp { code, constant });
    }
    let mut decoder = JdwpDecoder::new(codec, reply.data().clone());
    match T::Reply::decode(&mut decoder) {
        Ok(value) => Ok(value),
        Err(e) => Err(SendError::Decode(e)),
    }
}

/// What the receive pump does with a packet that came in.
#[derive(Debug)]
pub enum Inbound {
    /// A reply: it goes to whoever waits for the id, and to nobody else.
    Reply { id: u32, reply: RawReplyPacket },
    /// A composite of events: it goes to the event queue.
    Events(Events),
    /// A command that is no composite of events: it is dropped, and the
    /// connection goes on.
    Unexpected(NotAnEventError),
}

/// Decides what becomes of a packet that came in.
pub fn route(packet: AnyRawPacket, codec: &JdwpCodec) -> (r: Inbound)
    requires
        codec.sizes().valid(),
    ensures
        match packet {
            AnyRawPacket::Reply(reply) => r == (Inbound::Reply {
                id: reply.spec_header().spec_id(),
                reply,
            }),
            AnyRawPacket::Command(command) => match events_of(
                command.spec_header().spec_var().spec_command_set(),
                command.spec_header().spec_var().spec_command(),
                command.payload(),
                codec.sizes(),
            ) {
                Some(events) => r matches Inbound::Events(got) && got.model() == events,
                None => r is Unexpected,
            },
        },
{
    match packet {
        AnyRawPacket::Reply(reply) => {
            let id = reply.header().id();
            Inbound::Reply { id, reply }
        },
        AnyRawPacket::Command(command) => match to_events(command, codec) {
            Ok(events) => Inbound::Events(events),
            Err(e) => Inbound::Unexpected(e),
        },
    }
}

/// Holds the composites of events that arrived while no handler was there.
#[derive(Debug)]
pub struct EventQueue {
    buffered: Vec<Events>,
}

impl View for EventQueue {
    type V = Seq<Events>;

    /// The composites held back, oldest first.
    closed spec fn view(&self) -> Seq<Events> {
        self.buffered@
    }
}

impl EventQueue {
    /// A queue that holds nothing.
    pub fn new() -> (queue: Self)
        ensures
            queue@ == Seq::<Events>::empty(),
    {
        Self { buffered: Vec::new() }
    }

    /// How many composites are held back.
    pub fn len(&self) -> (n: usize)
        ensures
            n == self@.len(),
    {
        self.buffered.len()
    }

    /// Takes in a composite that arrived, with the number of handlers there
    /// at this moment, and hands out the composites to deliver now, oldest
    /// first.
    ///
    /// With no handler the composite is held back and nothing is delivered.
    /// With a handler everything held back is delivered in the order of its
    /// arrival, the new composite last, and nothing stays behind: no
    /// composite is delivered twice, and none is lost.
    pub fn offer(&mut self, events: Events, handlers: usize) -> (deliver: Vec<Events>)
        ensures
            deliver@ + final(self)@ == old(self)@.push(events),
            handlers == 0 ==> deliver@.len() == 0,
            handlers > 0 ==> final(self)@.len() == 0,
    {
        let mut deliver: Vec<Events> = Vec::new();
        if handlers == 0 {
            self.buffered.push(events);
            assert(deliver@ + self@ =~= old(self)@.push(events));
        } else {
            std::mem::swap(&mut self.buffered, &mut deliver);
            deliver.push(events);
            assert(deliver@ + self@ =~= old(self)@.push(events));
        }
        deliver
    }

    /// Hands out what is held back, oldest first, when a handler was
    /// registered; `handlers` is the number of handlers there now. With no
    /// handler nothing is handed out and everything stays.
    pub fn flush(&mut self, handlers: usize) -> (deliver: Vec<Events>)
        ensures
            deliver@ + final(self)@ == old(self)@,
            handlers == 0 ==> deliver@.len() == 0,
            handlers > 0 ==> final(self)@.len() == 0,
    {
        let mut deliver: Vec<Events> = Vec::new();
        if handlers > 0 {
            std::mem::swap(&mut self.buffered, &mut deliver);
        }
        assert(deliver@ + self@ =~= old(self)@);
        deliver
    }
}

/// One call of a handler: which handler, by its place in the list of
/// handlers, and which event, by its place in the composite.
#[derive(Debug, Clone, Copy, PartialEq, Eq, Structural)]
pub struct Delivery {
    /// The place of the handler in the list of handlers.
    pub handler: usize,
    /// The place of the event in the composite.
    pub event: usize,
}

/// The calls for the first `events` events of a composite to one handler, in
/// the order of the wire.
pub open spec fn calls_of(handler: usize, events: nat) -> Seq<Delivery> {
    Seq::new(events, |e: int| Delivery { handler, event: e as usize })
}

/// The calls that deliver a composite of `events` events to `handlers`
/// handlers: handler by handler in the order of their registration, and to
/// each handler the events in the order of the wire.
pub open spec fn deliveries(handlers: nat, events: nat) -> Seq<Delivery>
    decreases handlers,
{
    if handlers == 0 {
        Seq::empty()
    } else {
        deliveries((handlers - 1) as nat, events) + calls_of((handlers - 1) as usize, events)
    }
}

/// The calls to make for one composite of `events` events with `handlers`
/// handlers registered: each handler is called once for each event.
pub fn fan_out(handlers: usize, events: usize) -> (plan: Vec<Delivery>)
    ensures
        plan@ == deliveries(handlers as nat, events as nat),
{
    let mut plan: Vec<Delivery> = Vec::new();
    let mut handler: usize = 0;
    while handler < handlers
        invariant
            handler <= handlers,
            plan@ == deliveries(handler as nat, events as nat),
        decreases handlers - handler,
    {
        let ghost before = plan@;
        let mut event: usize = 0;
        assert(plan@ =~= before + calls_of(handler, 0));
        while event < events
            invariant
                event <= events,
                plan@ == before + calls_of(handler, event as nat),
            decreases events - event,
        {
            plan.push(Delivery { handler, event });
            assert(plan@ =~= before + calls_of(handler, (event + 1) as nat));
            event = event + 1;
        }
        handler = handler + 1;
    }
    plan
}

} // verus!
