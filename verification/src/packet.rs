//! Raw packets: the envelope around every message of the protocol, before
//! anything is known of what the payload holds.

use crate::buffer::{bytes_contents, bytes_len};
use bytes::Bytes;
use vstd::prelude::*;

verus! {

/// No packet is longer than this: 4 MiB.
pub const MAX_PACKET_LENGTH: usize = 0x40_0000;

/// No packet is shorter than its header: two words of four bytes, the flags
/// byte and two bytes that depend on the flavour.
pub const MIN_PACKET_LENGTH: usize = 11;

/// The flags byte of a header. Bit 7 marks a reply; the other bits are
/// reserved.
#[derive(Debug, Copy, Clone, Eq, PartialEq, Structural)]
pub struct Flags(pub u8);

impl Flags {
    /// Whether bit 7 is set.
    pub open spec fn spec_is_reply(&self) -> bool {
        self.0 & 0x80 != 0
    }

    /// Whether these are the flags of a reply.
    #[verifier::when_used_as_spec(spec_is_reply)]
    pub fn is_reply(&self) -> (reply: bool)
        ensures
            reply == self.spec_is_reply(),
    {
        self.0 & 0x80 != 0
    }

    /// Sets or clears the reply bit and leaves the other bits alone.
    pub fn set_is_reply(&mut self, value: bool)
        ensures
            final(self).spec_is_reply() == value,
            final(self).0 & 0x7f == old(self).0 & 0x7f,
    {
        let bits = self.0;
        if value {
            self.0 = bits | 0x80;
            assert((bits | 0x80) & 0x80 != 0 && (bits | 0x80) & 0x7f == bits & 0x7f)
                by (bit_vector);
        } else {
            self.0 = bits & 0x7f;
            assert((bits & 0x7f) & 0x80 == 0 && (bits & 0x7f) & 0x7f == bits & 0x7f)
                by (bit_vector);
        }
    }

    /// The flags of a command: no bit set.
    pub fn new_command() -> (flags: Self)
        ensures
            flags.0 == 0,
            !flags.spec_is_reply(),
    {
        assert(0u8 & 0x80 == 0) by (bit_vector);
        Flags(0)
    }

    /// The flags of a reply: bit 7 set.
    pub fn new_reply() -> (flags: Self)
        ensures
            flags.0 == 0x80,
            flags.spec_is_reply(),
    {
        assert(0x80u8 & 0x80 != 0) by (bit_vector);
        Flags(0x80)
    }
}

/// Keeps the header's variable part to the two types of this module.
pub trait Sealed {
}

/// What the two bytes behind the flags hold. All valid header variable data is
/// representable by a `u16`.
pub trait HeaderVariableData: Sealed + Sized {
    /// The sixteen bits that stand for this value.
    spec fn spec_to_u16(&self) -> u16;

    /// Reads the value from its sixteen bits; writing it again gives them back.
    fn from_u16(value: u16) -> (r: Self)
        ensures
            r.spec_to_u16() == value,
    ;

    /// The sixteen bits that stand for this value.
    fn to_u16(&self) -> (r: u16)
        ensures
            r == self.spec_to_u16(),
    ;
}

/// What a command packet holds behind the flags: the command set, and the
/// command within the set.
#[derive(Debug, Copy, Clone, PartialEq, Eq, Structural)]
pub struct CommandData {
    command_set: u8,
    command: u8,
}

impl CommandData {
    /// The command set.
    pub closed spec fn spec_command_set(&self) -> u8 {
        self.command_set
    }

    /// The command within the set.
    pub closed spec fn spec_command(&self) -> u8 {
        self.command
    }

    /// Creates a new command data struct.
    pub fn new(command_set: u8, command: u8) -> (data: CommandData)
        ensures
            data.spec_command_set() == command_set,
            data.spec_command() == command,
    {
        Self { command_set, command }
    }

    /// Gets the command set.
    #[verifier::when_used_as_spec(spec_command_set)]
    pub fn command_set(&self) -> (set: u8)
        ensures
            set == self.spec_command_set(),
    {
        self.command_set
    }

    /// Gets the command.
    #[verifier::when_used_as_spec(spec_command)]
    pub fn command(&self) -> (command: u8)
        ensures
            command == self.spec_command(),
    {
        self.command
    }
}

impl Sealed for CommandData {
}

impl HeaderVariableData for CommandData {
    /// The command set is the high byte, the command the low one.
    closed spec fn spec_to_u16(&self) -> u16 {
        (self.command_set as u16 * 256 + self.command as u16) as u16
    }

    fn from_u16(value: u16) -> (r: Self) {
        Self { command_set: (value / 256) as u8, command: (value % 256) as u8 }
    }

    fn to_u16(&self) -> (r: u16) {
        self.command_set as u16 * 256 + self.command as u16
    }
}

impl CommandData {
    /// How the two bytes of a command make up the sixteen bits of the header.
    pub proof fn lemma_to_u16(self)
        ensures
            self.spec_to_u16() == self.spec_command_set() as int * 256 + self.spec_command() as int,
    {
    }
}

/// What a reply packet holds behind the flags: zero, or the number of an error.
#[derive(Debug, PartialEq, Eq, Structural, Copy, Clone)]
pub struct ErrorCode {
    code: u16,
}

impl ErrorCode {
    /// The number that this error code holds.
    pub closed spec fn spec_code(&self) -> u16 {
        self.code
    }

    /// An error code with the given number.
    pub fn new(code: u16) -> (r: ErrorCode)
        ensures
            r.spec_code() == code,
    {
        Self { code }
    }

    /// Gets the code.
    #[verifier::when_used_as_spec(spec_code)]
    pub fn code(&self) -> (code: u16)
        ensures
            code == self.spec_code(),
    {
        self.code
    }
}

impl Sealed for ErrorCode {
}

impl HeaderVariableData for ErrorCode {
    closed spec fn spec_to_u16(&self) -> u16 {
        self.code
    }

    fn from_u16(value: u16) -> (r: Self) {
        Self { code: value }
    }

    fn to_u16(&self) -> (r: u16) {
        self.code
    }
}

impl ErrorCode {
    /// The sixteen bits of the header are the error's number.
    pub proof fn lemma_to_u16(self)
        ensures
            self.spec_to_u16() == self.spec_code(),
    {
    }
}

/// The header of a packet.
#[derive(Debug, Copy, Clone, PartialEq, Eq)]
pub struct Header<T: HeaderVariableData> {
    length: u32,
    id: u32,
    flags: Flags,
    var: T,
}

impl<T: HeaderVariableData> Header<T> {
    /// The total length of the packet, header included.
    pub closed spec fn spec_length(&self) -> u32 {
        self.length
    }

    /// The number that pairs a reply with its command.
    pub closed spec fn spec_id(&self) -> u32 {
        self.id
    }

    /// The flags byte.
    pub closed spec fn spec_flags(&self) -> Flags {
        self.flags
    }

    /// The two bytes behind the flags.
    pub closed spec fn spec_var(&self) -> T {
        self.var
    }

    /// Gets the total length of the packet.
    #[verifier::when_used_as_spec(spec_length)]
    pub fn length(&self) -> (length: u32)
        ensures
            length == self.spec_length(),
    {
        self.length
    }

    /// Gets the id of the packet.
    #[verifier::when_used_as_spec(spec_id)]
    pub fn id(&self) -> (id: u32)
        ensures
            id == self.spec_id(),
    {
        self.id
    }

    /// Gets the flags for this packet.
    #[verifier::when_used_as_spec(spec_flags)]
    pub fn flags(&self) -> (flags: Flags)
        ensures
            flags == self.spec_flags(),
    {
        self.flags
    }

    /// Gets the variable data as a generic type.
    pub fn var(&self) -> (var: &T)
        ensures
            *var == self.spec_var(),
    {
        &self.var
    }
}

impl Header<CommandData> {
    /// Gets the command for this header.
    pub fn command(&self) -> (command: CommandData)
        ensures
            command == self.spec_var(),
    {
        self.var
    }
}

impl Header<ErrorCode> {
    /// Gets the error code for this header.
    pub fn error_code(&self) -> (code: ErrorCode)
        ensures
            code == self.spec_var(),
    {
        self.var
    }
}

/// A packet of either flavour: its header and its payload.
#[derive(Debug, Clone, PartialEq, Eq)]
pub struct RawPacket<T: HeaderVariableData> {
    header: Header<T>,
    data: Bytes,
}

/// A command packet.
pub type RawCommandPacket = RawPacket<CommandData>;

/// A reply packet.
pub type RawReplyPacket = RawPacket<ErrorCode>;

impl<T: HeaderVariableData> RawPacket<T> {
    /// The header of this packet.
    pub closed spec fn spec_header(&self) -> Header<T> {
        self.header
    }

    /// The bytes of the payload.
    pub closed spec fn payload(&self) -> Seq<u8> {
        bytes_contents(self.data)
    }

    /// The header tells the packet's true length, and its reserved flag bits
    /// are zero.
    pub open spec fn wf(&self) -> bool {
        &&& self.spec_header().spec_length() == MIN_PACKET_LENGTH + self.payload().len()
        &&& (self.spec_header().spec_flags().0 == 0 || self.spec_header().spec_flags().0 == 0x80)
    }

    /// Gets the header for this packet.
    pub fn header(&self) -> (header: &Header<T>)
        ensures
            *header == self.spec_header(),
    {
        &self.header
    }

    /// Gets the data for this packet.
    pub fn data(&self) -> (data: &Bytes)
        ensures
            bytes_contents(*data) == self.payload(),
    {
        &self.data
    }
}

impl RawPacket<CommandData> {
    /// A command packet with the given id, command and payload. The payload
    /// must leave room for the header in a length of 32 bits.
    pub fn new_command(id: u32, command: CommandData, data: Bytes) -> (packet: Self)
        requires
            MIN_PACKET_LENGTH + bytes_contents(data).len() <= u32::MAX,
        ensures
            packet.wf(),
            packet.spec_header().spec_id() == id,
            packet.spec_header().spec_var() == command,
            packet.spec_header().spec_flags().0 == 0,
            packet.payload() == bytes_contents(data),
    {
        let length = (MIN_PACKET_LENGTH + bytes_len(&data)) as u32;
        Self { header: Header { length, id, flags: Flags::new_command(), var: command }, data }
    }

    /// A command packet with the given id, command and payload, or nothing
    /// where the payload leaves no room for the header in a length of 32 bits.
    pub fn checked_command(id: u32, command: CommandData, data: Bytes) -> (r: Option<Self>)
        ensures
            r is Some <==> MIN_PACKET_LENGTH + bytes_contents(data).len() <= u32::MAX,
            r matches Some(packet) ==> {
                &&& packet.wf()
                &&& packet.spec_header().spec_id() == id
                &&& packet.spec_header().spec_var() == command
                &&& packet.spec_header().spec_flags().0 == 0
                &&& packet.payload() == bytes_contents(data)
            },
    {
        if bytes_len(&data) > u32::MAX as usize - MIN_PACKET_LENGTH {
            None
        } else {
            Some(Self::new_command(id, command, data))
        }
    }
}

impl RawPacket<ErrorCode> {
    /// A reply packet with the given id, error code and payload. The payload
    /// must leave room for the header in a length of 32 bits.
    pub fn new_reply(id: u32, error_code: ErrorCode, data: Bytes) -> (packet: Self)
        requires
            MIN_PACKET_LENGTH + bytes_contents(data).len() <= u32::MAX,
        ensures
            packet.wf(),
            packet.spec_header().spec_id() == id,
            packet.spec_header().spec_var() == error_code,
            packet.spec_header().spec_flags().0 == 0x80,
            packet.payload() == bytes_contents(data),
    {
        let length = (MIN_PACKET_LENGTH + bytes_len(&data)) as u32;
        Self { header: Header { length, id, flags: Flags::new_reply(), var: error_code }, data }
    }

    /// A reply packet with the given id, error code and payload, or nothing
    /// where the payload leaves no room for the header in a length of 32 bits.
    pub fn checked_reply(id: u32, error_code: ErrorCode, data: Bytes) -> (r: Option<Self>)
        ensures
            r is Some <==> MIN_PACKET_LENGTH + bytes_contents(data).len() <= u32::MAX,
            r matches Some(packet) ==> {
                &&& packet.wf()
                &&& packet.spec_header().spec_id() == id
                &&& packet.spec_header().spec_var() == error_code
                &&& packet.spec_header().spec_flags().0 == 0x80
                &&& packet.payload() == bytes_contents(data)
            },
    {
        if bytes_len(&data) > u32::MAX as usize - MIN_PACKET_LENGTH {
            None
        } else {
            Some(Self::new_reply(id, error_code, data))
        }
    }
}

/// What a packet is, mathematically: its flavour, its id, the two bytes of
/// its flavour and its payload. The length follows from the payload.
pub enum PacketModel {
    /// A command, from either side.
    Command { id: u32, command_set: u8, command: u8, data: Seq<u8> },
    /// A reply to a command.
    Reply { id: u32, error_code: u16, data: Seq<u8> },
}

impl PacketModel {
    /// The payload.
    pub open spec fn data(self) -> Seq<u8> {
        match self {
            PacketModel::Command { data, .. } => data,
            PacketModel::Reply { data, .. } => data,
        }
    }

    /// The total length of the packet on the wire.
    pub open spec fn length(self) -> nat {
        MIN_PACKET_LENGTH as nat + self.data().len()
    }
}

/// Any packet.
#[derive(Debug, Clone)]
pub enum AnyRawPacket {
    /// Command packet.
    Command(RawCommandPacket),
    /// Reply packet.
    Reply(RawReplyPacket),
}

impl RawPacket<CommandData> {
    /// What this command packet is, mathematically.
    pub open spec fn model(&self) -> PacketModel {
        PacketModel::Command {
            id: self.spec_header().spec_id(),
            command_set: self.spec_header().spec_var().spec_command_set(),
            command: self.spec_header().spec_var().spec_command(),
            data: self.payload(),
        }
    }
}

impl RawPacket<ErrorCode> {
    /// What this reply packet is, mathematically.
    pub open spec fn model(&self) -> PacketModel {
        PacketModel::Reply {
            id: self.spec_header().spec_id(),
            error_code: self.spec_header().spec_var().spec_code(),
            data: self.payload(),
        }
    }
}

impl AnyRawPacket {
    /// What this packet is, mathematically.
    pub open spec fn model(&self) -> PacketModel {
        match self {
            AnyRawPacket::Command(packet) => packet.model(),
            AnyRawPacket::Reply(packet) => packet.model(),
        }
    }

    /// The header tells the packet's true length, and its flags are those of
    /// its flavour.
    pub open spec fn wf(&self) -> bool {
        match self {
            AnyRawPacket::Command(packet) => packet.wf() && packet.spec_header().spec_flags().0
                == 0,
            AnyRawPacket::Reply(packet) => packet.wf() && packet.spec_header().spec_flags().0
                == 0x80,
        }
    }
}

} // verus!
