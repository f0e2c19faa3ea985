//! The command catalogue: each command with its opcodes, the fields that it
//! sends and the fields of its reply. A further command is a struct for each
//! of the two, with the codec traits spelled out field by field.

use crate::codec::{
    DecodeJdwpDataError, JdwpDecodable, JdwpDecoder, JdwpEncodable, JdwpEncoder, Parsed,
};
use crate::constants::{ClassStatus, TypeTag};
use crate::id_sizes::IdSizes as Widths;
use crate::ids::{ReferenceTypeId, ThreadGroupId, ThreadId};
use crate::packet::CommandData;
use crate::values::Int;
use vstd::prelude::*;

verus! {

/// The command set of the commands that address the target VM as a whole.
pub const VIRTUAL_MACHINE_COMMAND_SET: u8 = 1;

/// A command of the protocol: what is sent, under which opcodes, and what
/// comes back.
pub trait JdwpCommand: Sized + JdwpEncodable {
    /// What the target VM replies.
    type Reply: JdwpDecodable;

    /// The command set and the command within the set.
    spec fn opcodes() -> (u8, u8);

    /// The command set and the command within the set.
    fn command_data() -> (data: CommandData)
        ensures
            data.spec_command_set() == Self::opcodes().0,
            data.spec_command() == Self::opcodes().1,
    ;
}

/// A loaded class: its kind, its identifier and its status.
#[derive(Debug)]
pub struct ClassReference {
    /// The kind of the reference type.
    pub type_tag: TypeTag,
    /// The identifier of the reference type.
    pub id: ReferenceTypeId,
    /// The status of the class.
    pub status: ClassStatus,
}

impl JdwpDecodable for ClassReference {
    type Model = (TypeTag, (ReferenceTypeId, ClassStatus));

    open spec fn model(&self) -> Self::Model {
        (self.type_tag.model(), (self.id.model(), self.status.model()))
    }

    /// The record is read field by field, in the order of the declaration.
    open spec fn parse(bytes: Seq<u8>, sizes: Widths) -> Parsed<Self::Model> {
        <(TypeTag, (ReferenceTypeId, ClassStatus))>::parse(bytes, sizes)
    }

    fn decode(decoder: &mut JdwpDecoder) -> (r: Result<Self, DecodeJdwpDataError>) {
        let type_tag = TypeTag::decode(decoder)?;
        let id = ReferenceTypeId::decode(decoder)?;
        let status = ClassStatus::decode(decoder)?;
        Ok(Self { type_tag, id, status })
    }
}

/// A loaded class: its kind, its identifier, its JNI signature and its status.
#[derive(Debug)]
pub struct ClassReferenceWithSignature {
    /// The kind of the reference type.
    pub type_tag: TypeTag,
    /// The identifier of the reference type.
    pub id: ReferenceTypeId,
    /// The JNI signature of the class.
    pub signature: String,
    /// The status of the class.
    pub status: ClassStatus,
}

impl JdwpDecodable for ClassReferenceWithSignature {
    type Model = (TypeTag, (ReferenceTypeId, (Seq<char>, ClassStatus)));

    open spec fn model(&self) -> Self::Model {
        (self.type_tag.model(), (self.id.model(), (self.signature.model(), self.status.model())))
    }

    /// The record is read field by field, in the order of the declaration.
    open spec fn parse(bytes: Seq<u8>, sizes: Widths) -> Parsed<Self::Model> {
        <(TypeTag, (ReferenceTypeId, (String, ClassStatus)))>::parse(bytes, sizes)
    }

    fn decode(decoder: &mut JdwpDecoder) -> (r: Result<Self, DecodeJdwpDataError>) {
        let type_tag = TypeTag::decode(decoder)?;
        let id = ReferenceTypeId::decode(decoder)?;
        let signature = String::decode(decoder)?;
        let status = ClassStatus::decode(decoder)?;
        Ok(Self { type_tag, id, signature, status })
    }
}

/// Asks for the version of the target VM.
#[derive(Debug)]
pub struct Version;

impl JdwpEncodable for Version {
    /// The command sends nothing behind its header.
    open spec fn encoding(&self, sizes: Widths) -> Seq<u8> {
        Seq::empty()
    }

    fn encode(&self, encoder: &mut JdwpEncoder) {
        assert(encoder@ + Seq::<u8>::empty() =~= encoder@);
    }
}

impl JdwpCommand for Version {
    type Reply = VersionReply;

    open spec fn opcodes() -> (u8, u8) {
        (VIRTUAL_MACHINE_COMMAND_SET, 1)
    }

    fn command_data() -> (data: CommandData) {
        CommandData::new(VIRTUAL_MACHINE_COMMAND_SET, 1)
    }
}

/// What the target VM replies to [`Version`].
#[derive(Debug)]
pub struct VersionReply {
    /// Text that describes the target VM.
    pub description: String,
    /// The major version of the debugging interface.
    pub major: Int,
    /// The minor version of the debugging interface.
    pub minor: Int,
    /// The version of the Java runtime.
    pub version: String,
    /// The name of the target VM.
    pub name: String,
}

impl JdwpDecodable for VersionReply {
    type Model = (Seq<char>, (i32, (i32, (Seq<char>, Seq<char>))));

    open spec fn model(&self) -> Self::Model {
        (
            self.description.model(),
            (
                self.major.model(),
                (
                    self.minor.model(),
                    (
                        self.version.model(),
                        self.name.model(),
                    ),
                ),
            ),
        )
    }

    /// The reply is read field by field, in the order of the declaration.
    open spec fn parse(bytes: Seq<u8>, sizes: Widths) -> Parsed<Self::Model> {
        <(String, (Int, (Int, (String, String))))>::parse(bytes, sizes)
    }

    fn decode(decoder: &mut JdwpDecoder) -> (r: Result<Self, DecodeJdwpDataError>) {
        let description = String::decode(decoder)?;
        let major = Int::decode(decoder)?;
        let minor = Int::decode(decoder)?;
        let version = String::decode(decoder)?;
        let name = String::decode(decoder)?;
        Ok(Self { description, major, minor, version, name })
    }
}

/// Asks for the loaded classes that have a given JNI signature.
#[derive(Debug)]
pub struct ClassesBySignatures {
    /// The JNI signature to look for.
    pub signature: String,
}

impl JdwpEncodable for ClassesBySignatures {
    open spec fn encoding(&self, sizes: Widths) -> Seq<u8> {
        self.signature.encoding(sizes)
    }

    fn encode(&self, encoder: &mut JdwpEncoder) {
        encoder.put(&self.signature);
    }
}

impl JdwpCommand for ClassesBySignatures {
    type Reply = ClassesBySignaturesReply;

    open spec fn opcodes() -> (u8, u8) {
        (VIRTUAL_MACHINE_COMMAND_SET, 2)
    }

    fn command_data() -> (data: CommandData) {
        CommandData::new(VIRTUAL_MACHINE_COMMAND_SET, 2)
    }
}

/// What the target VM replies to [`ClassesBySignatures`].
#[derive(Debug)]
pub struct ClassesBySignaturesReply {
    /// The classes found.
    pub classes: Vec<ClassReference>,
}

impl JdwpDecodable for ClassesBySignaturesReply {
    type Model = Seq<(TypeTag, (ReferenceTypeId, ClassStatus))>;

    open spec fn model(&self) -> Self::Model {
        self.classes.model()
    }

    /// The reply is read field by field, in the order of the declaration.
    open spec fn parse(bytes: Seq<u8>, sizes: Widths) -> Parsed<Self::Model> {
        Vec::<ClassReference>::parse(bytes, sizes)
    }

    fn decode(decoder: &mut JdwpDecoder) -> (r: Result<Self, DecodeJdwpDataError>) {
        let classes = Vec::<ClassReference>::decode(decoder)?;
        Ok(Self { classes })
    }
}

/// Asks for all the classes that the target VM has loaded.
#[derive(Debug)]
pub struct AllClasses;

impl JdwpEncodable for AllClasses {
    /// The command sends nothing behind its header.
    open spec fn encoding(&self, sizes: Widths) -> Seq<u8> {
        Seq::empty()
    }

    fn encode(&self, encoder: &mut JdwpEncoder) {
        assert(encoder@ + Seq::<u8>::empty() =~= encoder@);
    }
}

impl JdwpCommand for AllClasses {
    type Reply = AllClassesReply;

    open spec fn opcodes() -> (u8, u8) {
        (VIRTUAL_MACHINE_COMMAND_SET, 3)
    }

    fn command_data() -> (data: CommandData) {
        CommandData::new(VIRTUAL_MACHINE_COMMAND_SET, 3)
    }
}

/// What the target VM replies to [`AllClasses`].
#[derive(Debug)]
pub struct AllClassesReply {
    /// The loaded classes.
    pub classes: Vec<ClassReferenceWithSignature>,
}

impl JdwpDecodable for AllClassesReply {
    type Model = Seq<(TypeTag, (ReferenceTypeId, (Seq<char>, ClassStatus)))>;

    open spec fn model(&self) -> Self::Model {
        self.classes.model()
    }

    /// The reply is read field by field, in the order of the declaration.
    open spec fn parse(bytes: Seq<u8>, sizes: Widths) -> Parsed<Self::Model> {
        Vec::<ClassReferenceWithSignature>::parse(bytes, sizes)
    }

    fn decode(decoder: &mut JdwpDecoder) -> (r: Result<Self, DecodeJdwpDataError>) {
        let classes = Vec::<ClassReferenceWithSignature>::decode(decoder)?;
        Ok(Self { classes })
    }
}

/// Asks for all the threads that run in the target VM.
#[derive(Debug)]
pub struct AllThreads;

impl JdwpEncodable for AllThreads {
    /// The command sends nothing behind its header.
    open spec fn encoding(&self, sizes: Widths) -> Seq<u8> {
        Seq::empty()
    }

    fn encode(&self, encoder: &mut JdwpEncoder) {
        assert(encoder@ + Seq::<u8>::empty() =~= encoder@);
    }
}

impl JdwpCommand for AllThreads {
    type Reply = AllThreadsReply;

    open spec fn opcodes() -> (u8, u8) {
        (VIRTUAL_MACHINE_COMMAND_SET, 4)
    }

    fn command_data() -> (data: CommandData) {
        CommandData::new(VIRTUAL_MACHINE_COMMAND_SET, 4)
    }
}

/// What the target VM replies to [`AllThreads`].
#[derive(Debug)]
pub struct AllThreadsReply {
    /// The running threads.
    pub threads: Vec<ThreadId>,
}

impl JdwpDecodable for AllThreadsReply {
    type Model = Seq<ThreadId>;

    open spec fn model(&self) -> Self::Model {
        self.threads.model()
    }

    /// The reply is read field by field, in the order of the declaration.
    open spec fn parse(bytes: Seq<u8>, sizes: Widths) -> Parsed<Self::Model> {
        Vec::<ThreadId>::parse(bytes, sizes)
    }

    fn decode(decoder: &mut JdwpDecoder) -> (r: Result<Self, DecodeJdwpDataError>) {
        let threads = Vec::<ThreadId>::decode(decoder)?;
        Ok(Self { threads })
    }
}

/// Asks for the thread groups that have no parent.
#[derive(Debug)]
pub struct TopLevelThreadGroups;

impl JdwpEncodable for TopLevelThreadGroups {
    /// The command sends nothing behind its header.
    open spec fn encoding(&self, sizes: Widths) -> Seq<u8> {
        Seq::empty()
    }

    fn encode(&self, encoder: &mut JdwpEncoder) {
        assert(encoder@ + Seq::<u8>::empty() =~= encoder@);
    }
}

impl JdwpCommand for TopLevelThreadGroups {
    type Reply = TopLevelThreadGroupsReply;

    open spec fn opcodes() -> (u8, u8) {
        (VIRTUAL_MACHINE_COMMAND_SET, 5)
    }

    fn command_data() -> (data: CommandData) {
        CommandData::new(VIRTUAL_MACHINE_COMMAND_SET, 5)
    }
}

/// What the target VM replies to [`TopLevelThreadGroups`].
#[derive(Debug)]
pub struct TopLevelThreadGroupsReply {
    /// The top-level thread groups.
    pub groups: Vec<ThreadGroupId>,
}

impl JdwpDecodable for TopLevelThreadGroupsReply {
    type Model = Seq<ThreadGroupId>;

    open spec fn model(&self) -> Self::Model {
        self.groups.model()
    }

    /// The reply is read field by field, in the order of the declaration.
    open spec fn parse(bytes: Seq<u8>, sizes: Widths) -> Parsed<Self::Model> {
        Vec::<ThreadGroupId>::parse(bytes, sizes)
    }

    fn decode(decoder: &mut JdwpDecoder) -> (r: Result<Self, DecodeJdwpDataError>) {
        let groups = Vec::<ThreadGroupId>::decode(decoder)?;
        Ok(Self { groups })
    }
}

/// Tells the target VM that the debugger is done with it.
#[derive(Debug)]
pub struct Dispose;

impl JdwpEncodable for Dispose {
    /// The command sends nothing behind its header.
    open spec fn encoding(&self, sizes: Widths) -> Seq<u8> {
        Seq::empty()
    }

    fn encode(&self, encoder: &mut JdwpEncoder) {
        assert(encoder@ + Seq::<u8>::empty() =~= encoder@);
    }
}

impl JdwpCommand for Dispose {
    type Reply = DisposeReply;

    open spec fn opcodes() -> (u8, u8) {
        (VIRTUAL_MACHINE_COMMAND_SET, 6)
    }

    fn command_data() -> (data: CommandData) {
        CommandData::new(VIRTUAL_MACHINE_COMMAND_SET, 6)
    }
}

/// What the target VM replies to [`Dispose`].
#[derive(Debug)]
pub struct DisposeReply;

impl JdwpDecodable for DisposeReply {
    type Model = ();

    open spec fn model(&self) -> () {
        ()
    }

    /// The reply holds nothing: no byte is read.
    open spec fn parse(bytes: Seq<u8>, sizes: Widths) -> Parsed<()> {
        Ok(((), bytes))
    }

    fn decode(decoder: &mut JdwpDecoder) -> (r: Result<Self, DecodeJdwpDataError>) {
        Ok(Self)
    }
}

/// Asks for the widths of the identifiers of the target VM.
#[derive(Debug)]
pub struct IdSizes;

impl JdwpEncodable for IdSizes {
    /// The command sends nothing behind its header.
    open spec fn encoding(&self, sizes: Widths) -> Seq<u8> {
        Seq::empty()
    }

    fn encode(&self, encoder: &mut JdwpEncoder) {
        assert(encoder@ + Seq::<u8>::empty() =~= encoder@);
    }
}

impl JdwpCommand for IdSizes {
    type Reply = IdSizesReply;

    open spec fn opcodes() -> (u8, u8) {
        (VIRTUAL_MACHINE_COMMAND_SET, 7)
    }

    fn command_data() -> (data: CommandData) {
        CommandData::new(VIRTUAL_MACHINE_COMMAND_SET, 7)
    }
}

/// What the target VM replies to [`IdSizes`].
#[derive(Debug)]
pub struct IdSizesReply {
    /// The width of field identifiers, in bytes.
    pub field_id_size: Int,
    /// The width of method identifiers, in bytes.
    pub method_id_size: Int,
    /// The width of object identifiers, in bytes.
    pub object_id_size: Int,
    /// The width of reference type identifiers, in bytes.
    pub reference_type_id_size: Int,
    /// The width of frame identifiers, in bytes.
    pub frame_id_size: Int,
}

impl JdwpDecodable for IdSizesReply {
    type Model = (i32, (i32, (i32, (i32, i32))));

    open spec fn model(&self) -> Self::Model {
        (
            self.field_id_size.model(),
            (
                self.method_id_size.model(),
                (
                    self.object_id_size.model(),
                    (
                        self.reference_type_id_size.model(),
                        self.frame_id_size.model(),
                    ),
                ),
            ),
        )
    }

    /// The reply is read field by field, in the order of the declaration.
    open spec fn parse(bytes: Seq<u8>, sizes: Widths) -> Parsed<Self::Model> {
        <(Int, (Int, (Int, (Int, Int))))>::parse(bytes, sizes)
    }

    fn decode(decoder: &mut JdwpDecoder) -> (r: Result<Self, DecodeJdwpDataError>) {
        let field_id_size = Int::decode(decoder)?;
        let method_id_size = Int::decode(decoder)?;
        let object_id_size = Int::decode(decoder)?;
        let reference_type_id_size = Int::decode(decoder)?;
        let frame_id_size = Int::decode(decoder)?;
        Ok(
            Self {
                field_id_size,
                method_id_size,
                object_id_size,
                reference_type_id_size,
                frame_id_size,
            },
        )
    }
}

} // verus!
