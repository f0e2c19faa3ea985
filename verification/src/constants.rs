//! The closed enumerations of the protocol, each with the number that stands
//! for it on the wire, and the class status bits.

use vstd::prelude::*;
use vstd::std_specs::convert::{FromSpecImpl, TryFromSpecImpl};

verus! {

/// A number that stands for no variant of the enumeration it was read for.
#[derive(Debug, Clone, Copy, PartialEq, Eq)]
pub struct UnknownTagError<T: Repr>(pub T);

/// The integer types that a tag is written in.
pub trait Repr: Sized {
}

impl Repr for u8 {
}

impl Repr for u16 {
}

/// An error constant: what a reply reports in place of a result.
#[derive(Debug, Clone, Copy, PartialEq, Eq, Structural, Hash)]
pub enum ErrorConstant {
    /// No error has occurred.
    NoError,
    /// Passed thread is null, is not a valid thread or has exited.
    InvalidThread,
    /// Thread group invalid.
    InvalidThreadGroup,
    /// Invalid priority.
    InvalidPriority,
    /// If the specified thread has not been suspended by an event.
    ThreadNotSuspended,
    /// Thread already suspended.
    ThreadSuspended,
    /// Thread has not been started or is now dead.
    ThreadNotAlive,
    /// If this reference type has been unloaded and garbage collected.
    InvalidObject,
    /// Invalid class.
    InvalidClass,
    /// Class has been loaded but not yet prepared.
    ClassNotPrepared,
    /// Invalid method.
    InvalidMethodId,
    /// Invalid location.
    InvalidLocation,
    /// Invalid field.
    InvalidFieldId,
    /// Invalid jframeID.
    InvalidFrameId,
    /// There are no more Java or JNI frames on the call stack.
    NoMoreFrames,
    /// Information about the frame is not available.
    OpaqueFrame,
    /// Operation can only be performed on current frame.
    NotCurrentFrame,
    /// The variable is not an appropriate type for the function used.
    TypeMismatch,
    /// Invalid slot.
    InvalidSlot,
    /// Item already set.
    Duplicate,
    /// Desired element not found.
    NotFound,
    /// Invalid monitor.
    InvalidMonitor,
    /// This thread doesn't own the monitor.
    NotMonitorOwner,
    /// The call has been interrupted before completion.
    Interrupt,
    /// The virtual machine attempted to read a class file and determined that the file is
    /// malformed or otherwise cannot be interpreted as a class file.
    InvalidClassFormat,
    /// A circularity has been detected while initializing a class.
    CircularClassDefinition,
    /// The verifier detected that a class file, though well formed, contained some sort of
    /// internal inconsistency or security problem.
    FailsVerification,
    /// Adding methods has not been implemented.
    AddMethodNotImplemented,
    /// Schema change has not been implemented.
    SchemaChangeNotImplemented,
    /// The state of the thread has been modified, and is now inconsistent.
    InvalidTypestate,
    /// A direct superclass is different for the new class version, or the set of directly
    /// implemented interfaces is different and canUnrestrictedlyRedefineClasses is false.
    HierarchyChangeNotImplemented,
    /// The new class version does not declare a method declared in the old class version and
    /// canUnrestrictedlyRedefineClasses is false.
    DeleteMethodNotImplemented,
    /// A class file has a version number not supported by this VM.
    UnsupportedVersion,
    /// The class name defined in the new class file is different from the name in the old class
    /// object.
    NamesDontMatch,
    /// The new class version has different modifiers and and canUnrestrictedlyRedefineClasses
    /// is false.
    ClassModifiersChangeNotImplemented,
    /// A method in the new class version has different modifiers than its counterpart in the
    /// old class version and and canUnrestrictedlyRedefineClasses is false.
    MethodModifiersChangeNotImplemented,
    /// The functionality is not implemented in this virtual machine.
    NotImplemented,
    /// Invalid pointer.
    NullPointer,
    /// Desired information is not available.
    AbsentInformation,
    /// The specified event type id is not recognized.
    InvalidEventType,
    /// Illegal argument.
    IllegalArgument,
    /// The function needed to allocate memory and no more memory was available for allocation.
    OutOfMemory,
    /// Debugging has not been enabled in this virtual machine. JVMTI cannot be used.
    AccessDenied,
    /// The virtual machine is not running.
    VmDead,
    /// An unexpected internal error has occurred.
    Internal,
    /// The thread being used to call this function is not attached to the virtual machine.
    /// Calls must be made from attached threads.
    UnattachedThread,
    /// object type id or class tag.
    InvalidTag,
    /// Previous invoke not complete.
    AlreadyInvoking,
    /// Index is invalid.
    InvalidIndex,
    /// The length is invalid.
    InvalidLength,
    /// The string is invalid.
    InvalidString,
    /// The class loader is invalid.
    InvalidClassLoader,
    /// The array is invalid.
    InvalidArray,
    /// Unable to load the transport.
    TransportLoad,
    /// Unable to initialize the transport.
    TransportInit,
    /// The method is a native method.
    NativeMethod,
}

impl ErrorConstant {
    /// The number that stands for this variant on the wire.
    pub open spec fn spec_code(self) -> u16 {
        match self {
            ErrorConstant::NoError => 0,
            ErrorConstant::InvalidThread => 10,
            ErrorConstant::InvalidThreadGroup => 11,
            ErrorConstant::InvalidPriority => 12,
            ErrorConstant::ThreadNotSuspended => 13,
            ErrorConstant::ThreadSuspended => 14,
            ErrorConstant::ThreadNotAlive => 15,
            ErrorConstant::InvalidObject => 20,
            ErrorConstant::InvalidClass => 21,
            ErrorConstant::ClassNotPrepared => 22,
            ErrorConstant::InvalidMethodId => 23,
            ErrorConstant::InvalidLocation => 24,
            ErrorConstant::InvalidFieldId => 25,
            ErrorConstant::InvalidFrameId => 30,
            ErrorConstant::NoMoreFrames => 31,
            ErrorConstant::OpaqueFrame => 32,
            ErrorConstant::NotCurrentFrame => 33,
            ErrorConstant::TypeMismatch => 34,
            ErrorConstant::InvalidSlot => 35,
            ErrorConstant::Duplicate => 40,
            ErrorConstant::NotFound => 41,
            ErrorConstant::InvalidMonitor => 50,
            ErrorConstant::NotMonitorOwner => 51,
            ErrorConstant::Interrupt => 52,
            ErrorConstant::InvalidClassFormat => 60,
            ErrorConstant::CircularClassDefinition => 61,
            ErrorConstant::FailsVerification => 62,
            ErrorConstant::AddMethodNotImplemented => 63,
            ErrorConstant::SchemaChangeNotImplemented => 64,
            ErrorConstant::InvalidTypestate => 65,
            ErrorConstant::HierarchyChangeNotImplemented => 66,
            ErrorConstant::DeleteMethodNotImplemented => 67,
            ErrorConstant::UnsupportedVersion => 68,
            ErrorConstant::NamesDontMatch => 69,
            ErrorConstant::ClassModifiersChangeNotImplemented => 70,
            ErrorConstant::MethodModifiersChangeNotImplemented => 71,
            ErrorConstant::NotImplemented => 99,
            ErrorConstant::NullPointer => 100,
            ErrorConstant::AbsentInformation => 101,
            ErrorConstant::InvalidEventType => 102,
            ErrorConstant::IllegalArgument => 103,
            ErrorConstant::OutOfMemory => 110,
            ErrorConstant::AccessDenied => 111,
            ErrorConstant::VmDead => 112,
            ErrorConstant::Internal => 113,
            ErrorConstant::UnattachedThread => 115,
            ErrorConstant::InvalidTag => 500,
            ErrorConstant::AlreadyInvoking => 502,
            ErrorConstant::InvalidIndex => 503,
            ErrorConstant::InvalidLength => 504,
            ErrorConstant::InvalidString => 506,
            ErrorConstant::InvalidClassLoader => 507,
            ErrorConstant::InvalidArray => 508,
            ErrorConstant::TransportLoad => 509,
            ErrorConstant::TransportInit => 510,
            ErrorConstant::NativeMethod => 511,
        }
    }

    /// The variant that `code` stands for, if there is one.
    pub open spec fn spec_from_code(code: u16) -> Option<ErrorConstant> {
        if code == 0 {
            Some(ErrorConstant::NoError)
        } else if code == 10 {
            Some(ErrorConstant::InvalidThread)
        } else if code == 11 {
            Some(ErrorConstant::InvalidThreadGroup)
        } else if code == 12 {
            Some(ErrorConstant::InvalidPriority)
        } else if code == 13 {
            Some(ErrorConstant::ThreadNotSuspended)
        } else if code == 14 {
            Some(ErrorConstant::ThreadSuspended)
        } else if code == 15 {
            Some(ErrorConstant::ThreadNotAlive)
        } else if code == 20 {
            Some(ErrorConstant::InvalidObject)
        } else if code == 21 {
            Some(ErrorConstant::InvalidClass)
        } else if code == 22 {
            Some(ErrorConstant::ClassNotPrepared)
        } else if code == 23 {
            Some(ErrorConstant::InvalidMethodId)
        } else if code == 24 {
            Some(ErrorConstant::InvalidLocation)
        } else if code == 25 {
            Some(ErrorConstant::InvalidFieldId)
        } else if code == 30 {
            Some(ErrorConstant::InvalidFrameId)
        } else if code == 31 {
            Some(ErrorConstant::NoMoreFrames)
        } else if code == 32 {
            Some(ErrorConstant::OpaqueFrame)
        } else if code == 33 {
            Some(ErrorConstant::NotCurrentFrame)
        } else if code == 34 {
            Some(ErrorConstant::TypeMismatch)
        } else if code == 35 {
            Some(ErrorConstant::InvalidSlot)
        } else if code == 40 {
            Some(ErrorConstant::Duplicate)
        } else if code == 41 {
            Some(ErrorConstant::NotFound)
        } else if code == 50 {
            Some(ErrorConstant::InvalidMonitor)
        } else if code == 51 {
            Some(ErrorConstant::NotMonitorOwner)
        } else if code == 52 {
            Some(ErrorConstant::Interrupt)
        } else if code == 60 {
            Some(ErrorConstant::InvalidClassFormat)
        } else if code == 61 {
            Some(ErrorConstant::CircularClassDefinition)
        } else if code == 62 {
            Some(ErrorConstant::FailsVerification)
        } else if code == 63 {
            Some(ErrorConstant::AddMethodNotImplemented)
        } else if code == 64 {
            Some(ErrorConstant::SchemaChangeNotImplemented)
        } else if code == 65 {
            Some(ErrorConstant::InvalidTypestate)
        } else if code == 66 {
            Some(ErrorConstant::HierarchyChangeNotImplemented)
        } else if code == 67 {
            Some(ErrorConstant::DeleteMethodNotImplemented)
        } else if code == 68 {
            Some(ErrorConstant::UnsupportedVersion)
        } else if code == 69 {
            Some(ErrorConstant::NamesDontMatch)
        } else if code == 70 {
            Some(ErrorConstant::ClassModifiersChangeNotImplemented)
        } else if code == 71 {
            Some(ErrorConstant::MethodModifiersChangeNotImplemented)
        } else if code == 99 {
            Some(ErrorConstant::NotImplemented)
        } else if code == 100 {
            Some(ErrorConstant::NullPointer)
        } else if code == 101 {
            Some(ErrorConstant::AbsentInformation)
        } else if code == 102 {
            Some(ErrorConstant::InvalidEventType)
        } else if code == 103 {
            Some(ErrorConstant::IllegalArgument)
        } else if code == 110 {
            Some(ErrorConstant::OutOfMemory)
        } else if code == 111 {
            Some(ErrorConstant::AccessDenied)
        } else if code == 112 {
            Some(ErrorConstant::VmDead)
        } else if code == 113 {
            Some(ErrorConstant::Internal)
        } else if code == 115 {
            Some(ErrorConstant::UnattachedThread)
        } else if code == 500 {
            Some(ErrorConstant::InvalidTag)
        } else if code == 502 {
            Some(ErrorConstant::AlreadyInvoking)
        } else if code == 503 {
            Some(ErrorConstant::InvalidIndex)
        } else if code == 504 {
            Some(ErrorConstant::InvalidLength)
        } else if code == 506 {
            Some(ErrorConstant::InvalidString)
        } else if code == 507 {
            Some(ErrorConstant::InvalidClassLoader)
        } else if code == 508 {
            Some(ErrorConstant::InvalidArray)
        } else if code == 509 {
            Some(ErrorConstant::TransportLoad)
        } else if code == 510 {
            Some(ErrorConstant::TransportInit)
        } else if code == 511 {
            Some(ErrorConstant::NativeMethod)
        } else {
            None
        }
    }

    /// The number that stands for this variant on the wire.
    #[verifier::when_used_as_spec(spec_code)]
    pub fn code(self) -> (code: u16)
        ensures
            code == self.spec_code(),
    {
        match self {
            ErrorConstant::NoError => 0,
            ErrorConstant::InvalidThread => 10,
            ErrorConstant::InvalidThreadGroup => 11,
            ErrorConstant::InvalidPriority => 12,
            ErrorConstant::ThreadNotSuspended => 13,
            ErrorConstant::ThreadSuspended => 14,
            ErrorConstant::ThreadNotAlive => 15,
            ErrorConstant::InvalidObject => 20,
            ErrorConstant::InvalidClass => 21,
            ErrorConstant::ClassNotPrepared => 22,
            ErrorConstant::InvalidMethodId => 23,
            ErrorConstant::InvalidLocation => 24,
            ErrorConstant::InvalidFieldId => 25,
            ErrorConstant::InvalidFrameId => 30,
            ErrorConstant::NoMoreFrames => 31,
            ErrorConstant::OpaqueFrame => 32,
            ErrorConstant::NotCurrentFrame => 33,
            ErrorConstant::TypeMismatch => 34,
            ErrorConstant::InvalidSlot => 35,
            ErrorConstant::Duplicate => 40,
            ErrorConstant::NotFound => 41,
            ErrorConstant::InvalidMonitor => 50,
            ErrorConstant::NotMonitorOwner => 51,
            ErrorConstant::Interrupt => 52,
            ErrorConstant::InvalidClassFormat => 60,
            ErrorConstant::CircularClassDefinition => 61,
            ErrorConstant::FailsVerification => 62,
            ErrorConstant::AddMethodNotImplemented => 63,
            ErrorConstant::SchemaChangeNotImplemented => 64,
            ErrorConstant::InvalidTypestate => 65,
            ErrorConstant::HierarchyChangeNotImplemented => 66,
            ErrorConstant::DeleteMethodNotImplemented => 67,
            ErrorConstant::UnsupportedVersion => 68,
            ErrorConstant::NamesDontMatch => 69,
            ErrorConstant::ClassModifiersChangeNotImplemented => 70,
            ErrorConstant::MethodModifiersChangeNotImplemented => 71,
            ErrorConstant::NotImplemented => 99,
            ErrorConstant::NullPointer => 100,
            ErrorConstant::AbsentInformation => 101,
            ErrorConstant::InvalidEventType => 102,
            ErrorConstant::IllegalArgument => 103,
            ErrorConstant::OutOfMemory => 110,
            ErrorConstant::AccessDenied => 111,
            ErrorConstant::VmDead => 112,
            ErrorConstant::Internal => 113,
            ErrorConstant::UnattachedThread => 115,
            ErrorConstant::InvalidTag => 500,
            ErrorConstant::AlreadyInvoking => 502,
            ErrorConstant::InvalidIndex => 503,
            ErrorConstant::InvalidLength => 504,
            ErrorConstant::InvalidString => 506,
            ErrorConstant::InvalidClassLoader => 507,
            ErrorConstant::InvalidArray => 508,
            ErrorConstant::TransportLoad => 509,
            ErrorConstant::TransportInit => 510,
            ErrorConstant::NativeMethod => 511,
        }
    }

    /// Reads a variant from its number; a number that stands for none is
    /// handed back in the error.
    pub fn from_code(code: u16) -> (r: Result<ErrorConstant, UnknownTagError<u16>>)
        ensures
            match r {
                Ok(v) => ErrorConstant::spec_from_code(code) == Some(v),
                Err(e) => ErrorConstant::spec_from_code(code) is None && e.0 == code,
            },
    {
        match code {
            0 => Ok(ErrorConstant::NoError),
            10 => Ok(ErrorConstant::InvalidThread),
            11 => Ok(ErrorConstant::InvalidThreadGroup),
            12 => Ok(ErrorConstant::InvalidPriority),
            13 => Ok(ErrorConstant::ThreadNotSuspended),
            14 => Ok(ErrorConstant::ThreadSuspended),
            15 => Ok(ErrorConstant::ThreadNotAlive),
            20 => Ok(ErrorConstant::InvalidObject),
            21 => Ok(ErrorConstant::InvalidClass),
            22 => Ok(ErrorConstant::ClassNotPrepared),
            23 => Ok(ErrorConstant::InvalidMethodId),
            24 => Ok(ErrorConstant::InvalidLocation),
            25 => Ok(ErrorConstant::InvalidFieldId),
            30 => Ok(ErrorConstant::InvalidFrameId),
            31 => Ok(ErrorConstant::NoMoreFrames),
            32 => Ok(ErrorConstant::OpaqueFrame),
            33 => Ok(ErrorConstant::NotCurrentFrame),
            34 => Ok(ErrorConstant::TypeMismatch),
            35 => Ok(ErrorConstant::InvalidSlot),
            40 => Ok(ErrorConstant::Duplicate),
            41 => Ok(ErrorConstant::NotFound),
            50 => Ok(ErrorConstant::InvalidMonitor),
            51 => Ok(ErrorConstant::NotMonitorOwner),
            52 => Ok(ErrorConstant::Interrupt),
            60 => Ok(ErrorConstant::InvalidClassFormat),
            61 => Ok(ErrorConstant::CircularClassDefinition),
            62 => Ok(ErrorConstant::FailsVerification),
            63 => Ok(ErrorConstant::AddMethodNotImplemented),
            64 => Ok(ErrorConstant::SchemaChangeNotImplemented),
            65 => Ok(ErrorConstant::InvalidTypestate),
            66 => Ok(ErrorConstant::HierarchyChangeNotImplemented),
            67 => Ok(ErrorConstant::DeleteMethodNotImplemented),
            68 => Ok(ErrorConstant::UnsupportedVersion),
            69 => Ok(ErrorConstant::NamesDontMatch),
            70 => Ok(ErrorConstant::ClassModifiersChangeNotImplemented),
            71 => Ok(ErrorConstant::MethodModifiersChangeNotImplemented),
            99 => Ok(ErrorConstant::NotImplemented),
            100 => Ok(ErrorConstant::NullPointer),
            101 => Ok(ErrorConstant::AbsentInformation),
            102 => Ok(ErrorConstant::InvalidEventType),
            103 => Ok(ErrorConstant::IllegalArgument),
            110 => Ok(ErrorConstant::OutOfMemory),
            111 => Ok(ErrorConstant::AccessDenied),
            112 => Ok(ErrorConstant::VmDead),
            113 => Ok(ErrorConstant::Internal),
            115 => Ok(ErrorConstant::UnattachedThread),
            500 => Ok(ErrorConstant::InvalidTag),
            502 => Ok(ErrorConstant::AlreadyInvoking),
            503 => Ok(ErrorConstant::InvalidIndex),
            504 => Ok(ErrorConstant::InvalidLength),
            506 => Ok(ErrorConstant::InvalidString),
            507 => Ok(ErrorConstant::InvalidClassLoader),
            508 => Ok(ErrorConstant::InvalidArray),
            509 => Ok(ErrorConstant::TransportLoad),
            510 => Ok(ErrorConstant::TransportInit),
            511 => Ok(ErrorConstant::NativeMethod),
            unknown => Err(UnknownTagError(unknown)),
        }
    }

    /// Every variant is read back from its own number.
    pub proof fn lemma_code_round_trip(self)
        ensures
            ErrorConstant::spec_from_code(self.spec_code()) == Some(self),
    {
    }

    /// A number that stands for a variant is that variant's number.
    pub proof fn lemma_from_code_round_trip(code: u16)
        ensures
            match ErrorConstant::spec_from_code(code) {
                Some(v) => v.spec_code() == code,
                None => true,
            },
    {
    }
}

impl From<ErrorConstant> for u16 {
    fn from(var: ErrorConstant) -> (r: u16) {
        var.code()
    }
}

impl FromSpecImpl<ErrorConstant> for u16 {
    open spec fn obeys_from_spec() -> bool {
        true
    }

    open spec fn from_spec(var: ErrorConstant) -> u16 {
        var.spec_code()
    }
}

impl TryFrom<u16> for ErrorConstant {
    type Error = UnknownTagError<u16>;

    fn try_from(value: u16) -> (r: Result<Self, Self::Error>) {
        ErrorConstant::from_code(value)
    }
}

impl TryFromSpecImpl<u16> for ErrorConstant {
    open spec fn obeys_try_from_spec() -> bool {
        true
    }

    open spec fn try_from_spec(value: u16) -> Result<Self, Self::Error> {
        match ErrorConstant::spec_from_code(value) {
            Some(v) => Ok(v),
            None => Err(UnknownTagError(value)),
        }
    }
}

/// Says whether a reference type is a class, an interface or an array.
#[derive(Debug, Clone, Copy, PartialEq, Eq, Structural, Hash)]
pub enum TypeTag {
    /// ReferenceType is a class.
    Class,
    /// ReferenceType is an interface.
    Interface,
    /// Reference type is an array.
    Array,
}

impl TypeTag {
    /// The number that stands for this variant on the wire.
    pub open spec fn spec_code(self) -> u8 {
        match self {
            TypeTag::Class => 1,
            TypeTag::Interface => 2,
            TypeTag::Array => 3,
        }
    }

    /// The variant that `code` stands for, if there is one.
    pub open spec fn spec_from_code(code: u8) -> Option<TypeTag> {
        if code == 1 {
            Some(TypeTag::Class)
        } else if code == 2 {
            Some(TypeTag::Interface)
        } else if code == 3 {
            Some(TypeTag::Array)
        } else {
            None
        }
    }

    /// The number that stands for this variant on the wire.
    #[verifier::when_used_as_spec(spec_code)]
    pub fn code(self) -> (code: u8)
        ensures
            code == self.spec_code(),
    {
        match self {
            TypeTag::Class => 1,
            TypeTag::Interface => 2,
            TypeTag::Array => 3,
        }
    }

    /// Reads a variant from its number; a number that stands for none is
    /// handed back in the error.
    pub fn from_code(code: u8) -> (r: Result<TypeTag, UnknownTagError<u8>>)
        ensures
            match r {
                Ok(v) => TypeTag::spec_from_code(code) == Some(v),
                Err(e) => TypeTag::spec_from_code(code) is None && e.0 == code,
            },
    {
        match code {
            1 => Ok(TypeTag::Class),
            2 => Ok(TypeTag::Interface),
            3 => Ok(TypeTag::Array),
            unknown => Err(UnknownTagError(unknown)),
        }
    }

    /// Every variant is read back from its own number.
    pub proof fn lemma_code_round_trip(self)
        ensures
            TypeTag::spec_from_code(self.spec_code()) == Some(self),
    {
    }

    /// A number that stands for a variant is that variant's number.
    pub proof fn lemma_from_code_round_trip(code: u8)
        ensures
            match TypeTag::spec_from_code(code) {
                Some(v) => v.spec_code() == code,
                None => true,
            },
    {
    }
}

impl From<TypeTag> for u8 {
    fn from(var: TypeTag) -> (r: u8) {
        var.code()
    }
}

impl FromSpecImpl<TypeTag> for u8 {
    open spec fn obeys_from_spec() -> bool {
        true
    }

    open spec fn from_spec(var: TypeTag) -> u8 {
        var.spec_code()
    }
}

impl TryFrom<u8> for TypeTag {
    type Error = UnknownTagError<u8>;

    fn try_from(value: u8) -> (r: Result<Self, Self::Error>) {
        TypeTag::from_code(value)
    }
}

impl TryFromSpecImpl<u8> for TypeTag {
    open spec fn obeys_try_from_spec() -> bool {
        true
    }

    open spec fn try_from_spec(value: u8) -> Result<Self, Self::Error> {
        match TypeTag::spec_from_code(value) {
            Some(v) => Ok(v),
            None => Err(UnknownTagError(value)),
        }
    }
}

/// Says of what type a value is: the one byte in front of a tagged value.
#[derive(Debug, Clone, Copy, PartialEq, Eq, Structural, Hash)]
pub enum Tag {
    /// '[' - an array object (objectID size).
    Array,
    /// 'B' - a byte value (1 byte).
    Byte,
    /// 'C' - a character value (2 bytes).
    Char,
    /// 'L' - an object (objectID size).
    Object,
    /// 'F' - a float value (4 bytes).
    Float,
    /// 'D' - a double value (8 bytes).
    Double,
    /// 'I' - an int value (4 bytes).
    Int,
    /// 'J' - a long value (8 bytes).
    Long,
    /// 'S' - a short value (2 bytes).
    Short,
    /// 'V' - a void value (no bytes).
    Void,
    /// 'Z' - a boolean value (1 byte).
    Boolean,
    /// 's' - a String object (objectID size).
    String,
    /// 't' - a Thread object (objectID size).
    Thread,
    /// 'g' - a ThreadGroup object (objectID size).
    ThreadGroup,
    /// 'l' - a ClassLoader object (objectID size).
    ClassLoader,
    /// 'c' - a class object object (objectID size).
    ClassObject,
}

impl Tag {
    /// The number that stands for this variant on the wire.
    pub open spec fn spec_code(self) -> u8 {
        match self {
            Tag::Array => 91,
            Tag::Byte => 66,
            Tag::Char => 67,
            Tag::Object => 76,
            Tag::Float => 70,
            Tag::Double => 68,
            Tag::Int => 73,
            Tag::Long => 74,
            Tag::Short => 83,
            Tag::Void => 86,
            Tag::Boolean => 90,
            Tag::String => 115,
            Tag::Thread => 116,
            Tag::ThreadGroup => 103,
            Tag::ClassLoader => 108,
            Tag::ClassObject => 99,
        }
    }

    /// The variant that `code` stands for, if there is one.
    pub open spec fn spec_from_code(code: u8) -> Option<Tag> {
        if code == 91 {
            Some(Tag::Array)
        } else if code == 66 {
            Some(Tag::Byte)
        } else if code == 67 {
            Some(Tag::Char)
        } else if code == 76 {
            Some(Tag::Object)
        } else if code == 70 {
            Some(Tag::Float)
        } else if code == 68 {
            Some(Tag::Double)
        } else if code == 73 {
            Some(Tag::Int)
        } else if code == 74 {
            Some(Tag::Long)
        } else if code == 83 {
            Some(Tag::Short)
        } else if code == 86 {
            Some(Tag::Void)
        } else if code == 90 {
            Some(Tag::Boolean)
        } else if code == 115 {
            Some(Tag::String)
        } else if code == 116 {
            Some(Tag::Thread)
        } else if code == 103 {
            Some(Tag::ThreadGroup)
        } else if code == 108 {
            Some(Tag::ClassLoader)
        } else if code == 99 {
            Some(Tag::ClassObject)
        } else {
            None
        }
    }

    /// The number that stands for this variant on the wire.
    #[verifier::when_used_as_spec(spec_code)]
    pub fn code(self) -> (code: u8)
        ensures
            code == self.spec_code(),
    {
        match self {
            Tag::Array => 91,
            Tag::Byte => 66,
            Tag::Char => 67,
            Tag::Object => 76,
            Tag::Float => 70,
            Tag::Double => 68,
            Tag::Int => 73,
            Tag::Long => 74,
            Tag::Short => 83,
            Tag::Void => 86,
            Tag::Boolean => 90,
            Tag::String => 115,
            Tag::Thread => 116,
            Tag::ThreadGroup => 103,
            Tag::ClassLoader => 108,
            Tag::ClassObject => 99,
        }
    }

    /// Reads a variant from its number; a number that stands for none is
    /// handed back in the error.
    pub fn from_code(code: u8) -> (r: Result<Tag, UnknownTagError<u8>>)
        ensures
            match r {
                Ok(v) => Tag::spec_from_code(code) == Some(v),
                Err(e) => Tag::spec_from_code(code) is None && e.0 == code,
            },
    {
        match code {
            91 => Ok(Tag::Array),
            66 => Ok(Tag::Byte),
            67 => Ok(Tag::Char),
            76 => Ok(Tag::Object),
            70 => Ok(Tag::Float),
            68 => Ok(Tag::Double),
            73 => Ok(Tag::Int),
            74 => Ok(Tag::Long),
            83 => Ok(Tag::Short),
            86 => Ok(Tag::Void),
            90 => Ok(Tag::Boolean),
            115 => Ok(Tag::String),
            116 => Ok(Tag::Thread),
            103 => Ok(Tag::ThreadGroup),
            108 => Ok(Tag::ClassLoader),
            99 => Ok(Tag::ClassObject),
            unknown => Err(UnknownTagError(unknown)),
        }
    }

    /// Every variant is read back from its own number.
    pub proof fn lemma_code_round_trip(self)
        ensures
            Tag::spec_from_code(self.spec_code()) == Some(self),
    {
    }

    /// A number that stands for a variant is that variant's number.
    pub proof fn lemma_from_code_round_trip(code: u8)
        ensures
            match Tag::spec_from_code(code) {
                Some(v) => v.spec_code() == code,
                None => true,
            },
    {
    }
}

impl From<Tag> for u8 {
    fn from(var: Tag) -> (r: u8) {
        var.code()
    }
}

impl FromSpecImpl<Tag> for u8 {
    open spec fn obeys_from_spec() -> bool {
        true
    }

    open spec fn from_spec(var: Tag) -> u8 {
        var.spec_code()
    }
}

impl TryFrom<u8> for Tag {
    type Error = UnknownTagError<u8>;

    fn try_from(value: u8) -> (r: Result<Self, Self::Error>) {
        Tag::from_code(value)
    }
}

impl TryFromSpecImpl<u8> for Tag {
    open spec fn obeys_try_from_spec() -> bool {
        true
    }

    open spec fn try_from_spec(value: u8) -> Result<Self, Self::Error> {
        match Tag::spec_from_code(value) {
            Some(v) => Ok(v),
            None => Err(UnknownTagError(value)),
        }
    }
}

/// Which threads the target VM suspended when an event fired.
#[derive(Debug, Clone, Copy, PartialEq, Eq, Structural, Hash)]
pub enum SuspendPolicy {
    /// Nothing in the VM was suspended
    Nothing,
    /// Only the thread where the event started is suspended
    EventThread,
    /// All threads are suspended
    All,
}

impl SuspendPolicy {
    /// The number that stands for this variant on the wire.
    pub open spec fn spec_code(self) -> u8 {
        match self {
            SuspendPolicy::Nothing => 0,
            SuspendPolicy::EventThread => 1,
            SuspendPolicy::All => 2,
        }
    }

    /// The variant that `code` stands for, if there is one.
    pub open spec fn spec_from_code(code: u8) -> Option<SuspendPolicy> {
        if code == 0 {
            Some(SuspendPolicy::Nothing)
        } else if code == 1 {
            Some(SuspendPolicy::EventThread)
        } else if code == 2 {
            Some(SuspendPolicy::All)
        } else {
            None
        }
    }

    /// The number that stands for this variant on the wire.
    #[verifier::when_used_as_spec(spec_code)]
    pub fn code(self) -> (code: u8)
        ensures
            code == self.spec_code(),
    {
        match self {
            SuspendPolicy::Nothing => 0,
            SuspendPolicy::EventThread => 1,
            SuspendPolicy::All => 2,
        }
    }

    /// Reads a variant from its number; a number that stands for none is
    /// handed back in the error.
    pub fn from_code(code: u8) -> (r: Result<SuspendPolicy, UnknownTagError<u8>>)
        ensures
            match r {
                Ok(v) => SuspendPolicy::spec_from_code(code) == Some(v),
                Err(e) => SuspendPolicy::spec_from_code(code) is None && e.0 == code,
            },
    {
        match code {
            0 => Ok(SuspendPolicy::Nothing),
            1 => Ok(SuspendPolicy::EventThread),
            2 => Ok(SuspendPolicy::All),
            unknown => Err(UnknownTagError(unknown)),
        }
    }

    /// Every variant is read back from its own number.
    pub proof fn lemma_code_round_trip(self)
        ensures
            SuspendPolicy::spec_from_code(self.spec_code()) == Some(self),
    {
    }

    /// A number that stands for a variant is that variant's number.
    pub proof fn lemma_from_code_round_trip(code: u8)
        ensures
            match SuspendPolicy::spec_from_code(code) {
                Some(v) => v.spec_code() == code,
                None => true,
            },
    {
    }
}

impl From<SuspendPolicy> for u8 {
    fn from(var: SuspendPolicy) -> (r: u8) {
        var.code()
    }
}

impl FromSpecImpl<SuspendPolicy> for u8 {
    open spec fn obeys_from_spec() -> bool {
        true
    }

    open spec fn from_spec(var: SuspendPolicy) -> u8 {
        var.spec_code()
    }
}

impl TryFrom<u8> for SuspendPolicy {
    type Error = UnknownTagError<u8>;

    fn try_from(value: u8) -> (r: Result<Self, Self::Error>) {
        SuspendPolicy::from_code(value)
    }
}

impl TryFromSpecImpl<u8> for SuspendPolicy {
    open spec fn obeys_try_from_spec() -> bool {
        true
    }

    open spec fn try_from_spec(value: u8) -> Result<Self, Self::Error> {
        match SuspendPolicy::spec_from_code(value) {
            Some(v) => Ok(v),
            None => Err(UnknownTagError(value)),
        }
    }
}

/// The kind of an event: the one byte in front of each event of a composite.
#[derive(Debug, Clone, Copy, PartialEq, Eq, Structural, Hash)]
pub enum EventKind {
    /// A step in the target VM was completed.
    SingleStep,
    /// A breakpoint was hit.
    Breakpoint,
    /// A frame was popped.
    FramePop,
    /// An exception was thrown.
    Exception,
    /// An event that the user defined.
    UserDefined,
    /// A thread began to run.
    ThreadStart,
    /// A thread ended.
    ThreadDeath,
    /// A class was prepared.
    ClassPrepare,
    /// A class was unloaded.
    ClassUnload,
    /// A class was loaded.
    ClassLoad,
    /// A field was read.
    FieldAccess,
    /// A field is about to be written.
    FieldModification,
    /// An exception was caught.
    ExceptionCatch,
    /// A method was entered.
    MethodEntry,
    /// A method returned.
    MethodExit,
    /// A method returned, and its value is reported.
    MethodExitWithReturnValue,
    /// A thread is about to wait for a monitor that another holds.
    MonitorContendedEnter,
    /// A thread got the monitor that it waited for.
    MonitorContendedEntered,
    /// A thread is about to wait on a monitor object.
    MonitorWait,
    /// A thread has finished waiting on a monitor object.
    MonitorWaited,
    /// The target VM was initialised.
    VmStart,
    /// The target VM ended.
    VmDeath,
    /// Never sent across JDWP
    VmDisconnected,
}

impl EventKind {
    /// The number that stands for this variant on the wire.
    pub open spec fn spec_code(self) -> u8 {
        match self {
            EventKind::SingleStep => 1,
            EventKind::Breakpoint => 2,
            EventKind::FramePop => 3,
            EventKind::Exception => 4,
            EventKind::UserDefined => 5,
            EventKind::ThreadStart => 6,
            EventKind::ThreadDeath => 7,
            EventKind::ClassPrepare => 8,
            EventKind::ClassUnload => 9,
            EventKind::ClassLoad => 10,
            EventKind::FieldAccess => 20,
            EventKind::FieldModification => 21,
            EventKind::ExceptionCatch => 30,
            EventKind::MethodEntry => 40,
            EventKind::MethodExit => 41,
            EventKind::MethodExitWithReturnValue => 42,
            EventKind::MonitorContendedEnter => 43,
            EventKind::MonitorContendedEntered => 44,
            EventKind::MonitorWait => 45,
            EventKind::MonitorWaited => 46,
            EventKind::VmStart => 90,
            EventKind::VmDeath => 99,
            EventKind::VmDisconnected => 100,
        }
    }

    /// The variant that `code` stands for, if there is one.
    pub open spec fn spec_from_code(code: u8) -> Option<EventKind> {
        if code == 1 {
            Some(EventKind::SingleStep)
        } else if code == 2 {
            Some(EventKind::Breakpoint)
        } else if code == 3 {
            Some(EventKind::FramePop)
        } else if code == 4 {
            Some(EventKind::Exception)
        } else if code == 5 {
            Some(EventKind::UserDefined)
        } else if code == 6 {
            Some(EventKind::ThreadStart)
        } else if code == 7 {
            Some(EventKind::ThreadDeath)
        } else if code == 8 {
            Some(EventKind::ClassPrepare)
        } else if code == 9 {
            Some(EventKind::ClassUnload)
        } else if code == 10 {
            Some(EventKind::ClassLoad)
        } else if code == 20 {
            Some(EventKind::FieldAccess)
        } else if code == 21 {
            Some(EventKind::FieldModification)
        } else if code == 30 {
            Some(EventKind::ExceptionCatch)
        } else if code == 40 {
            Some(EventKind::MethodEntry)
        } else if code == 41 {
            Some(EventKind::MethodExit)
        } else if code == 42 {
            Some(EventKind::MethodExitWithReturnValue)
        } else if code == 43 {
            Some(EventKind::MonitorContendedEnter)
        } else if code == 44 {
            Some(EventKind::MonitorContendedEntered)
        } else if code == 45 {
            Some(EventKind::MonitorWait)
        } else if code == 46 {
            Some(EventKind::MonitorWaited)
        } else if code == 90 {
            Some(EventKind::VmStart)
        } else if code == 99 {
            Some(EventKind::VmDeath)
        } else if code == 100 {
            Some(EventKind::VmDisconnected)
        } else {
            None
        }
    }

    /// The number that stands for this variant on the wire.
    #[verifier::when_used_as_spec(spec_code)]
    pub fn code(self) -> (code: u8)
        ensures
            code == self.spec_code(),
    {
        match self {
            EventKind::SingleStep => 1,
            EventKind::Breakpoint => 2,
            EventKind::FramePop => 3,
            EventKind::Exception => 4,
            EventKind::UserDefined => 5,
            EventKind::ThreadStart => 6,
            EventKind::ThreadDeath => 7,
            EventKind::ClassPrepare => 8,
            EventKind::ClassUnload => 9,
            EventKind::ClassLoad => 10,
            EventKind::FieldAccess => 20,
            EventKind::FieldModification => 21,
            EventKind::ExceptionCatch => 30,
            EventKind::MethodEntry => 40,
            EventKind::MethodExit => 41,
            EventKind::MethodExitWithReturnValue => 42,
            EventKind::MonitorContendedEnter => 43,
            EventKind::MonitorContendedEntered => 44,
            EventKind::MonitorWait => 45,
            EventKind::MonitorWaited => 46,
            EventKind::VmStart => 90,
            EventKind::VmDeath => 99,
            EventKind::VmDisconnected => 100,
        }
    }

    /// Reads a variant from its number; a number that stands for none is
    /// handed back in the error.
    pub fn from_code(code: u8) -> (r: Result<EventKind, UnknownTagError<u8>>)
        ensures
            match r {
                Ok(v) => EventKind::spec_from_code(code) == Some(v),
                Err(e) => EventKind::spec_from_code(code) is None && e.0 == code,
            },
    {
        match code {
            1 => Ok(EventKind::SingleStep),
            2 => Ok(EventKind::Breakpoint),
            3 => Ok(EventKind::FramePop),
            4 => Ok(EventKind::Exception),
            5 => Ok(EventKind::UserDefined),
            6 => Ok(EventKind::ThreadStart),
            7 => Ok(EventKind::ThreadDeath),
            8 => Ok(EventKind::ClassPrepare),
            9 => Ok(EventKind::ClassUnload),
            10 => Ok(EventKind::ClassLoad),
            20 => Ok(EventKind::FieldAccess),
            21 => Ok(EventKind::FieldModification),
            30 => Ok(EventKind::ExceptionCatch),
            40 => Ok(EventKind::MethodEntry),
            41 => Ok(EventKind::MethodExit),
            42 => Ok(EventKind::MethodExitWithReturnValue),
            43 => Ok(EventKind::MonitorContendedEnter),
            44 => Ok(EventKind::MonitorContendedEntered),
            45 => Ok(EventKind::MonitorWait),
            46 => Ok(EventKind::MonitorWaited),
            90 => Ok(EventKind::VmStart),
            99 => Ok(EventKind::VmDeath),
            100 => Ok(EventKind::VmDisconnected),
            unknown => Err(UnknownTagError(unknown)),
        }
    }

    /// Every variant is read back from its own number.
    pub proof fn lemma_code_round_trip(self)
        ensures
            EventKind::spec_from_code(self.spec_code()) == Some(self),
    {
    }

    /// A number that stands for a variant is that variant's number.
    pub proof fn lemma_from_code_round_trip(code: u8)
        ensures
            match EventKind::spec_from_code(code) {
                Some(v) => v.spec_code() == code,
                None => true,
            },
    {
    }
}

impl From<EventKind> for u8 {
    fn from(var: EventKind) -> (r: u8) {
        var.code()
    }
}

impl FromSpecImpl<EventKind> for u8 {
    open spec fn obeys_from_spec() -> bool {
        true
    }

    open spec fn from_spec(var: EventKind) -> u8 {
        var.spec_code()
    }
}

impl TryFrom<u8> for EventKind {
    type Error = UnknownTagError<u8>;

    fn try_from(value: u8) -> (r: Result<Self, Self::Error>) {
        EventKind::from_code(value)
    }
}

impl TryFromSpecImpl<u8> for EventKind {
    open spec fn obeys_try_from_spec() -> bool {
        true
    }

    open spec fn try_from_spec(value: u8) -> Result<Self, Self::Error> {
        match EventKind::spec_from_code(value) {
            Some(v) => Ok(v),
            None => Err(UnknownTagError(value)),
        }
    }
}

/// The status of a class: a word of 32 bits of which the lowest four are
/// named. The others are kept as they came.
#[derive(Debug, Clone, Copy, PartialEq, Eq, Structural)]
pub struct ClassStatus(pub u32);

impl ClassStatus {
    /// Bit 0: the class has been verified.
    pub open spec fn spec_verified(&self) -> bool {
        self.0 & 1 != 0
    }

    /// Bit 1: the class has been prepared.
    pub open spec fn spec_prepared(&self) -> bool {
        self.0 & 2 != 0
    }

    /// Bit 2: the class has been initialised.
    pub open spec fn spec_initialized(&self) -> bool {
        self.0 & 4 != 0
    }

    /// Bit 3: initialising the class failed.
    pub open spec fn spec_error(&self) -> bool {
        self.0 & 8 != 0
    }

    /// Whether the class has been verified.
    #[verifier::when_used_as_spec(spec_verified)]
    pub fn verified(&self) -> (set: bool)
        ensures
            set == self.spec_verified(),
    {
        self.0 & 1 != 0
    }

    /// Whether the class has been prepared.
    #[verifier::when_used_as_spec(spec_prepared)]
    pub fn prepared(&self) -> (set: bool)
        ensures
            set == self.spec_prepared(),
    {
        self.0 & 2 != 0
    }

    /// Whether the class has been initialised.
    #[verifier::when_used_as_spec(spec_initialized)]
    pub fn initialized(&self) -> (set: bool)
        ensures
            set == self.spec_initialized(),
    {
        self.0 & 4 != 0
    }

    /// Whether initialising the class failed.
    #[verifier::when_used_as_spec(spec_error)]
    pub fn error(&self) -> (set: bool)
        ensures
            set == self.spec_error(),
    {
        self.0 & 8 != 0
    }
}

} // verus!
