//! The compound values of the protocol: locations and tagged values.

use crate::constants::TypeTag;
use crate::ids::{
    ArrayId, ClassId, ClassLoaderId, ClassObjectId, Id, MethodId, ObjectId, StringId,
    TaggedObjectId, ThreadGroupId, ThreadId,
};
use crate::namespaces::Identifiable;
use vstd::prelude::*;

verus! {

/// A byte value.
pub type Byte = u8;

/// A boolean value, encoded as 0 for false and non-zero for true.
pub type Boolean = u8;

/// A four-byte integer value.
pub type Int = i32;

/// An eight-byte integer value.
pub type Long = i64;

/// Marks the types that are values of the protocol: the primitives and the
/// identifiers.
pub trait JdwpValue {
}

impl JdwpValue for u8 {
}

impl JdwpValue for i32 {
}

impl JdwpValue for i64 {
}

impl JdwpValue for TaggedObjectId {
}

impl<T: Identifiable> JdwpValue for Id<T> {
}

/// An executable location: a type tag, the class and the method that own the
/// code, and an index into the method. The index grows from the first
/// executable point of the method to the last.
#[derive(Debug, Copy, Clone, Eq, PartialEq, Hash)]
pub struct Location {
    /// Whether `class` names a class or an interface.
    pub tag: TypeTag,
    /// The owning class.
    pub class: ClassId,
    /// The owning method.
    pub method: MethodId,
    /// Offset within the method.
    pub offset: u64,
}

/// Any value, with the tag that says of what type it is. The two
/// floating-point types are held as their IEEE 754 bit patterns.
#[derive(Debug, Clone, Copy)]
pub enum Value {
    /// An array object.
    Array(ArrayId),
    /// A byte value.
    Byte(u8),
    /// A boolean value.
    Boolean(bool),
    /// A character value, as a UTF-16 code unit.
    Char(u16),
    /// An object.
    Object(ObjectId),
    /// A float value, as its 32 bits.
    Float(u32),
    /// A double value, as its 64 bits.
    Double(u64),
    /// An int value.
    Int(i32),
    /// A long value.
    Long(i64),
    /// A short value.
    Short(i16),
    /// No value.
    Void,
    /// A string object.
    String(StringId),
    /// A thread object.
    Thread(ThreadId),
    /// A thread group object.
    ThreadGroup(ThreadGroupId),
    /// A class loader object.
    ClassLoader(ClassLoaderId),
    /// A class object.
    ClassObject(ClassObjectId),
}

} // verus!
