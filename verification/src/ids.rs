//! Identifiers: the numbers by which the target VM names its objects,
//! reference types, methods, fields and frames.

use crate::constants::{Tag, UnknownTagError};
use crate::namespaces::{
    Array, ArrayType, Class, ClassLoader, ClassObject, Field, Frame, Identifiable, Interface,
    Method, Object, ReferenceType, TaggedKind, Thread, ThreadGroup, Unknown,
};
use std::cmp::Ordering;
use std::marker::PhantomData;
use vstd::prelude::*;
use vstd::std_specs::convert::{FromSpecImpl, TryFromSpecImpl};

verus! {

/// Uniquely identifies an object in the target VM. An `ObjectId` of 0 stands
/// for the null object.
pub type ObjectId = Id<Object>;

/// Uniquely identifies an object in the target VM that is known to be a thread.
pub type ThreadId = Id<Thread>;

/// Uniquely identifies an object in the target VM that is known to be a thread group.
pub type ThreadGroupId = Id<ThreadGroup>;

/// Uniquely identifies an object in the target VM that is known to be a
/// string object. This is not a string value.
pub type StringId = Id<crate::namespaces::String>;

/// Uniquely identifies an object in the target VM that is known to be a class loader.
pub type ClassLoaderId = Id<ClassLoader>;

/// Uniquely identifies an object in the target VM that is known to be a class object.
pub type ClassObjectId = Id<ClassObject>;

/// Uniquely identifies an object in the target VM that is known to be an array.
pub type ArrayId = Id<Array>;

/// Uniquely identifies a reference type in the target VM.
pub type ReferenceTypeId = Id<ReferenceType>;

/// Uniquely identifies a reference type that is known to be a class type.
pub type ClassId = Id<Class>;

/// Uniquely identifies a reference type that is known to be an interface type.
pub type InterfaceId = Id<Interface>;

/// Uniquely identifies a reference type that is known to be an array type.
pub type ArrayTypeId = Id<ArrayType>;

/// Uniquely identifies a method within its class or interface.
pub type MethodId = Id<Method>;

/// Uniquely identifies a field within its class or interface.
pub type FieldId = Id<Field>;

/// Uniquely identifies a frame in the target VM.
pub type FrameId = Id<Frame>;

/// Uniquely identifies some thing of the family `T` in the target VM.
#[derive(Debug, Ord, PartialOrd, Eq, PartialEq, Hash)]
pub struct Id<T: Identifiable>(u64, PhantomData<T>);

impl<T: Identifiable> Clone for Id<T> {
    fn clone(&self) -> (r: Self)
        ensures
            r == *self,
    {
        Id(self.0, PhantomData)
    }
}

impl<T: Identifiable> Copy for Id<T> {
}

impl<T: Identifiable> Id<T> {
    /// The number that this identifier holds.
    pub closed spec fn value(&self) -> u64 {
        self.0
    }

    /// The identifier of this family that holds `id`.
    pub closed spec fn of(id: u64) -> Self {
        Id(id, PhantomData)
    }

    /// An identifier is known by its number: `of` and `value` undo each other.
    pub broadcast proof fn lemma_of_value(id: u64)
        ensures
            (#[trigger] Self::of(id)).value() == id,
    {
    }

    /// Two identifiers of one family with the same number are the same.
    pub proof fn lemma_value_of(self)
        ensures
            Self::of(self.value()) == self,
    {
    }

    /// Creates an identifier. Any 64-bit number is accepted; whether it names
    /// anything is for the target VM to say.
    #[verifier::when_used_as_spec(of)]
    pub fn new(id: u64) -> (r: Self)
        ensures
            r == Self::of(id),
            r.value() == id,
    {
        Id(id, PhantomData)
    }

    /// Gets the number that this identifier holds.
    #[verifier::when_used_as_spec(value)]
    pub fn get(&self) -> (id: u64)
        ensures
            id == self.value(),
    {
        self.0
    }
}

impl<T: Identifiable> From<Id<T>> for u64 {
    fn from(value: Id<T>) -> (r: Self) {
        value.0
    }
}

impl<T: Identifiable> FromSpecImpl<Id<T>> for u64 {
    open spec fn obeys_from_spec() -> bool {
        true
    }

    open spec fn from_spec(value: Id<T>) -> Self {
        value.value()
    }
}

/// The tag of an object did not match the family that was asked for.
#[derive(Debug, Clone, Copy, PartialEq, Eq)]
pub struct TagTypeMismatchError {
    /// The tag of the family that was asked for.
    pub expected: Tag,
    /// The tag that the object has.
    pub got: Tag,
}

/// Why a tagged object could not be taken for an identifier of one family.
#[derive(Debug, Clone, Copy, PartialEq, Eq)]
pub enum TaggedObjectConversionError {
    /// The tag byte stands for no tag.
    UnknownTag(UnknownTagError<u8>),
    /// The tag is that of another family.
    TagTypeMismatch(TagTypeMismatchError),
}

impl From<UnknownTagError<u8>> for TaggedObjectConversionError {
    fn from(error: UnknownTagError<u8>) -> (r: Self) {
        TaggedObjectConversionError::UnknownTag(error)
    }
}

impl FromSpecImpl<UnknownTagError<u8>> for TaggedObjectConversionError {
    open spec fn obeys_from_spec() -> bool {
        true
    }

    open spec fn from_spec(error: UnknownTagError<u8>) -> Self {
        TaggedObjectConversionError::UnknownTag(error)
    }
}

impl From<TagTypeMismatchError> for TaggedObjectConversionError {
    fn from(error: TagTypeMismatchError) -> (r: Self) {
        TaggedObjectConversionError::TagTypeMismatch(error)
    }
}

impl FromSpecImpl<TagTypeMismatchError> for TaggedObjectConversionError {
    open spec fn obeys_from_spec() -> bool {
        true
    }

    open spec fn from_spec(error: TagTypeMismatchError) -> Self {
        TaggedObjectConversionError::TagTypeMismatch(error)
    }
}

/// An object identifier together with the tag that says of which family it is.
#[derive(Debug, Copy, Clone, Eq, PartialEq, Hash)]
pub struct TaggedObjectId(Tag, Id<Unknown>);

impl TaggedObjectId {
    /// The tag that this tagged object holds.
    pub closed spec fn spec_tag(&self) -> Tag {
        self.0
    }

    /// The number of the identifier that this tagged object holds.
    pub closed spec fn value(&self) -> u64 {
        self.1.value()
    }

    /// The tagged object with the given tag and number.
    pub closed spec fn of(tag: Tag, id: u64) -> Self {
        TaggedObjectId(tag, Id::of(id))
    }

    /// A tagged object is known by its tag and its number.
    pub broadcast proof fn lemma_of_parts(tag: Tag, id: u64)
        ensures
            (#[trigger] Self::of(tag, id)).spec_tag() == tag,
            Self::of(tag, id).value() == id,
    {
    }

    /// Two tagged objects with the same tag and number are the same.
    pub proof fn lemma_parts_of(self)
        ensures
            Self::of(self.spec_tag(), self.value()) == self,
    {
    }

    /// Whether `tag` is one of the seven tags that mark an object.
    pub open spec fn is_object_tag(tag: Tag) -> bool {
        tag == Tag::Object || tag == Tag::Array || tag == Tag::String || tag == Tag::Thread
            || tag == Tag::ThreadGroup || tag == Tag::ClassLoader || tag == Tag::ClassObject
    }

    /// Makes a tagged object from its parts. The tag must be one of the seven
    /// that mark an object.
    pub fn new(tag: Tag, id: Id<Unknown>) -> (r: Self)
        requires
            Self::is_object_tag(tag),
        ensures
            r == Self::of(tag, id.value()),
    {
        TaggedObjectId(tag, id)
    }

    /// Gets the tag for this object id.
    #[verifier::when_used_as_spec(spec_tag)]
    pub fn tag(&self) -> (tag: Tag)
        ensures
            tag == self.spec_tag(),
    {
        self.0
    }

    /// Gets the identifier, of no stated family.
    pub fn id(&self) -> (id: Id<Unknown>)
        ensures
            id.value() == self.value(),
    {
        self.1
    }
}

impl PartialOrd for TaggedObjectId {
    /// Tagged objects with the same tag are ordered by their numbers; two
    /// with different tags are not ordered at all.
    fn partial_cmp(&self, other: &Self) -> (r: Option<Ordering>) {
        if self.0 == other.0 {
            let mine = self.1.get();
            let theirs = other.1.get();
            if mine < theirs {
                Some(Ordering::Less)
            } else if mine == theirs {
                Some(Ordering::Equal)
            } else {
                Some(Ordering::Greater)
            }
        } else {
            None
        }
    }
}

impl vstd::std_specs::cmp::PartialOrdSpecImpl for TaggedObjectId {
    open spec fn obeys_partial_cmp_spec() -> bool {
        true
    }

    open spec fn partial_cmp_spec(&self, other: &Self) -> Option<Ordering> {
        if self.spec_tag() == other.spec_tag() {
            if self.value() < other.value() {
                Some(Ordering::Less)
            } else if self.value() == other.value() {
                Some(Ordering::Equal)
            } else {
                Some(Ordering::Greater)
            }
        } else {
            None
        }
    }
}

impl<T: TaggedKind> From<Id<T>> for TaggedObjectId {
    /// Tags an identifier with the tag of its family.
    fn from(value: Id<T>) -> (r: Self) {
        TaggedObjectId(T::tag(), Id(value.0, PhantomData))
    }
}

impl<T: TaggedKind> FromSpecImpl<Id<T>> for TaggedObjectId {
    open spec fn obeys_from_spec() -> bool {
        true
    }

    open spec fn from_spec(value: Id<T>) -> Self {
        TaggedObjectId::of(T::spec_tag(), value.value())
    }
}

impl<T: TaggedKind> TryFrom<TaggedObjectId> for Id<T> {
    type Error = TagTypeMismatchError;

    /// Takes a tagged object for an identifier of the family `T`, which
    /// succeeds exactly when its tag is that of `T`.
    fn try_from(value: TaggedObjectId) -> (r: Result<Self, Self::Error>) {
        let expected = T::tag();
        if value.0 == expected {
            Ok(Id(value.1.0, PhantomData))
        } else {
            Err(TagTypeMismatchError { expected, got: value.0 })
        }
    }
}

impl<T: TaggedKind> TryFromSpecImpl<TaggedObjectId> for Id<T> {
    open spec fn obeys_try_from_spec() -> bool {
        true
    }

    open spec fn try_from_spec(value: TaggedObjectId) -> Result<Self, Self::Error> {
        if value.spec_tag() == T::spec_tag() {
            Ok(Id::of(value.value()))
        } else {
            Err(TagTypeMismatchError { expected: T::spec_tag(), got: value.spec_tag() })
        }
    }
}

} // verus!
