//! The families of identifiers. Each is a type without values that marks an
//! [`Id`](crate::ids::Id), so that an identifier of one family is never taken
//! for one of another.

use crate::constants::Tag;
use crate::id_sizes::IdSizes;
use vstd::prelude::*;

verus! {

/// A family of identifiers: it knows which width of the table its
/// identifiers are written in.
pub trait Identifiable: Sized {
    /// The width, in bytes, of an identifier of this family under `sizes`.
    spec fn width(sizes: IdSizes) -> nat;

    /// The width, in bytes, of an identifier of this family under `sizes`;
    /// it lies between 1 and 8 where every width of `sizes` does.
    fn id_width(sizes: &IdSizes) -> (w: usize)
        ensures
            w == Self::width(*sizes),
            sizes.valid() ==> 1 <= w <= 8,
    ;
}

/// A family of object identifiers that a tag byte tells apart.
pub trait TaggedKind: Identifiable {
    /// The tag that marks an object of this family.
    spec fn spec_tag() -> Tag;

    /// The tag that marks an object of this family.
    fn tag() -> (tag: Tag)
        ensures
            tag == Self::spec_tag(),
    ;
}

/// An object of a family that only a tag tells.
#[derive(Debug, Copy, Clone, Ord, PartialOrd, Eq, PartialEq, Hash)]
pub struct Unknown;

impl Identifiable for Unknown {
    open spec fn width(sizes: IdSizes) -> nat {
        sizes.object_width()
    }

    fn id_width(sizes: &IdSizes) -> (w: usize) {
        sizes.object_id_size()
    }
}

/// Any object of the target VM.
#[derive(Debug, Copy, Clone, Ord, PartialOrd, Eq, PartialEq, Hash)]
pub struct Object;

impl Identifiable for Object {
    open spec fn width(sizes: IdSizes) -> nat {
        sizes.object_width()
    }

    fn id_width(sizes: &IdSizes) -> (w: usize) {
        sizes.object_id_size()
    }
}

impl TaggedKind for Object {
    open spec fn spec_tag() -> Tag {
        Tag::Object
    }

    fn tag() -> (tag: Tag) {
        Tag::Object
    }
}

/// An object that is a thread.
#[derive(Debug, Copy, Clone, Ord, PartialOrd, Eq, PartialEq, Hash)]
pub struct Thread;

impl Identifiable for Thread {
    open spec fn width(sizes: IdSizes) -> nat {
        sizes.object_width()
    }

    fn id_width(sizes: &IdSizes) -> (w: usize) {
        sizes.object_id_size()
    }
}

impl TaggedKind for Thread {
    open spec fn spec_tag() -> Tag {
        Tag::Thread
    }

    fn tag() -> (tag: Tag) {
        Tag::Thread
    }
}

/// An object that is a thread group.
#[derive(Debug, Copy, Clone, Ord, PartialOrd, Eq, PartialEq, Hash)]
pub struct ThreadGroup;

impl Identifiable for ThreadGroup {
    open spec fn width(sizes: IdSizes) -> nat {
        sizes.object_width()
    }

    fn id_width(sizes: &IdSizes) -> (w: usize) {
        sizes.object_id_size()
    }
}

impl TaggedKind for ThreadGroup {
    open spec fn spec_tag() -> Tag {
        Tag::ThreadGroup
    }

    fn tag() -> (tag: Tag) {
        Tag::ThreadGroup
    }
}

/// An object that is a string.
#[derive(Debug, Copy, Clone, Ord, PartialOrd, Eq, PartialEq, Hash)]
pub struct String;

impl Identifiable for String {
    open spec fn width(sizes: IdSizes) -> nat {
        sizes.object_width()
    }

    fn id_width(sizes: &IdSizes) -> (w: usize) {
        sizes.object_id_size()
    }
}

impl TaggedKind for String {
    open spec fn spec_tag() -> Tag {
        Tag::String
    }

    fn tag() -> (tag: Tag) {
        Tag::String
    }
}

/// An object that is a class loader.
#[derive(Debug, Copy, Clone, Ord, PartialOrd, Eq, PartialEq, Hash)]
pub struct ClassLoader;

impl Identifiable for ClassLoader {
    open spec fn width(sizes: IdSizes) -> nat {
        sizes.object_width()
    }

    fn id_width(sizes: &IdSizes) -> (w: usize) {
        sizes.object_id_size()
    }
}

impl TaggedKind for ClassLoader {
    open spec fn spec_tag() -> Tag {
        Tag::ClassLoader
    }

    fn tag() -> (tag: Tag) {
        Tag::ClassLoader
    }
}

/// An object that is a class object.
#[derive(Debug, Copy, Clone, Ord, PartialOrd, Eq, PartialEq, Hash)]
pub struct ClassObject;

impl Identifiable for ClassObject {
    open spec fn width(sizes: IdSizes) -> nat {
        sizes.object_width()
    }

    fn id_width(sizes: &IdSizes) -> (w: usize) {
        sizes.object_id_size()
    }
}

impl TaggedKind for ClassObject {
    open spec fn spec_tag() -> Tag {
        Tag::ClassObject
    }

    fn tag() -> (tag: Tag) {
        Tag::ClassObject
    }
}

/// An object that is an array.
#[derive(Debug, Copy, Clone, Ord, PartialOrd, Eq, PartialEq, Hash)]
pub struct Array;

impl Identifiable for Array {
    open spec fn width(sizes: IdSizes) -> nat {
        sizes.object_width()
    }

    fn id_width(sizes: &IdSizes) -> (w: usize) {
        sizes.object_id_size()
    }
}

impl TaggedKind for Array {
    open spec fn spec_tag() -> Tag {
        Tag::Array
    }

    fn tag() -> (tag: Tag) {
        Tag::Array
    }
}

/// A reference type.
#[derive(Debug, Copy, Clone, Ord, PartialOrd, Eq, PartialEq, Hash)]
pub struct ReferenceType;

impl Identifiable for ReferenceType {
    open spec fn width(sizes: IdSizes) -> nat {
        sizes.object_width()
    }

    fn id_width(sizes: &IdSizes) -> (w: usize) {
        sizes.object_id_size()
    }
}

/// A reference type that is a class.
#[derive(Debug, Copy, Clone, Ord, PartialOrd, Eq, PartialEq, Hash)]
pub struct Class;

impl Identifiable for Class {
    open spec fn width(sizes: IdSizes) -> nat {
        sizes.object_width()
    }

    fn id_width(sizes: &IdSizes) -> (w: usize) {
        sizes.object_id_size()
    }
}

/// A reference type that is an interface.
#[derive(Debug, Copy, Clone, Ord, PartialOrd, Eq, PartialEq, Hash)]
pub struct Interface;

impl Identifiable for Interface {
    open spec fn width(sizes: IdSizes) -> nat {
        sizes.object_width()
    }

    fn id_width(sizes: &IdSizes) -> (w: usize) {
        sizes.object_id_size()
    }
}

/// A reference type that is an array type.
#[derive(Debug, Copy, Clone, Ord, PartialOrd, Eq, PartialEq, Hash)]
pub struct ArrayType;

impl Identifiable for ArrayType {
    open spec fn width(sizes: IdSizes) -> nat {
        sizes.object_width()
    }

    fn id_width(sizes: &IdSizes) -> (w: usize) {
        sizes.object_id_size()
    }
}

/// A method of some class.
#[derive(Debug, Copy, Clone, Ord, PartialOrd, Eq, PartialEq, Hash)]
pub struct Method;

impl Identifiable for Method {
    open spec fn width(sizes: IdSizes) -> nat {
        sizes.method_width()
    }

    fn id_width(sizes: &IdSizes) -> (w: usize) {
        sizes.method_id_size()
    }
}

/// A field of some class.
#[derive(Debug, Copy, Clone, Ord, PartialOrd, Eq, PartialEq, Hash)]
pub struct Field;

impl Identifiable for Field {
    open spec fn width(sizes: IdSizes) -> nat {
        sizes.field_width()
    }

    fn id_width(sizes: &IdSizes) -> (w: usize) {
        sizes.field_id_size()
    }
}

/// A frame of some thread's stack.
#[derive(Debug, Copy, Clone, Ord, PartialOrd, Eq, PartialEq, Hash)]
pub struct Frame;

impl Identifiable for Frame {
    open spec fn width(sizes: IdSizes) -> nat {
        sizes.frame_width()
    }

    fn id_width(sizes: &IdSizes) -> (w: usize) {
        sizes.frame_id_size()
    }
}

} // verus!
