//! The widths, in bytes, of the identifiers of one connection.

use vstd::prelude::*;

verus! {

/// How many bytes an identifier of each family takes on the wire. The target
/// VM reports the widths once per connection; each lies between 1 and 8.
#[derive(Debug, Copy, Clone)]
pub struct IdSizes {
    object_id_size: usize,
    method_id_size: usize,
    field_id_size: usize,
    frame_id_size: usize,
}

impl IdSizes {
    /// The width of object identifiers, and of reference type identifiers.
    pub closed spec fn object_width(&self) -> nat {
        self.object_id_size as nat
    }

    /// The width of method identifiers.
    pub closed spec fn method_width(&self) -> nat {
        self.method_id_size as nat
    }

    /// The width of field identifiers.
    pub closed spec fn field_width(&self) -> nat {
        self.field_id_size as nat
    }

    /// The width of frame identifiers.
    pub closed spec fn frame_width(&self) -> nat {
        self.frame_id_size as nat
    }

    /// Every width lies between 1 and 8, so that an identifier fits in 64 bits.
    pub open spec fn valid(&self) -> bool {
        &&& 1 <= self.object_width() <= 8
        &&& 1 <= self.method_width() <= 8
        &&& 1 <= self.field_width() <= 8
        &&& 1 <= self.frame_width() <= 8
    }

    /// A table with the given widths.
    pub fn new(
        object_id_size: usize,
        method_id_size: usize,
        field_id_size: usize,
        frame_id_size: usize,
    ) -> (sizes: Self)
        ensures
            sizes.object_width() == object_id_size,
            sizes.method_width() == method_id_size,
            sizes.field_width() == field_id_size,
            sizes.frame_width() == frame_id_size,
    {
        Self { object_id_size, method_id_size, field_id_size, frame_id_size }
    }

    /// The size (in bytes) of object ids.
    pub fn object_id_size(&self) -> (size: usize)
        ensures
            size == self.object_width(),
    {
        self.object_id_size
    }

    /// The size (in bytes) of method ids.
    pub fn method_id_size(&self) -> (size: usize)
        ensures
            size == self.method_width(),
    {
        self.method_id_size
    }

    /// The size (in bytes) of field ids.
    pub fn field_id_size(&self) -> (size: usize)
        ensures
            size == self.field_width(),
    {
        self.field_id_size
    }

    /// The size (in bytes) of frame ids.
    pub fn frame_id_size(&self) -> (size: usize)
        ensures
            size == self.frame_width(),
    {
        self.frame_id_size
    }

    /// Whether every width lies between 1 and 8.
    pub fn is_valid(&self) -> (ok: bool)
        ensures
            ok == self.valid(),
    {
        1 <= self.object_id_size && self.object_id_size <= 8 && 1 <= self.method_id_size
            && self.method_id_size <= 8 && 1 <= self.field_id_size && self.field_id_size <= 8
            && 1 <= self.frame_id_size && self.frame_id_size <= 8
    }
}

impl Default for IdSizes {
    /// The table in force before the target VM has reported its own: every
    /// identifier takes eight bytes.
    fn default() -> (sizes: Self)
        ensures
            sizes.object_width() == 8,
            sizes.method_width() == 8,
            sizes.field_width() == 8,
            sizes.frame_width() == 8,
            sizes.valid(),
    {
        Self { object_id_size: 8, method_id_size: 8, field_id_size: 8, frame_id_size: 8 }
    }
}

} // verus!
