//! The typed-wrapper contract: for each supported call shape — read,
//! write or read-write access, with a fixed-size or variable-length
//! payload — the one command word that a generated wrapper must hand to
//! the device-control primitive.
//!
//! Issuing the call itself is outside this library: a wrapper passes the
//! word computed here, together with the caller's handle and payload
//! buffer, straight to the external primitive and returns its raw result
//! unchanged.

use vstd::prelude::*;

use crate::codec::ioc;
use crate::codec::spec_ioc;
use crate::layout::ArchClass;

verus! {

/// The access mode of a device-control call: which way the payload moves.
#[derive(Clone, Copy, PartialEq, Eq, Structural, Debug)]
pub enum AccessMode {
    /// The call reads data out of the kernel into the payload.
    Read,
    /// The call writes the payload's data into the kernel.
    Write,
    /// The call both writes the payload in and reads the answer back.
    ReadWrite,
}

impl AccessMode {
    /// The direction flags that this access mode packs into the word.
    pub open spec fn spec_direction(self, a: ArchClass) -> u32 {
        match self {
            AccessMode::Read => a.spec_dir_read(),
            AccessMode::Write => a.spec_dir_write(),
            AccessMode::ReadWrite => a.spec_dir_read() | a.spec_dir_write(),
        }
    }

    /// The direction flags that this access mode packs into the word.
    #[verifier::when_used_as_spec(spec_direction)]
    pub fn direction(self, a: ArchClass) -> (r: u32)
        ensures
            r == self.spec_direction(a),
    {
        match self {
            AccessMode::Read => a.dir_read(),
            AccessMode::Write => a.dir_write(),
            AccessMode::ReadWrite => a.dir_read() | a.dir_write(),
        }
    }
}

/// Where the size field of a wrapped call comes from: the byte size of a
/// fixed payload type, or an explicit length the caller supplies for a
/// variable-length buffer.
#[derive(Clone, Copy, PartialEq, Eq, Structural, Debug)]
pub enum PayloadDesc {
    /// A payload of one statically sized value; the field holds that
    /// type's byte size.
    Fixed {
        /// The byte size of the payload type.
        byte_size: u32,
    },
    /// A variable-length buffer; the field holds the caller's byte length.
    Buffer {
        /// The byte length the caller supplies.
        len: u32,
    },
}

impl PayloadDesc {
    /// The value that goes into the size field for this payload.
    pub open spec fn spec_size(self) -> u32 {
        match self {
            PayloadDesc::Fixed { byte_size } => byte_size,
            PayloadDesc::Buffer { len } => len,
        }
    }

    /// The value that goes into the size field for this payload.
    #[verifier::when_used_as_spec(spec_size)]
    pub fn size(self) -> (r: u32)
        ensures
            r == self.spec_size(),
    {
        match self {
            PayloadDesc::Fixed { byte_size } => byte_size,
            PayloadDesc::Buffer { len } => len,
        }
    }
}

/// The command word of a wrapped call: the mode's direction flags, the
/// wrapper's type identifier and command number, and the payload's size,
/// packed under the given architecture class.
pub fn command_word(a: ArchClass, mode: AccessMode, ty: u32, nr: u32, payload: PayloadDesc) -> (w:
    u32)
    ensures
        w == spec_ioc(a, mode.spec_direction(a), ty, nr, payload.spec_size()),
{
    ioc(a, mode.direction(a), ty, nr, payload.size())
}

} // verus!

