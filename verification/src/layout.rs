//! The per-architecture bit-layout table: field widths, shift amounts,
//! masks and direction-flag values for device-control command words.

use vstd::prelude::*;

verus! {

/// Width in bits of the command-number field; the same on every
/// architecture class.
pub const NRBITS: u32 = 8;

/// Width in bits of the type field; the same on every architecture class.
pub const TYPEBITS: u32 = 8;

/// Shift of the command-number field: it sits in the lowest bits.
pub const NRSHIFT: u32 = 0;

/// Shift of the type field: just above the number field.
pub const TYPESHIFT: u32 = 8;

/// Shift of the size field: just above the type field.
pub const SIZESHIFT: u32 = 16;

/// Mask that isolates the command-number field once shifted down.
pub const NRMASK: u32 = 0xff;

/// Mask that isolates the type field once shifted down.
pub const TYPEMASK: u32 = 0xff;

/// The two kernel command-word layouts that Unix-family architectures use.
/// Any architecture that is not MIPS- or PowerPC-family follows the
/// generic (x86/ARM-style) layout.
#[derive(Clone, Copy, PartialEq, Eq, Structural, Debug)]
pub enum ArchClass {
    /// The layout of x86, ARM and every other non-MIPS, non-PowerPC family:
    /// a 14-bit size field and a 2-bit direction field.
    Generic,
    /// The layout of the MIPS and PowerPC families: a 13-bit size field and
    /// a 3-bit direction field.
    MipsPowerpc,
}

impl ArchClass {
    /// Width in bits of the size field.
    pub open spec fn spec_sizebits(self) -> u32 {
        match self {
            ArchClass::Generic => 14,
            ArchClass::MipsPowerpc => 13,
        }
    }

    /// Width in bits of the size field.
    #[verifier::when_used_as_spec(spec_sizebits)]
    pub fn sizebits(self) -> (r: u32)
        ensures
            r == self.spec_sizebits(),
    {
        match self {
            ArchClass::Generic => 14,
            ArchClass::MipsPowerpc => 13,
        }
    }

    /// Width in bits of the direction field.
    pub open spec fn spec_dirbits(self) -> u32 {
        match self {
            ArchClass::Generic => 2,
            ArchClass::MipsPowerpc => 3,
        }
    }

    /// Width in bits of the direction field.
    #[verifier::when_used_as_spec(spec_dirbits)]
    pub fn dirbits(self) -> (r: u32)
        ensures
            r == self.spec_dirbits(),
    {
        match self {
            ArchClass::Generic => 2,
            ArchClass::MipsPowerpc => 3,
        }
    }

    /// Direction flag of a command that moves no data.
    pub open spec fn spec_dir_none(self) -> u32 {
        match self {
            ArchClass::Generic => 0,
            ArchClass::MipsPowerpc => 1,
        }
    }

    /// Direction flag of a command that moves no data.
    #[verifier::when_used_as_spec(spec_dir_none)]
    pub fn dir_none(self) -> (r: u32)
        ensures
            r == self.spec_dir_none(),
    {
        match self {
            ArchClass::Generic => 0,
            ArchClass::MipsPowerpc => 1,
        }
    }

    /// Direction flag of a command that reads data out of the kernel.
    pub open spec fn spec_dir_read(self) -> u32 {
        match self {
            ArchClass::Generic => 2,
            ArchClass::MipsPowerpc => 2,
        }
    }

    /// Direction flag of a command that reads data out of the kernel.
    #[verifier::when_used_as_spec(spec_dir_read)]
    pub fn dir_read(self) -> (r: u32)
        ensures
            r == self.spec_dir_read(),
    {
        match self {
            ArchClass::Generic => 2,
            ArchClass::MipsPowerpc => 2,
        }
    }

    /// Direction flag of a command that writes data into the kernel.
    pub open spec fn spec_dir_write(self) -> u32 {
        match self {
            ArchClass::Generic => 1,
            ArchClass::MipsPowerpc => 4,
        }
    }

    /// Direction flag of a command that writes data into the kernel.
    #[verifier::when_used_as_spec(spec_dir_write)]
    pub fn dir_write(self) -> (r: u32)
        ensures
            r == self.spec_dir_write(),
    {
        match self {
            ArchClass::Generic => 1,
            ArchClass::MipsPowerpc => 4,
        }
    }

    /// Shift of the direction field: just above the size field, so it
    /// equals `SIZESHIFT` plus the size-field width.
    pub open spec fn spec_dirshift(self) -> u32 {
        match self {
            ArchClass::Generic => 30,
            ArchClass::MipsPowerpc => 29,
        }
    }

    /// Shift of the direction field: just above the size field.
    #[verifier::when_used_as_spec(spec_dirshift)]
    pub fn dirshift(self) -> (r: u32)
        ensures
            r == self.spec_dirshift(),
    {
        match self {
            ArchClass::Generic => 30,
            ArchClass::MipsPowerpc => 29,
        }
    }

    /// Mask that isolates the size field once shifted down.
    pub open spec fn spec_sizemask(self) -> u32 {
        match self {
            ArchClass::Generic => 0x3fff,
            ArchClass::MipsPowerpc => 0x1fff,
        }
    }

    /// Mask that isolates the size field once shifted down.
    #[verifier::when_used_as_spec(spec_sizemask)]
    pub fn sizemask(self) -> (r: u32)
        ensures
            r == self.spec_sizemask(),
    {
        match self {
            ArchClass::Generic => 0x3fff,
            ArchClass::MipsPowerpc => 0x1fff,
        }
    }

    /// Mask that isolates the direction field once shifted down.
    pub open spec fn spec_dirmask(self) -> u32 {
        match self {
            ArchClass::Generic => 0x3,
            ArchClass::MipsPowerpc => 0x7,
        }
    }

    /// Mask that isolates the direction field once shifted down.
    #[verifier::when_used_as_spec(spec_dirmask)]
    pub fn dirmask(self) -> (r: u32)
        ensures
            r == self.spec_dirmask(),
    {
        match self {
            ArchClass::Generic => 0x3,
            ArchClass::MipsPowerpc => 0x7,
        }
    }
}

/// The derivation contract of the layout table: the shifts stack the four
/// fields contiguously from the least-significant bit, each mask is one
/// less than two to the field's width, and the widths fill the 32-bit word
/// exactly.
pub proof fn lemma_layout_derivation(a: ArchClass)
    ensures
        NRSHIFT == 0,
        TYPESHIFT == NRSHIFT + NRBITS,
        SIZESHIFT == TYPESHIFT + TYPEBITS,
        a.spec_dirshift() == SIZESHIFT + a.spec_sizebits(),
        NRBITS + TYPEBITS + a.spec_sizebits() + a.spec_dirbits() == 32,
        NRMASK + 1 == (1u32 << NRBITS),
        TYPEMASK + 1 == (1u32 << TYPEBITS),
        a.spec_sizemask() + 1 == (1u32 << a.spec_sizebits()),
        a.spec_dirmask() + 1 == (1u32 << a.spec_dirbits()),
{
    assert(1u32 << 8u32 == 0x100) by (bit_vector);
    match a {
        ArchClass::Generic => {
            assert(1u32 << 14u32 == 0x4000 && 1u32 << 2u32 == 4) by (bit_vector);
        },
        ArchClass::MipsPowerpc => {
            assert(1u32 << 13u32 == 0x2000 && 1u32 << 3u32 == 8) by (bit_vector);
        },
    }
}

/// The architecture-table values themselves: the generic class uses
/// `none = 0`, `read = 2`, `write = 1` with a 14-bit size field and a
/// 2-bit direction field; the MIPS/PowerPC class uses `none = 1`,
/// `read = 2`, `write = 4` with a 13-bit size field and a 3-bit direction
/// field.
pub proof fn lemma_arch_table_selection()
    ensures
        ArchClass::Generic.spec_dir_none() == 0,
        ArchClass::Generic.spec_dir_read() == 2,
        ArchClass::Generic.spec_dir_write() == 1,
        ArchClass::Generic.spec_sizebits() == 14,
        ArchClass::Generic.spec_dirbits() == 2,
        ArchClass::MipsPowerpc.spec_dir_none() == 1,
        ArchClass::MipsPowerpc.spec_dir_read() == 2,
        ArchClass::MipsPowerpc.spec_dir_write() == 4,
        ArchClass::MipsPowerpc.spec_sizebits() == 13,
        ArchClass::MipsPowerpc.spec_dirbits() == 3,
{
}

} // verus!
