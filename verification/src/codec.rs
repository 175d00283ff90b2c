//! The codec: packing four field values into one 32-bit command word and
//! extracting any field back out of an existing word.

use vstd::prelude::*;

use crate::layout::ArchClass;
use crate::layout::NRMASK;
use crate::layout::NRSHIFT;
use crate::layout::SIZESHIFT;
use crate::layout::TYPEMASK;
use crate::layout::TYPESHIFT;

verus! {

/// The packed command word: each field shifted into its place and the
/// results combined by bitwise or. Total over all inputs; an oversized
/// field value overlaps its neighbours, which is the caller's hazard.
pub open spec fn spec_ioc(a: ArchClass, dir: u32, ty: u32, nr: u32, sz: u32) -> u32 {
    (dir << a.spec_dirshift()) | (ty << TYPESHIFT) | (nr << NRSHIFT) | (sz << SIZESHIFT)
}

/// The direction field of a command word.
pub open spec fn spec_ioc_dir(a: ArchClass, w: u32) -> u32 {
    (w >> a.spec_dirshift()) & a.spec_dirmask()
}

/// The type field of a command word.
pub open spec fn spec_ioc_type(a: ArchClass, w: u32) -> u32 {
    (w >> TYPESHIFT) & TYPEMASK
}

/// The command-number field of a command word.
pub open spec fn spec_ioc_nr(a: ArchClass, w: u32) -> u32 {
    (w >> NRSHIFT) & NRMASK
}

/// The size field of a command word.
pub open spec fn spec_ioc_size(a: ArchClass, w: u32) -> u32 {
    (w >> SIZESHIFT) & a.spec_sizemask()
}

/// Encode a device-control command from direction, type, number and size.
pub fn ioc(a: ArchClass, dir: u32, ty: u32, nr: u32, sz: u32) -> (w: u32)
    ensures
        w == spec_ioc(a, dir, ty, nr, sz),
{
    (dir << a.dirshift()) | (ty << TYPESHIFT) | (nr << NRSHIFT) | (sz << SIZESHIFT)
}

/// Encode a device-control command that reads data out of the kernel.
pub fn ior(a: ArchClass, ty: u32, nr: u32, sz: u32) -> (w: u32)
    ensures
        w == spec_ioc(a, a.spec_dir_read(), ty, nr, sz),
{
    ioc(a, a.dir_read(), ty, nr, sz)
}

/// Encode a device-control command that writes data into the kernel.
pub fn iow(a: ArchClass, ty: u32, nr: u32, sz: u32) -> (w: u32)
    ensures
        w == spec_ioc(a, a.spec_dir_write(), ty, nr, sz),
{
    ioc(a, a.dir_write(), ty, nr, sz)
}

/// Encode a device-control command that both reads and writes.
pub fn iorw(a: ArchClass, ty: u32, nr: u32, sz: u32) -> (w: u32)
    ensures
        w == spec_ioc(a, a.spec_dir_read() | a.spec_dir_write(), ty, nr, sz),
{
    ioc(a, a.dir_read() | a.dir_write(), ty, nr, sz)
}

/// Extracts the direction (read/write/none) from an encoded command.
pub fn ioc_dir(a: ArchClass, nr: u32) -> (r: u8)
    ensures
        r == spec_ioc_dir(a, nr),
{
    let sh: u32 = a.dirshift();
    let m: u32 = a.dirmask();
    let shifted: u32 = (nr >> sh) & m;
    proof {
        assert((nr >> sh) & m <= m) by (bit_vector);
    }
    shifted as u8
}

/// Extracts the type from an encoded command.
pub fn ioc_type(a: ArchClass, nr: u32) -> (r: u32)
    ensures
        r == spec_ioc_type(a, nr),
{
    (nr >> TYPESHIFT) & TYPEMASK
}

/// Extracts the command number from an encoded command.
pub fn ioc_nr(a: ArchClass, nr: u32) -> (r: u32)
    ensures
        r == spec_ioc_nr(a, nr),
{
    (nr >> NRSHIFT) & NRMASK
}

/// Extracts the size from an encoded command.
pub fn ioc_size(a: ArchClass, nr: u32) -> (r: u32)
    ensures
        r == spec_ioc_size(a, nr),
{
    (nr >> SIZESHIFT) & a.sizemask()
}

/// The write flag shifted into the direction field, for masking a word's
/// direction in place.
pub open spec fn spec_ioc_in(a: ArchClass) -> u32 {
    a.spec_dir_write() << a.spec_dirshift()
}

/// The write flag shifted into the direction field.
pub fn ioc_in(a: ArchClass) -> (r: u32)
    ensures
        r == spec_ioc_in(a),
{
    a.dir_write() << a.dirshift()
}

/// The read flag shifted into the direction field.
pub open spec fn spec_ioc_out(a: ArchClass) -> u32 {
    a.spec_dir_read() << a.spec_dirshift()
}

/// The read flag shifted into the direction field.
pub fn ioc_out(a: ArchClass) -> (r: u32)
    ensures
        r == spec_ioc_out(a),
{
    a.dir_read() << a.dirshift()
}

/// The combined read and write flags shifted into the direction field.
pub open spec fn spec_ioc_inout(a: ArchClass) -> u32 {
    (a.spec_dir_read() | a.spec_dir_write()) << a.spec_dirshift()
}

/// The combined read and write flags shifted into the direction field.
pub fn ioc_inout(a: ArchClass) -> (r: u32)
    ensures
        r == spec_ioc_inout(a),
{
    (a.dir_read() | a.dir_write()) << a.dirshift()
}

/// The size mask shifted into the size field, for isolating a word's size
/// bits in place without shifting them down.
pub open spec fn spec_size_mask(a: ArchClass) -> u32 {
    a.spec_sizemask() << SIZESHIFT
}

/// The size mask shifted into the size field.
pub fn size_mask(a: ArchClass) -> (r: u32)
    ensures
        r == spec_size_mask(a),
{
    a.sizemask() << SIZESHIFT
}

proof fn lemma_round_trip_generic(d: u32, t: u32, n: u32, s: u32)
    by (bit_vector)
    requires
        d < 4u32,
        t < 0x100u32,
        n < 0x100u32,
        s < 0x4000u32,
    ensures
        ((((d << 30u32) | (t << 8u32) | (n << 0u32) | (s << 16u32)) >> 30u32) & 0x3u32) == d,
        ((((d << 30u32) | (t << 8u32) | (n << 0u32) | (s << 16u32)) >> 8u32) & 0xffu32) == t,
        ((((d << 30u32) | (t << 8u32) | (n << 0u32) | (s << 16u32)) >> 0u32) & 0xffu32) == n,
        ((((d << 30u32) | (t << 8u32) | (n << 0u32) | (s << 16u32)) >> 16u32) & 0x3fffu32) == s,
{
}

proof fn lemma_round_trip_mips_powerpc(d: u32, t: u32, n: u32, s: u32)
    by (bit_vector)
    requires
        d < 8u32,
        t < 0x100u32,
        n < 0x100u32,
        s < 0x2000u32,
    ensures
        ((((d << 29u32) | (t << 8u32) | (n << 0u32) | (s << 16u32)) >> 29u32) & 0x7u32) == d,
        ((((d << 29u32) | (t << 8u32) | (n << 0u32) | (s << 16u32)) >> 8u32) & 0xffu32) == t,
        ((((d << 29u32) | (t << 8u32) | (n << 0u32) | (s << 16u32)) >> 0u32) & 0xffu32) == n,
        ((((d << 29u32) | (t << 8u32) | (n << 0u32) | (s << 16u32)) >> 16u32) & 0x1fffu32) == s,
{
}

/// The round-trip law: decoding each field from a packed word returns the
/// value that was packed, for every legal field value (each strictly below
/// two to its field's width).
pub proof fn lemma_round_trip(a: ArchClass, d: u32, t: u32, n: u32, s: u32)
    requires
        d < (1u32 << a.spec_dirbits()),
        t < 0x100,
        n < 0x100,
        s < (1u32 << a.spec_sizebits()),
    ensures
        spec_ioc_dir(a, spec_ioc(a, d, t, n, s)) == d,
        spec_ioc_type(a, spec_ioc(a, d, t, n, s)) == t,
        spec_ioc_nr(a, spec_ioc(a, d, t, n, s)) == n,
        spec_ioc_size(a, spec_ioc(a, d, t, n, s)) == s,
{
    crate::layout::lemma_layout_derivation(a);
    match a {
        ArchClass::Generic => {
            lemma_round_trip_generic(d, t, n, s);
        },
        ArchClass::MipsPowerpc => {
            lemma_round_trip_mips_powerpc(d, t, n, s);
        },
    }
}

proof fn lemma_disjoint_generic(d: u32, d2: u32, t: u32, t2: u32, n: u32, n2: u32, s: u32, s2: u32)
    by (bit_vector)
    requires
        d < 4u32,
        d2 < 4u32,
        t < 0x100u32,
        t2 < 0x100u32,
        n < 0x100u32,
        n2 < 0x100u32,
        s < 0x4000u32,
        s2 < 0x4000u32,
    ensures
        ((d << 30u32) | (t << 8u32) | (n << 0u32) | (s << 16u32)) & !(0x3u32 << 30u32) == ((d2
            << 30u32) | (t << 8u32) | (n << 0u32) | (s << 16u32)) & !(0x3u32 << 30u32),
        ((d << 30u32) | (t << 8u32) | (n << 0u32) | (s << 16u32)) & !(0xffu32 << 8u32) == ((d
            << 30u32) | (t2 << 8u32) | (n << 0u32) | (s << 16u32)) & !(0xffu32 << 8u32),
        ((d << 30u32) | (t << 8u32) | (n << 0u32) | (s << 16u32)) & !(0xffu32 << 0u32) == ((d
            << 30u32) | (t << 8u32) | (n2 << 0u32) | (s << 16u32)) & !(0xffu32 << 0u32),
        ((d << 30u32) | (t << 8u32) | (n << 0u32) | (s << 16u32)) & !(0x3fffu32 << 16u32) == ((d
            << 30u32) | (t << 8u32) | (n << 0u32) | (s2 << 16u32)) & !(0x3fffu32 << 16u32),
{
}

proof fn lemma_disjoint_mips_powerpc(
    d: u32,
    d2: u32,
    t: u32,
    t2: u32,
    n: u32,
    n2: u32,
    s: u32,
    s2: u32,
)
    by (bit_vector)
    requires
        d < 8u32,
        d2 < 8u32,
        t < 0x100u32,
        t2 < 0x100u32,
        n < 0x100u32,
        n2 < 0x100u32,
        s < 0x2000u32,
        s2 < 0x2000u32,
    ensures
        ((d << 29u32) | (t << 8u32) | (n << 0u32) | (s << 16u32)) & !(0x7u32 << 29u32) == ((d2
            << 29u32) | (t << 8u32) | (n << 0u32) | (s << 16u32)) & !(0x7u32 << 29u32),
        ((d << 29u32) | (t << 8u32) | (n << 0u32) | (s << 16u32)) & !(0xffu32 << 8u32) == ((d
            << 29u32) | (t2 << 8u32) | (n << 0u32) | (s << 16u32)) & !(0xffu32 << 8u32),
        ((d << 29u32) | (t << 8u32) | (n << 0u32) | (s << 16u32)) & !(0xffu32 << 0u32) == ((d
            << 29u32) | (t << 8u32) | (n2 << 0u32) | (s << 16u32)) & !(0xffu32 << 0u32),
        ((d << 29u32) | (t << 8u32) | (n << 0u32) | (s << 16u32)) & !(0x1fffu32 << 16u32) == ((d
            << 29u32) | (t << 8u32) | (n << 0u32) | (s2 << 16u32)) & !(0x1fffu32 << 16u32),
{
}

/// Field disjointness for the direction field: changing the packed
/// direction while the other inputs are held fixed leaves every bit
/// outside the direction field unchanged, and the other three decoded
/// fields identical.
pub proof fn lemma_dir_field_disjoint(a: ArchClass, d: u32, d2: u32, t: u32, n: u32, s: u32)
    requires
        d < (1u32 << a.spec_dirbits()),
        d2 < (1u32 << a.spec_dirbits()),
        t < 0x100,
        n < 0x100,
        s < (1u32 << a.spec_sizebits()),
    ensures
        spec_ioc(a, d, t, n, s) & !(a.spec_dirmask() << a.spec_dirshift()) == spec_ioc(
            a,
            d2,
            t,
            n,
            s,
        ) & !(a.spec_dirmask() << a.spec_dirshift()),
        spec_ioc_type(a, spec_ioc(a, d, t, n, s)) == spec_ioc_type(a, spec_ioc(a, d2, t, n, s)),
        spec_ioc_nr(a, spec_ioc(a, d, t, n, s)) == spec_ioc_nr(a, spec_ioc(a, d2, t, n, s)),
        spec_ioc_size(a, spec_ioc(a, d, t, n, s)) == spec_ioc_size(a, spec_ioc(a, d2, t, n, s)),
{
    crate::layout::lemma_layout_derivation(a);
    lemma_round_trip(a, d, t, n, s);
    lemma_round_trip(a, d2, t, n, s);
    match a {
        ArchClass::Generic => {
            lemma_disjoint_generic(d, d2, t, t, n, n, s, s);
        },
        ArchClass::MipsPowerpc => {
            lemma_disjoint_mips_powerpc(d, d2, t, t, n, n, s, s);
        },
    }
}

/// Field disjointness for the type field: changing the packed type while
/// the other inputs are held fixed leaves every bit outside the type field
/// unchanged, and the other three decoded fields identical.
pub proof fn lemma_type_field_disjoint(a: ArchClass, d: u32, t: u32, t2: u32, n: u32, s: u32)
    requires
        d < (1u32 << a.spec_dirbits()),
        t < 0x100,
        t2 < 0x100,
        n < 0x100,
        s < (1u32 << a.spec_sizebits()),
    ensures
        spec_ioc(a, d, t, n, s) & !(TYPEMASK << TYPESHIFT) == spec_ioc(a, d, t2, n, s) & !(TYPEMASK
            << TYPESHIFT),
        spec_ioc_dir(a, spec_ioc(a, d, t, n, s)) == spec_ioc_dir(a, spec_ioc(a, d, t2, n, s)),
        spec_ioc_nr(a, spec_ioc(a, d, t, n, s)) == spec_ioc_nr(a, spec_ioc(a, d, t2, n, s)),
        spec_ioc_size(a, spec_ioc(a, d, t, n, s)) == spec_ioc_size(a, spec_ioc(a, d, t2, n, s)),
{
    crate::layout::lemma_layout_derivation(a);
    lemma_round_trip(a, d, t, n, s);
    lemma_round_trip(a, d, t2, n, s);
    match a {
        ArchClass::Generic => {
            lemma_disjoint_generic(d, d, t, t2, n, n, s, s);
        },
        ArchClass::MipsPowerpc => {
            lemma_disjoint_mips_powerpc(d, d, t, t2, n, n, s, s);
        },
    }
}

/// Field disjointness for the number field: changing the packed command
/// number while the other inputs are held fixed leaves every bit outside
/// the number field unchanged, and the other three decoded fields
/// identical.
pub proof fn lemma_nr_field_disjoint(a: ArchClass, d: u32, t: u32, n: u32, n2: u32, s: u32)
    requires
        d < (1u32 << a.spec_dirbits()),
        t < 0x100,
        n < 0x100,
        n2 < 0x100,
        s < (1u32 << a.spec_sizebits()),
    ensures
        spec_ioc(a, d, t, n, s) & !(NRMASK << NRSHIFT) == spec_ioc(a, d, t, n2, s) & !(NRMASK
            << NRSHIFT),
        spec_ioc_dir(a, spec_ioc(a, d, t, n, s)) == spec_ioc_dir(a, spec_ioc(a, d, t, n2, s)),
        spec_ioc_type(a, spec_ioc(a, d, t, n, s)) == spec_ioc_type(a, spec_ioc(a, d, t, n2, s)),
        spec_ioc_size(a, spec_ioc(a, d, t, n, s)) == spec_ioc_size(a, spec_ioc(a, d, t, n2, s)),
{
    crate::layout::lemma_layout_derivation(a);
    lemma_round_trip(a, d, t, n, s);
    lemma_round_trip(a, d, t, n2, s);
    match a {
        ArchClass::Generic => {
            lemma_disjoint_generic(d, d, t, t, n, n2, s, s);
        },
        ArchClass::MipsPowerpc => {
            lemma_disjoint_mips_powerpc(d, d, t, t, n, n2, s, s);
        },
    }
}

/// Field disjointness for the size field: changing the packed size while
/// the other inputs are held fixed leaves every bit outside the size field
/// unchanged, and the other three decoded fields identical.
pub proof fn lemma_size_field_disjoint(a: ArchClass, d: u32, t: u32, n: u32, s: u32, s2: u32)
    requires
        d < (1u32 << a.spec_dirbits()),
        t < 0x100,
        n < 0x100,
        s < (1u32 << a.spec_sizebits()),
        s2 < (1u32 << a.spec_sizebits()),
    ensures
        spec_ioc(a, d, t, n, s) & !spec_size_mask(a) == spec_ioc(a, d, t, n, s2) & !spec_size_mask(
            a,
        ),
        spec_ioc_dir(a, spec_ioc(a, d, t, n, s)) == spec_ioc_dir(a, spec_ioc(a, d, t, n, s2)),
        spec_ioc_type(a, spec_ioc(a, d, t, n, s)) == spec_ioc_type(a, spec_ioc(a, d, t, n, s2)),
        spec_ioc_nr(a, spec_ioc(a, d, t, n, s)) == spec_ioc_nr(a, spec_ioc(a, d, t, n, s2)),
{
    crate::layout::lemma_layout_derivation(a);
    lemma_round_trip(a, d, t, n, s);
    lemma_round_trip(a, d, t, n, s2);
    match a {
        ArchClass::Generic => {
            lemma_disjoint_generic(d, d, t, t, n, n, s, s2);
        },
        ArchClass::MipsPowerpc => {
            lemma_disjoint_mips_powerpc(d, d, t, t, n, n, s, s2);
        },
    }
}

/// Direction composition: a read command decodes to the read flag, a
/// write command to the write flag, and a read-write command to the two
/// flags combined.
pub proof fn lemma_direction_composition(a: ArchClass, t: u32, n: u32, s: u32)
    requires
        t < 0x100,
        n < 0x100,
        s < (1u32 << a.spec_sizebits()),
    ensures
        spec_ioc_dir(a, spec_ioc(a, a.spec_dir_read(), t, n, s)) == a.spec_dir_read(),
        spec_ioc_dir(a, spec_ioc(a, a.spec_dir_write(), t, n, s)) == a.spec_dir_write(),
        spec_ioc_dir(a, spec_ioc(a, a.spec_dir_read() | a.spec_dir_write(), t, n, s))
            == a.spec_dir_read() | a.spec_dir_write(),
{
    crate::layout::lemma_layout_derivation(a);
    match a {
        ArchClass::Generic => {
            assert(2u32 | 1u32 == 3u32) by (bit_vector);
            lemma_round_trip(a, 2, t, n, s);
            lemma_round_trip(a, 1, t, n, s);
            lemma_round_trip(a, 3, t, n, s);
        },
        ArchClass::MipsPowerpc => {
            assert(2u32 | 4u32 == 6u32) by (bit_vector);
            lemma_round_trip(a, 2, t, n, s);
            lemma_round_trip(a, 4, t, n, s);
            lemma_round_trip(a, 6, t, n, s);
        },
    }
}

/// Mask isolation: masking any word with the in-place size mask yields
/// exactly its size field shifted back into place.
pub proof fn lemma_size_mask_isolation(a: ArchClass, w: u32)
    ensures
        w & spec_size_mask(a) == spec_ioc_size(a, w) << SIZESHIFT,
{
    match a {
        ArchClass::Generic => {
            assert(w & (0x3fffu32 << 16u32) == ((w >> 16u32) & 0x3fffu32) << 16u32)
                by (bit_vector);
        },
        ArchClass::MipsPowerpc => {
            assert(w & (0x1fffu32 << 16u32) == ((w >> 16u32) & 0x1fffu32) << 16u32)
                by (bit_vector);
        },
    }
}

} // verus!
