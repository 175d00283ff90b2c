use ioctl::codec::ioc;
use ioctl::codec::ioc_dir;
use ioctl::codec::ioc_in;
use ioctl::codec::ioc_inout;
use ioctl::codec::ioc_nr;
use ioctl::codec::ioc_out;
use ioctl::codec::ioc_size;
use ioctl::codec::ioc_type;
use ioctl::codec::ior;
use ioctl::codec::iorw;
use ioctl::codec::iow;
use ioctl::codec::size_mask;
use ioctl::layout::ArchClass;

#[test]
fn round_trip_generic() {
    let w = ioc(ArchClass::Generic, 2, 0x54, 0x12, 4);
    assert_eq!(ioc_dir(ArchClass::Generic, w), 2);
    assert_eq!(ioc_type(ArchClass::Generic, w), 0x54);
    assert_eq!(ioc_nr(ArchClass::Generic, w), 0x12);
    assert_eq!(ioc_size(ArchClass::Generic, w), 4);
}

#[test]
fn round_trip_mips_powerpc() {
    let w = ioc(ArchClass::MipsPowerpc, 4, 0xab, 0xcd, 0x123);
    assert_eq!(ioc_dir(ArchClass::MipsPowerpc, w), 4);
    assert_eq!(ioc_type(ArchClass::MipsPowerpc, w), 0xab);
    assert_eq!(ioc_nr(ArchClass::MipsPowerpc, w), 0xcd);
    assert_eq!(ioc_size(ArchClass::MipsPowerpc, w), 0x123);
}

#[test]
fn round_trip_largest_fields() {
    let w = ioc(ArchClass::Generic, 3, 0xff, 0xff, 0x3fff);
    assert_eq!(ioc_dir(ArchClass::Generic, w), 3);
    assert_eq!(ioc_type(ArchClass::Generic, w), 0xff);
    assert_eq!(ioc_nr(ArchClass::Generic, w), 0xff);
    assert_eq!(ioc_size(ArchClass::Generic, w), 0x3fff);

    let w = ioc(ArchClass::MipsPowerpc, 7, 0xff, 0xff, 0x1fff);
    assert_eq!(ioc_dir(ArchClass::MipsPowerpc, w), 7);
    assert_eq!(ioc_type(ArchClass::MipsPowerpc, w), 0xff);
    assert_eq!(ioc_nr(ArchClass::MipsPowerpc, w), 0xff);
    assert_eq!(ioc_size(ArchClass::MipsPowerpc, w), 0x1fff);
}

#[test]
fn round_trip_zero_fields() {
    let w = ioc(ArchClass::Generic, 0, 0, 0, 0);
    assert_eq!(w, 0);
    assert_eq!(ioc_dir(ArchClass::Generic, w), 0);
    assert_eq!(ioc_type(ArchClass::Generic, w), 0);
    assert_eq!(ioc_nr(ArchClass::Generic, w), 0);
    assert_eq!(ioc_size(ArchClass::Generic, w), 0);
}

#[test]
fn read_command_concrete_scenario() {
    let w = ior(ArchClass::Generic, 0x54, 0x12, 4);
    assert_eq!(w, (2u32 << (8 + 8 + 14)) | (0x54u32 << 8) | (0x12u32 << 0) | (4u32 << 16));
    assert_eq!(w, 0x8004_5412);
    assert_eq!(ioc_dir(ArchClass::Generic, w), 2);
    assert_eq!(ioc_type(ArchClass::Generic, w), 0x54);
    assert_eq!(ioc_nr(ArchClass::Generic, w), 0x12);
    assert_eq!(ioc_size(ArchClass::Generic, w), 4);
}

#[test]
fn direction_composition_generic() {
    assert_eq!(ioc_dir(ArchClass::Generic, ior(ArchClass::Generic, 1, 2, 3)), 2);
    assert_eq!(ioc_dir(ArchClass::Generic, iow(ArchClass::Generic, 1, 2, 3)), 1);
    assert_eq!(ioc_dir(ArchClass::Generic, iorw(ArchClass::Generic, 1, 2, 3)), 2 | 1);
}

#[test]
fn direction_composition_mips_powerpc() {
    assert_eq!(ioc_dir(ArchClass::MipsPowerpc, ior(ArchClass::MipsPowerpc, 1, 2, 3)), 2);
    assert_eq!(ioc_dir(ArchClass::MipsPowerpc, iow(ArchClass::MipsPowerpc, 1, 2, 3)), 4);
    assert_eq!(ioc_dir(ArchClass::MipsPowerpc, iorw(ArchClass::MipsPowerpc, 1, 2, 3)), 2 | 4);
}

#[test]
fn field_disjointness_number_change() {
    let a = ArchClass::Generic;
    let w1 = ioc(a, 2, 0x54, 0x12, 4);
    let w2 = ioc(a, 2, 0x54, 0x13, 4);
    // only the number field's bits differ
    assert_eq!(w1 & !0xffu32, w2 & !0xffu32);
    assert_eq!(ioc_dir(a, w1), ioc_dir(a, w2));
    assert_eq!(ioc_type(a, w1), ioc_type(a, w2));
    assert_eq!(ioc_size(a, w1), ioc_size(a, w2));
    assert_ne!(ioc_nr(a, w1), ioc_nr(a, w2));
}

#[test]
fn field_disjointness_size_change() {
    let a = ArchClass::MipsPowerpc;
    let w1 = ioc(a, 4, 0x54, 0x12, 4);
    let w2 = ioc(a, 4, 0x54, 0x12, 0x1fff);
    // only the size field's bits differ
    assert_eq!(w1 & !size_mask(a), w2 & !size_mask(a));
    assert_eq!(ioc_dir(a, w1), ioc_dir(a, w2));
    assert_eq!(ioc_type(a, w1), ioc_type(a, w2));
    assert_eq!(ioc_nr(a, w1), ioc_nr(a, w2));
    assert_ne!(ioc_size(a, w1), ioc_size(a, w2));
}

#[test]
fn size_mask_isolates_in_place() {
    let w: u32 = 0xdead_beef;
    assert_eq!(w & size_mask(ArchClass::Generic), ioc_size(ArchClass::Generic, w) << 16);
    assert_eq!(w & size_mask(ArchClass::MipsPowerpc), ioc_size(ArchClass::MipsPowerpc, w) << 16);
}

#[test]
fn size_mask_values() {
    assert_eq!(size_mask(ArchClass::Generic), 0x3fff_0000);
    assert_eq!(size_mask(ArchClass::MipsPowerpc), 0x1fff_0000);
}

#[test]
fn direction_masks_in_place_generic() {
    assert_eq!(ioc_in(ArchClass::Generic), 1u32 << 30);
    assert_eq!(ioc_out(ArchClass::Generic), 2u32 << 30);
    assert_eq!(ioc_inout(ArchClass::Generic), 3u32 << 30);
}

#[test]
fn direction_masks_in_place_mips_powerpc() {
    assert_eq!(ioc_in(ArchClass::MipsPowerpc), 4u32 << 29);
    assert_eq!(ioc_out(ArchClass::MipsPowerpc), 2u32 << 29);
    assert_eq!(ioc_inout(ArchClass::MipsPowerpc), 6u32 << 29);
}
