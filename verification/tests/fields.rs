//! The bit-field engine on concrete words: round trips, masking, reverts,
//! and the composite descriptors of a segment-descriptor entry.

use arch_reg::descriptor::{BaseAddress, Descriptor, SegLimit};
use arch_reg::field::{read_composite, read_range, write_composite, write_range, BitField,
    BitRange, CompositeField};

#[test]
fn single_range_round_trip() {
    let r = BitRange { lo: 12, width: 8 };
    let w = 0xdead_beef_cafe_f00du64;
    let w2 = write_range(w, r, 0xa5);
    assert_eq!(read_range(w2, r), 0xa5);
    // every bit outside the range is untouched
    let mask = 0xffu64 << 12;
    assert_eq!(w2 & !mask, w & !mask);
}

#[test]
fn flag_write_and_read() {
    let f = BitField::flag(31);
    let w2 = write_range(0, f.range, 1);
    assert_eq!(w2, 0x8000_0000);
    assert_eq!(read_range(w2, f.range), 1);
    let w3 = write_range(w2, f.range, 0);
    assert_eq!(w3, 0);
}

#[test]
fn small_field_round_trip() {
    let r = BitRange { lo: 0, width: 4 };
    let w = write_range(0, r, 0xf);
    assert_eq!(w, 0xf);
    assert_eq!(read_range(w, r), 0xf);
}

#[test]
fn full_width_field() {
    let r = BitRange { lo: 0, width: 64 };
    let w = write_range(0x1234, r, 0xffff_ffff_ffff_ffff);
    assert_eq!(w, u64::MAX);
    assert_eq!(read_range(w, r), u64::MAX);
}

#[test]
fn revert_resets_only_the_field() {
    let r = BitRange { lo: 8, width: 8 };
    let w = 0xffff_ffff_ffff_ffffu64;
    // the architectural default of the shipped descriptors is zero
    let w2 = write_range(w, r, 0);
    assert_eq!(w2, 0xffff_ffff_ffff_00ffu64);
    assert_eq!(read_range(w2, r), 0);
}

#[test]
fn composite_base_address_round_trip() {
    let mut d = Descriptor::new(0, 0);
    // a value spanning exactly the low sub-range
    BaseAddress::write(&mut d, 0x0000_ffff);
    assert_eq!(BaseAddress::read(&d), 0x0000_ffff);
    // a value spanning exactly the middle sub-range
    BaseAddress::write(&mut d, 0x00ff_0000);
    assert_eq!(BaseAddress::read(&d), 0x00ff_0000);
    // a value spanning exactly the high sub-range
    BaseAddress::write(&mut d, 0xff00_0000);
    assert_eq!(BaseAddress::read(&d), 0xff00_0000);
    // a mixed value
    BaseAddress::write(&mut d, 0x1234_5678);
    assert_eq!(BaseAddress::read(&d), 0x1234_5678);
}

#[test]
fn composite_base_address_placement() {
    let mut d = Descriptor::new(0, 0);
    BaseAddress::write(&mut d, 0x1234_5678);
    // low sixteen bits at entry bits 16..32, next eight at 32..40,
    // high eight at 56..64
    assert_eq!(d.raw(), 0x1200_0034_5678_0000u64);
}

#[test]
fn composite_seg_limit_round_trip() {
    let mut d = Descriptor::new(0, 0);
    SegLimit::write(&mut d, 0x000ff);
    assert_eq!(SegLimit::read(&d), 0x000ff);
    SegLimit::write(&mut d, 0xf0000);
    assert_eq!(SegLimit::read(&d), 0xf0000);
    SegLimit::write(&mut d, 0xfffff);
    assert_eq!(SegLimit::read(&d), 0xfffff);
    assert_eq!(d.raw(), 0x000f_0000_0000_ffffu64);
}

#[test]
fn composite_write_leaves_other_fields() {
    let mut d = Descriptor::new(0xffff_ffff, 0xffff_ffff);
    BaseAddress::write(&mut d, 0);
    // the base-address sub-ranges are cleared, all else stays set
    assert_eq!(d.raw(), 0x00ff_ff00_0000_ffffu64);
    assert_eq!(SegLimit::read(&d), 0xfffff);
}

#[test]
fn composite_revert() {
    let mut d = Descriptor::new(0xffff_ffff, 0xffff_ffff);
    BaseAddress::revert(&mut d);
    assert_eq!(BaseAddress::read(&d), 0);
    assert_eq!(SegLimit::read(&d), 0xfffff);
}

#[test]
fn custom_composite() {
    // a twelve-bit value split across two nibble-and-byte sub-ranges
    let f = CompositeField {
        parts: vec![BitRange { lo: 4, width: 4 }, BitRange { lo: 16, width: 8 }],
        writable: true,
    };
    let w = write_composite(0, &f, 0xabc);
    assert_eq!(w, 0x00ab_00c0);
    assert_eq!(read_composite(w, &f), 0xabc);
}

#[test]
fn descriptor_single_fields() {
    let mut d = Descriptor::new(0, 0);
    // the present bit of a descriptor entry sits at bit 47
    let present = BitField::flag(47);
    d.write_field(&present, 1);
    assert_eq!(d.read_field(&present), 1);
    assert_eq!(d.raw(), 1u64 << 47);
    d.revert_field(&present);
    assert_eq!(d.raw(), 0);
}
