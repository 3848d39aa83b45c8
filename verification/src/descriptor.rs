//! Segment descriptors: one 64-bit table entry whose base address and
//! segment limit are composite fields, reassembled from non-contiguous
//! sub-ranges of the entry.

use vstd::prelude::*;

use crate::field::{comp_read, comp_write, parts_wf, range_read, range_write, read_composite,
    read_range, total_width, write_composite, write_range, low_mask, BitField, BitRange,
    CompositeField};

verus! {

/// One descriptor-table entry.
pub struct Descriptor {
    pub(crate) data: u64,
}

/// The task-state-segment descriptor kinds.
pub enum TssDescriptor {
    Available16bit,
    Available32bit,
    Busy32bit,
}

/// The system-descriptor kinds.
pub enum SystemDescriptor {
    LDT,
    TSS,
    GATE,
}

/// The user-descriptor kinds.
pub enum UserDescriptor {
    Code,
    Data,
}

/// What a descriptor describes.
pub enum DescriptorType {
    User(UserDescriptor),
    System(SystemDescriptor),
}

impl Descriptor {
    /// The entry's raw bits, low word first.
    pub open(crate) spec fn bits(&self) -> u64 {
        self.data
    }

    /// Build an entry from its two words.
    pub fn new(low: u32, high: u32) -> (d: Descriptor)
        ensures
            d.bits() == (low + high * 0x1_0000_0000u64) as u64,
    {
        Descriptor { data: crate::msr::combine_words(low, high) }
    }

    /// The entry's raw bits.
    pub fn raw(&self) -> (v: u64)
        ensures
            v == self.bits(),
    {
        self.data
    }

    /// Read a single-range field out of the entry.
    pub fn read_field(&self, f: &BitField) -> (v: u64)
        requires
            f.wf(64),
        ensures
            v == range_read(self.bits(), f.range),
    {
        read_range(self.data, f.range)
    }

    /// Write a single-range field into the entry.
    pub fn write_field(&mut self, f: &BitField, value: u64)
        requires
            f.wf(64),
            f.writable,
            value <= low_mask(f.range.width),
        ensures
            final(self).bits() == range_write(old(self).bits(), f.range, value),
    {
        self.data = write_range(self.data, f.range, value);
    }

    /// Reset a single-range field to its architectural default, leaving
    /// the rest of the entry untouched.
    pub fn revert_field(&mut self, f: &BitField)
        requires
            f.wf(64),
            f.writable,
        ensures
            final(self).bits() == range_write(old(self).bits(), f.range, f.default),
    {
        let d = f.default;
        self.data = write_range(self.data, f.range, d);
    }

    /// Read a composite field: each sub-range in turn, the first occupying
    /// the lowest bits of the value.
    pub fn read_composite(&self, f: &CompositeField) -> (v: u64)
        requires
            f.wf(64),
        ensures
            v == comp_read(self.bits(), f.parts@),
    {
        read_composite(self.data, f)
    }

    /// Write a composite field: the low bits of the value into the first
    /// sub-range, the next bits into the next.
    pub fn write_composite(&mut self, f: &CompositeField, value: u64)
        requires
            f.wf(64),
            f.writable,
        ensures
            final(self).bits() == comp_write(old(self).bits(), f.parts@, value),
    {
        self.data = write_composite(self.data, f, value);
    }

    /// Reset a composite field's sub-ranges to their architectural default
    /// of zero.
    pub fn revert_composite(&mut self, f: &CompositeField)
        requires
            f.wf(64),
            f.writable,
        ensures
            final(self).bits() == comp_write(old(self).bits(), f.parts@, 0),
    {
        self.data = write_composite(self.data, f, 0);
    }
}

/// The sub-ranges of the base-address composite, low part first.
pub open spec fn base_address_parts() -> Seq<BitRange> {
    seq![
        BitRange { lo: 16, width: 16 },
        BitRange { lo: 32, width: 8 },
        BitRange { lo: 56, width: 8 },
    ]
}

/// The sub-ranges of the segment-limit composite, low part first.
pub open spec fn seg_limit_parts() -> Seq<BitRange> {
    seq![BitRange { lo: 0, width: 16 }, BitRange { lo: 48, width: 4 }]
}

/// The base-address sub-ranges are disjoint, lie in the entry, and carry
/// a 32-bit value.
pub proof fn lemma_base_address_wf()
    ensures
        parts_wf(base_address_parts(), 64),
        total_width(base_address_parts()) == 32,
{
    let s = base_address_parts();
    let s1 = s.drop_first();
    let s2 = s1.drop_first();
    let s3 = s2.drop_first();
    assert(s1[0] == s[1] && s1[1] == s[2]);
    assert(s2[0] == s1[1]);
    assert(s3.len() == 0);
    assert(total_width(s3) == 0);
    assert(total_width(s2) == 8);
    assert(total_width(s1) == 16);
    assert(total_width(s) == 32);
    assert((low_mask(16) << 16u64) & (low_mask(8) << 32u64) == 0 && (low_mask(16) << 16u64) & (
    low_mask(8) << 56u64) == 0 && (low_mask(8) << 32u64) & (low_mask(8) << 56u64)
        == 0) by (bit_vector);
    assert forall|i: int, j: int| 0 <= i < j < s.len() implies (#[trigger] s[i]).mask() & (
    #[trigger] s[j]).mask() == 0 by {
        if i == 0 && j == 1 {
            assert(s[0].mask() == low_mask(16) << 16u64);
            assert(s[1].mask() == low_mask(8) << 32u64);
        } else if i == 0 && j == 2 {
            assert(s[0].mask() == low_mask(16) << 16u64);
            assert(s[2].mask() == low_mask(8) << 56u64);
        } else {
            assert(i == 1 && j == 2);
            assert(s[1].mask() == low_mask(8) << 32u64);
            assert(s[2].mask() == low_mask(8) << 56u64);
        }
    }
}

/// The segment-limit sub-ranges are disjoint, lie in the entry, and carry
/// a 20-bit value.
pub proof fn lemma_seg_limit_wf()
    ensures
        parts_wf(seg_limit_parts(), 64),
        total_width(seg_limit_parts()) == 20,
{
    let s = seg_limit_parts();
    let s1 = s.drop_first();
    let s2 = s1.drop_first();
    assert(s1[0] == s[1]);
    assert(s2.len() == 0);
    assert(total_width(s2) == 0);
    assert(total_width(s1) == 4);
    assert(total_width(s) == 20);
    assert(low_mask(16) & (low_mask(4) << 48u64) == 0) by (bit_vector);
    assert forall|i: int, j: int| 0 <= i < j < s.len() implies (#[trigger] s[i]).mask() & (
    #[trigger] s[j]).mask() == 0 by {
        assert(i == 0 && j == 1);
        assert(s[0].mask() == low_mask(16) << 0u64);
        assert(s[1].mask() == low_mask(4) << 48u64);
        assert((low_mask(16) << 0u64) == low_mask(16)) by (bit_vector);
    }
}

/// The base-address composite: a 32-bit address reassembled from three
/// non-contiguous sub-ranges of the entry.
pub struct BaseAddress;

impl BaseAddress {
    pub fn field() -> (f: CompositeField)
        ensures
            f.parts@ == base_address_parts(),
            f.writable,
            f.wf(64),
    {
        proof {
            lemma_base_address_wf();
        }
        let mut parts: Vec<BitRange> = Vec::new();
        parts.push(BitRange { lo: 16, width: 16 });
        parts.push(BitRange { lo: 32, width: 8 });
        parts.push(BitRange { lo: 56, width: 8 });
        proof {
            assert(parts@ =~= base_address_parts());
        }
        CompositeField { parts, writable: true }
    }

    /// Read the reassembled base address out of an entry.
    pub fn read(buffer: &Descriptor) -> (v: u64)
        ensures
            v == comp_read(buffer.bits(), base_address_parts()),
    {
        buffer.read_composite(&Self::field())
    }

    /// Scatter a base address across the entry's sub-ranges.
    pub fn write(buffer: &mut Descriptor, value: u64)
        ensures
            final(buffer).bits() == comp_write(old(buffer).bits(), base_address_parts(), value),
    {
        buffer.write_composite(&Self::field(), value)
    }

    /// Reset the base address's sub-ranges to their default of zero.
    pub fn revert(buffer: &mut Descriptor)
        ensures
            final(buffer).bits() == comp_write(old(buffer).bits(), base_address_parts(), 0),
    {
        buffer.revert_composite(&Self::field())
    }
}

/// The segment-limit composite: a 20-bit limit reassembled from two
/// non-contiguous sub-ranges of the entry.
pub struct SegLimit;

impl SegLimit {
    pub fn field() -> (f: CompositeField)
        ensures
            f.parts@ == seg_limit_parts(),
            f.writable,
            f.wf(64),
    {
        proof {
            lemma_seg_limit_wf();
        }
        let mut parts: Vec<BitRange> = Vec::new();
        parts.push(BitRange { lo: 0, width: 16 });
        parts.push(BitRange { lo: 48, width: 4 });
        proof {
            assert(parts@ =~= seg_limit_parts());
        }
        CompositeField { parts, writable: true }
    }

    /// Read the reassembled segment limit out of an entry.
    pub fn read(buffer: &Descriptor) -> (v: u64)
        ensures
            v == comp_read(buffer.bits(), seg_limit_parts()),
    {
        buffer.read_composite(&Self::field())
    }

    /// Scatter a segment limit across the entry's sub-ranges.
    pub fn write(buffer: &mut Descriptor, value: u64)
        ensures
            final(buffer).bits() == comp_write(old(buffer).bits(), seg_limit_parts(), value),
    {
        buffer.write_composite(&Self::field(), value)
    }

    /// Reset the segment limit's sub-ranges to their default of zero.
    pub fn revert(buffer: &mut Descriptor)
        ensures
            final(buffer).bits() == comp_write(old(buffer).bits(), seg_limit_parts(), 0),
    {
        buffer.revert_composite(&Self::field())
    }
}

} // verus!
