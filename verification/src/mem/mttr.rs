//! The memory-type-range registers: layout tables for the capability word,
//! the variable-range base and mask pair, and the default-type word, with
//! the memory-type encoding they share.

use vstd::prelude::*;

use crate::field::{range_read, range_write, read_range, write_range, low_mask, BitField,
    BitRange};

verus! {

/// The fixed-range registers covering the four-kilobyte granularity span,
/// by model-specific-register address.
pub struct MtrrFix4K;

impl MtrrFix4K {
    pub const LOW_REG_ADDR: u32 = 0x0267;

    pub const TOP_REG_ADDR: u32 = 0x026f;
}

/// A memory type, as the range registers encode it.
pub struct MemType {
    pub(crate) data: u8,
}

impl MemType {
    /// The encoded type.
    pub open(crate) spec fn value(&self) -> u8 {
        self.data
    }

    /// The encoded type, for storing into a range register's type field.
    pub fn code(&self) -> (v: u8)
        ensures
            v == self.value(),
    {
        self.data
    }

    /// ### Uncacheable
    ///
    /// No caching, no write combining, no speculative access.
    pub fn uc() -> (t: MemType)
        ensures
            t.value() == 0x00,
    {
        MemType { data: 0x00 }
    }

    /// ### Write-Combining
    ///
    /// No caching; write combining and speculative access allowed.
    pub fn wc() -> (t: MemType)
        ensures
            t.value() == 0x01,
    {
        MemType { data: 0x01 }
    }

    /// ### Writethrough
    ///
    /// Read misses allocate a cache line; write hits update cache and
    /// main memory; write misses do not allocate.
    pub fn wt() -> (t: MemType)
        ensures
            t.value() == 0x04,
    {
        MemType { data: 0x04 }
    }

    /// ### Write-Protect
    ///
    /// Read misses allocate; writes go to main memory and invalidate the
    /// cache line.
    pub fn wp() -> (t: MemType)
        ensures
            t.value() == 0x05,
    {
        MemType { data: 0x05 }
    }

    /// ### Writeback
    ///
    /// Read and write misses allocate; modified lines are written back to
    /// memory when evicted.
    pub fn wb() -> (t: MemType)
        ensures
            t.value() == 0x06,
    {
        MemType { data: 0x06 }
    }
}

/// The capability word: which range-register features the processor has.
pub struct MtrrCapBuffer {
    pub(crate) data: u64,
}

/// A variable-range base word: the range's base address and memory type.
pub struct MtrrPhysBaseBuffer {
    pub(crate) data: u64,
}

/// A variable-range mask word: the range's address mask and valid bit.
pub struct MtrrPhysMaskBuffer {
    pub(crate) data: u64,
}

/// The default-type word: the memory type outside every range, and the
/// global enables.
pub struct MtrrDefaultTypeBuffer {
    pub(crate) data: u64,
}

impl MtrrCapBuffer {
    pub open(crate) spec fn bits(&self) -> u64 {
        self.data
    }

    pub fn new(data: u64) -> (b: MtrrCapBuffer)
        ensures
            b.bits() == data,
    {
        MtrrCapBuffer { data }
    }

    /// Read a bit-field out of the word.
    pub fn read(&self, f: &BitField) -> (v: u64)
        requires
            f.wf(64),
        ensures
            v == range_read(self.bits(), f.range),
    {
        read_range(self.data, f.range)
    }

    /// Whether write-combining is supported: capability bit ten.
    pub fn supports_wc(&self) -> (b: bool)
        ensures
            b == (range_read(self.bits(), (BitRange { lo: 10, width: 1 })) == 1),
    {
        read_range(self.data, BitRange { lo: 10, width: 1 }) == 1
    }

    /// Whether the fixed ranges are supported: capability bit eight.
    pub fn supports_fix(&self) -> (b: bool)
        ensures
            b == (range_read(self.bits(), (BitRange { lo: 8, width: 1 })) == 1),
    {
        read_range(self.data, BitRange { lo: 8, width: 1 }) == 1
    }

    /// How many variable ranges the processor has: the low eight bits.
    pub fn variable_range_count(&self) -> (v: u64)
        ensures
            v == range_read(self.bits(), (BitRange { lo: 0, width: 8 })),
    {
        read_range(self.data, BitRange { lo: 0, width: 8 })
    }
}

impl MtrrPhysBaseBuffer {
    pub open(crate) spec fn bits(&self) -> u64 {
        self.data
    }

    pub fn new(data: u64) -> (b: MtrrPhysBaseBuffer)
        ensures
            b.bits() == data,
    {
        MtrrPhysBaseBuffer { data }
    }

    /// Read a bit-field out of the word.
    pub fn read(&self, f: &BitField) -> (v: u64)
        requires
            f.wf(64),
        ensures
            v == range_read(self.bits(), f.range),
    {
        read_range(self.data, f.range)
    }

    /// Write a bit-field into the word.
    pub fn write(&mut self, f: &BitField, value: u64)
        requires
            f.wf(64),
            f.writable,
            value <= low_mask(f.range.width),
        ensures
            final(self).bits() == range_write(old(self).bits(), f.range, value),
    {
        self.data = write_range(self.data, f.range, value);
    }

    /// The range's memory type: the low eight bits.
    pub fn mem_type(&self) -> (t: MemType)
        ensures
            t.value() as u64 == range_read(self.bits(), (BitRange { lo: 0, width: 8 })),
    {
        proof {
            crate::field::lemma_low_mask_values();
        }
        let v = read_range(self.data, BitRange { lo: 0, width: 8 });
        MemType { data: v as u8 }
    }

    /// Set the range's memory type.
    pub fn set_mem_type(&mut self, t: &MemType)
        ensures
            final(self).bits() == range_write(
                old(self).bits(),
                (BitRange { lo: 0, width: 8 }),
                t.value() as u64,
            ),
    {
        proof {
            crate::field::lemma_low_mask_values();
        }
        let v = t.code();
        self.data = write_range(self.data, BitRange { lo: 0, width: 8 }, v as u64);
    }
}

impl MtrrPhysMaskBuffer {
    pub open(crate) spec fn bits(&self) -> u64 {
        self.data
    }

    pub fn new(data: u64) -> (b: MtrrPhysMaskBuffer)
        ensures
            b.bits() == data,
    {
        MtrrPhysMaskBuffer { data }
    }

    /// Read a bit-field out of the word.
    pub fn read(&self, f: &BitField) -> (v: u64)
        requires
            f.wf(64),
        ensures
            v == range_read(self.bits(), f.range),
    {
        read_range(self.data, f.range)
    }

    /// Write a bit-field into the word.
    pub fn write(&mut self, f: &BitField, value: u64)
        requires
            f.wf(64),
            f.writable,
            value <= low_mask(f.range.width),
        ensures
            final(self).bits() == range_write(old(self).bits(), f.range, value),
    {
        self.data = write_range(self.data, f.range, value);
    }
}

impl MtrrDefaultTypeBuffer {
    pub open(crate) spec fn bits(&self) -> u64 {
        self.data
    }

    pub fn new(data: u64) -> (b: MtrrDefaultTypeBuffer)
        ensures
            b.bits() == data,
    {
        MtrrDefaultTypeBuffer { data }
    }

    /// Read a bit-field out of the word.
    pub fn read(&self, f: &BitField) -> (v: u64)
        requires
            f.wf(64),
        ensures
            v == range_read(self.bits(), f.range),
    {
        read_range(self.data, f.range)
    }

    /// Write a bit-field into the word.
    pub fn write(&mut self, f: &BitField, value: u64)
        requires
            f.wf(64),
            f.writable,
            value <= low_mask(f.range.width),
        ensures
            final(self).bits() == range_write(old(self).bits(), f.range, value),
    {
        self.data = write_range(self.data, f.range, value);
    }

    /// The default memory type: the low eight bits.
    pub fn mem_type(&self) -> (t: MemType)
        ensures
            t.value() as u64 == range_read(self.bits(), (BitRange { lo: 0, width: 8 })),
    {
        proof {
            crate::field::lemma_low_mask_values();
        }
        let v = read_range(self.data, BitRange { lo: 0, width: 8 });
        MemType { data: v as u8 }
    }

    /// Set the default memory type.
    pub fn set_mem_type(&mut self, t: &MemType)
        ensures
            final(self).bits() == range_write(
                old(self).bits(),
                (BitRange { lo: 0, width: 8 }),
                t.value() as u64,
            ),
    {
        proof {
            crate::field::lemma_low_mask_values();
        }
        let v = t.code();
        self.data = write_range(self.data, BitRange { lo: 0, width: 8 }, v as u64);
    }
}

/// The memory-type field of a base or default-type word: the low eight
/// bits.
pub struct Type;

impl Type {
    pub fn field() -> (f: BitField)
        ensures
            f == (BitField { range: (BitRange { lo: 0, width: 8 }), writable: true, default: 0 }),
    {
        BitField::rw(0, 8)
    }
}

/// The variable range's base-address field: bits twelve to fifty-one, a
/// four-kilobyte-aligned physical address without its low twelve bits.
pub struct PhysBase;

impl PhysBase {
    pub fn field() -> (f: BitField)
        ensures
            f == (BitField { range: (BitRange { lo: 12, width: 40 }), writable: true, default: 0 }),
    {
        BitField::rw(12, 40)
    }
}

/// ### The variable range's address-mask field
///
/// Anded with both the base and a target address; the range covers the
/// addresses where the two products agree.
pub struct PhysMask;

impl PhysMask {
    pub fn field() -> (f: BitField)
        ensures
            f == (BitField { range: (BitRange { lo: 12, width: 40 }), writable: true, default: 0 }),
    {
        BitField::rw(12, 40)
    }
}

/// The variable range's valid bit.
pub struct V;

impl V {
    pub fn field() -> (f: BitField)
        ensures
            f == (BitField { range: (BitRange { lo: 11, width: 1 }), writable: true, default: 0 }),
    {
        BitField::flag(11)
    }
}

/// ### Range-register enable bit
///
/// Set to enable every fixed and variable range; clear to disable them
/// all, leaving the uncacheable type everywhere.
pub struct E;

impl E {
    pub fn field() -> (f: BitField)
        ensures
            f == (BitField { range: (BitRange { lo: 11, width: 1 }), writable: true, default: 0 }),
    {
        BitField::flag(11)
    }
}

/// ### Fixed-range enable bit
///
/// Set to enable the fixed ranges; the variable ranges are unaffected.
pub struct FE;

impl FE {
    pub fn field() -> (f: BitField)
        ensures
            f == (BitField { range: (BitRange { lo: 10, width: 1 }), writable: true, default: 0 }),
    {
        BitField::flag(10)
    }
}

} // verus!
