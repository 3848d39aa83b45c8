//! # The system-configuration register
//!
//! A 32-bit model-specific register holding memory-system enables. The
//! snapshot occupies a single permit slot, so at most one live snapshot of
//! the register exists per execution context.

use vstd::prelude::*;

use crate::field::{range_read, range_write, read_range, write_range, low_mask, BitField,
    BitRange};
use crate::machine::Machine;
use crate::msr::{Msr, SYSCFG_ADDR};

verus! {

/// The system-configuration register.
pub struct Syscfg;

/// The in-memory snapshot of the register's 32 bits.
pub struct SyscfgBuffer {
    pub(crate) data: u64,
}

impl Syscfg {
    /// Snapshot the register through the model-specific-register read.
    /// Succeeds exactly when no other snapshot is live.
    pub fn buffer(m: &mut Machine) -> (r: Option<SyscfgBuffer>)
        ensures
            r.is_some() <==> !old(m).syscfg_buffer_taken,
            r.is_some() ==> *final(m) == (Machine { syscfg_buffer_taken: true, ..*old(m) }),
            r.is_none() ==> *final(m) == *old(m),
            match r {
                Some(b) => b.wf() && b.bits() == range_read(
                    old(m).syscfg,
                    (BitRange { lo: 0, width: 32 }),
                ),
                None => true,
            },
    {
        if m.syscfg_buffer_taken {
            return None;
        }
        m.syscfg_buffer_taken = true;
        let msr = Msr::inst_uncheck();
        let word = msr.read(m, SYSCFG_ADDR);
        let data = read_range(word, BitRange { lo: 0, width: 32 });
        Some(SyscfgBuffer { data })
    }
}

impl SyscfgBuffer {
    /// The snapshot's raw bits.
    pub open(crate) spec fn bits(&self) -> u64 {
        self.data
    }

    /// The snapshot fits the register's 32 bits.
    pub open(crate) spec fn wf(&self) -> bool {
        self.data <= low_mask(32)
    }

    /// Read a bit-field out of the snapshot.
    pub fn read(&self, f: &BitField) -> (v: u64)
        requires
            f.wf(32),
        ensures
            v == range_read(self.bits(), f.range),
    {
        read_range(self.data, f.range)
    }

    /// Write a bit-field locally; only `flush` reaches the register.
    pub fn write(&mut self, f: &BitField, value: u64)
        requires
            old(self).wf(),
            f.wf(32),
            f.writable,
            value <= low_mask(f.range.width),
        ensures
            final(self).wf(),
            final(self).bits() == range_write(old(self).bits(), f.range, value),
    {
        proof {
            crate::field::lemma_write_fits(self.data, f.range, value, 32);
        }
        self.data = write_range(self.data, f.range, value);
    }

    /// Commit the snapshot through the model-specific-register write.
    pub fn flush(&self, m: &mut Machine)
        requires
            self.wf(),
        ensures
            *final(m) == (Machine { syscfg: self.bits(), ..*old(m) }),
    {
        proof {
            crate::field::lemma_low_mask_values();
        }
        let mut msr = Msr::inst_uncheck();
        let low = self.data as u32;
        msr.write(m, SYSCFG_ADDR, low, 0);
    }

    /// Give the snapshot up and return its permit to the machine's slot.
    pub fn release(self, m: &mut Machine)
        ensures
            *final(m) == (Machine { syscfg_buffer_taken: false, ..*old(m) }),
    {
        m.syscfg_buffer_taken = false;
    }
}

/// Virtual-machine-privilege-level enable bit.
pub(crate) struct VMPLE;

impl VMPLE {
    pub(crate) fn field() -> (f: BitField)
        ensures
            f == (BitField { range: (BitRange { lo: 25, width: 1 }), writable: true, default: 0 }),
    {
        BitField::flag(25)
    }
}

/// Secure-nested-paging enable bit.
pub(crate) struct SNPE;

impl SNPE {
    pub(crate) fn field() -> (f: BitField)
        ensures
            f == (BitField { range: (BitRange { lo: 24, width: 1 }), writable: true, default: 0 }),
    {
        BitField::flag(24)
    }
}

/// Memory-encryption enable bit.
pub(crate) struct MEME;

impl MEME {
    pub(crate) fn field() -> (f: BitField)
        ensures
            f == (BitField { range: (BitRange { lo: 23, width: 1 }), writable: true, default: 0 }),
    {
        BitField::flag(23)
    }
}

/// Fixed-range write-back enable bit.
pub(crate) struct FWB;

impl FWB {
    pub(crate) fn field() -> (f: BitField)
        ensures
            f == (BitField { range: (BitRange { lo: 22, width: 1 }), writable: true, default: 0 }),
    {
        BitField::flag(22)
    }
}

/// Second top-of-memory enable bit.
pub(crate) struct TOM2;

impl TOM2 {
    pub(crate) fn field() -> (f: BitField)
        ensures
            f == (BitField { range: (BitRange { lo: 21, width: 1 }), writable: true, default: 0 }),
    {
        BitField::flag(21)
    }
}

/// Variable-range dram enable bit.
pub(crate) struct MVDM;

impl MVDM {
    pub(crate) fn field() -> (f: BitField)
        ensures
            f == (BitField { range: (BitRange { lo: 20, width: 1 }), writable: true, default: 0 }),
    {
        BitField::flag(20)
    }
}

/// Fixed-range dram modification bit.
pub(crate) struct MFDM;

impl MFDM {
    pub(crate) fn field() -> (f: BitField)
        ensures
            f == (BitField { range: (BitRange { lo: 19, width: 1 }), writable: true, default: 0 }),
    {
        BitField::flag(19)
    }
}

/// Fixed-range dram enable bit.
pub(crate) struct MFDE;

impl MFDE {
    pub(crate) fn field() -> (f: BitField)
        ensures
            f == (BitField { range: (BitRange { lo: 18, width: 1 }), writable: true, default: 0 }),
    {
        BitField::flag(18)
    }
}

} // verus!
