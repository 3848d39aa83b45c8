//! # The extended-feature-enable register
//!
//! A 32-bit model-specific register, readable and writable only by
//! privileged software, whose bits enable long mode, no-execute protection,
//! and related extensions. The handle and the snapshot each occupy a permit
//! slot.

use vstd::prelude::*;

use crate::cpuid::feature::StdFeature;
use crate::field::{range_read, BitField, BitRange};
use crate::machine::Machine;
use crate::msr::{Msr, EFER_ADDR};
use crate::{Clean, RegBuffer};

verus! {

/// The long-mode-active bit is set in an extended-feature-enable word.
pub open spec fn spec_lma(bits: u64) -> bool {
    range_read(bits, BitRange { lo: 10, width: 1 }) == 1
}

/// The register's low 32 bits: what a snapshot load keeps of the machine's
/// word.
pub open spec fn spec_low32(v: u64) -> u64 {
    range_read(v, BitRange { lo: 0, width: 32 })
}

/// The extended-feature-enable register handle.
pub struct Efer {
    msr: Msr,
}

impl Efer {
    /// What acquiring the handle requires: the model-specific-register
    /// capability's own checks, and the handle's permit in its slot.
    pub open spec fn can_acquire(m: Machine, f: StdFeature) -> bool {
        &&& crate::mem::segment::selector::spec_rpl(m.cs) == 0
        &&& crate::cpuid::feature::spec_support_msr(f)
        &&& !m.efer_taken
    }

    /// Acquire the handle: a single, non-retrying attempt, gated on the
    /// model-specific-register capability.
    pub fn inst(std_feature: &StdFeature, m: &mut Machine) -> (r: Option<Efer>)
        ensures
            r.is_some() <==> Self::can_acquire(*old(m), *std_feature),
            r.is_some() ==> *final(m) == (Machine { efer_taken: true, ..*old(m) }),
            r.is_none() ==> *final(m) == *old(m),
    {
        let msr = match Msr::inst(std_feature, m) {
            Some(msr) => msr,
            None => { return None },
        };
        if m.efer_taken {
            return None;
        }
        m.efer_taken = true;
        Some(Efer { msr })
    }

    /// Acquire the handle without the checks, for callers that have already
    /// checked them.
    pub fn inst_uncheck(m: &mut Machine) -> (r: Option<Efer>)
        ensures
            r.is_some() <==> !old(m).efer_taken,
            r.is_some() ==> *final(m) == (Machine { efer_taken: true, ..*old(m) }),
            r.is_none() ==> *final(m) == *old(m),
    {
        if m.efer_taken {
            return None;
        }
        m.efer_taken = true;
        Some(Efer { msr: Msr::inst_uncheck() })
    }

    /// Load a clean snapshot of the register's 32 bits; the load goes
    /// through the model-specific-register read.
    pub fn buffer(&self, m: &mut Machine) -> (r: Option<Clean<EferBuffer>>)
        ensures
            r.is_some() <==> !old(m).efer_buffer_taken,
            r.is_some() ==> *final(m) == (Machine { efer_buffer_taken: true, ..*old(m) }),
            r.is_none() ==> *final(m) == *old(m),
            match r {
                Some(c) => c.wf() && c.width() == 32 && c.bits() == spec_low32(old(m).efer),
                None => true,
            },
    {
        if m.efer_buffer_taken {
            return None;
        }
        m.efer_buffer_taken = true;
        let word = self.msr.read(m, EFER_ADDR);
        let data = crate::field::read_range(word, BitRange { lo: 0, width: 32 });
        Some(Clean { raw_buffer: EferBuffer { data, msr: self.msr } })
    }

    /// Return the handle's permit to its slot.
    pub fn release(self, m: &mut Machine)
        ensures
            *final(m) == (Machine { efer_taken: false, ..*old(m) }),
    {
        m.efer_taken = false;
    }
}

/// The in-memory snapshot of the register's 32 bits.
pub struct EferBuffer {
    pub(crate) data: u64,
    pub(crate) msr: Msr,
}

impl RegBuffer for EferBuffer {
    open(crate) spec fn width(&self) -> u64 {
        32
    }

    open(crate) spec fn bits(&self) -> u64 {
        self.data
    }

    open(crate) spec fn inv(&self) -> bool {
        self.data <= crate::field::low_mask(32)
    }

    open(crate) spec fn machine_stored(&self, m: Machine) -> Machine {
        Machine { efer: self.data, ..m }
    }

    open(crate) spec fn machine_released(&self, m: Machine) -> Machine {
        Machine { efer_buffer_taken: false, ..m }
    }

    open(crate) spec fn reg_of(&self, m: Machine) -> u64 {
        m.efer
    }

    proof fn inv_bound(&self) {
        crate::field::lemma_low_mask_values();
    }

    fn raw(&self) -> u64 {
        self.data
    }

    fn set_raw(&mut self, v: u64) {
        self.data = v;
    }

    fn store(&self, m: &mut Machine) {
        proof {
            crate::field::lemma_low_mask_values();
        }
        let mut msr = self.msr;
        let low = self.data as u32;
        msr.write(m, EFER_ADDR, low, 0);
    }

    fn release_permit(&self, m: &mut Machine) {
        m.efer_buffer_taken = false;
    }
}

impl Clean<EferBuffer> {
    /// Whether long mode is active: the processor-owned activation bit of
    /// the snapshot.
    pub fn long_mode_activated(&self) -> (b: bool)
        requires
            self.wf(),
        ensures
            b == spec_lma(self.bits()),
    {
        self.read_flag(&LMA::field())
    }
}

/// Interrupt write-buffer enable bit.
pub(crate) struct INTWB;

impl INTWB {
    pub(crate) fn field() -> (f: BitField)
        ensures
            f == (BitField { range: (BitRange { lo: 18, width: 1 }), writable: true, default: 0 }),
    {
        BitField::flag(18)
    }
}

/// Memory-commit instruction enable bit.
pub(crate) struct MCOMMIT;

impl MCOMMIT {
    pub(crate) fn field() -> (f: BitField)
        ensures
            f == (BitField { range: (BitRange { lo: 17, width: 1 }), writable: true, default: 0 }),
    {
        BitField::flag(17)
    }
}

/// Translation-cache-extension enable bit.
pub(crate) struct TCE;

impl TCE {
    pub(crate) fn field() -> (f: BitField)
        ensures
            f == (BitField { range: (BitRange { lo: 15, width: 1 }), writable: true, default: 0 }),
    {
        BitField::flag(15)
    }
}

/// Fast save/restore enable bit.
pub(crate) struct FFXSR;

impl FFXSR {
    pub(crate) fn field() -> (f: BitField)
        ensures
            f == (BitField { range: (BitRange { lo: 14, width: 1 }), writable: true, default: 0 }),
    {
        BitField::flag(14)
    }
}

/// Long-mode segment-limit enable bit.
pub(crate) struct LMSLE;

impl LMSLE {
    pub(crate) fn field() -> (f: BitField)
        ensures
            f == (BitField { range: (BitRange { lo: 13, width: 1 }), writable: true, default: 0 }),
    {
        BitField::flag(13)
    }
}

/// Secure-virtual-machine enable bit.
pub(crate) struct SVME;

impl SVME {
    pub(crate) fn field() -> (f: BitField)
        ensures
            f == (BitField { range: (BitRange { lo: 12, width: 1 }), writable: true, default: 0 }),
    {
        BitField::flag(12)
    }
}

/// No-execute page-protection enable bit.
pub(crate) struct NXE;

impl NXE {
    pub(crate) fn field() -> (f: BitField)
        ensures
            f == (BitField { range: (BitRange { lo: 11, width: 1 }), writable: true, default: 0 }),
    {
        BitField::flag(11)
    }
}

/// Long-mode-active bit.
///
/// The processor maintains it; software writing a value that disagrees
/// with the hardware faults, so this layer treats it as read-only.
pub(crate) struct LMA;

impl LMA {
    pub(crate) fn field() -> (f: BitField)
        ensures
            f == (BitField { range: (BitRange { lo: 10, width: 1 }), writable: false, default: 0 }),
    {
        BitField::flag_ro(10)
    }
}

/// Long-mode enable bit: the capability to activate long mode, which
/// paging then actually activates.
pub(crate) struct LME;

impl LME {
    pub(crate) fn field() -> (f: BitField)
        ensures
            f == (BitField { range: (BitRange { lo: 8, width: 1 }), writable: true, default: 0 }),
    {
        BitField::flag(8)
    }
}

/// System-call-extension enable bit.
pub(crate) struct SCE;

impl SCE {
    pub(crate) fn field() -> (f: BitField)
        ensures
            f == (BitField { range: (BitRange { lo: 0, width: 1 }), writable: true, default: 0 }),
    {
        BitField::flag(0)
    }
}

} // verus!
