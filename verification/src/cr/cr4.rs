//! The CR4 control register: per-feature enable bits. Most of its fields
//! should only be enabled after the processor has advertised the matching
//! capability through the feature query.

use vstd::prelude::*;

use crate::cpuid::feature::{spec_support_pcid, StdFeature};
use crate::field::{range_read, range_write, BitField, BitRange};
use crate::machine::Machine;
use crate::mem::segment::cs::Cs;
use crate::mem::segment::selector::{spec_rpl, Privilege};
use crate::msr::efer::{spec_lma, EferBuffer};
use crate::{ArchError, Clean, Dirty, RegBuffer};

verus! {

/// The process-context-identifier enable bit is set in a CR4 word.
pub open spec fn spec_pcide(bits: u64) -> bool {
    range_read(bits, BitRange { lo: 17, width: 1 }) == 1
}

/// The CR4 register handle: holding it proves exclusive access to CR4
/// within the execution context.
pub struct Cr4 {
    _p: (),
}

impl Cr4 {
    /// What acquiring the handle requires: most privileged level, permit in
    /// its slot.
    pub open spec fn can_acquire(m: Machine) -> bool {
        spec_rpl(m.cs) == 0 && !m.cr4_taken
    }

    /// Acquire the CR4 handle: a single, non-retrying attempt.
    pub fn inst(m: &mut Machine) -> (r: Option<Cr4>)
        ensures
            r.is_some() <==> Self::can_acquire(*old(m)),
            r.is_some() ==> *final(m) == (Machine { cr4_taken: true, ..*old(m) }),
            r.is_none() ==> *final(m) == *old(m),
    {
        let cs = Cs::buffer(m);
        if cs.selector.rpl() != Privilege::pl0() {
            return None;
        }
        if m.cr4_taken {
            return None;
        }
        m.cr4_taken = true;
        Some(Cr4 { _p: () })
    }

    /// Acquire the handle without the privilege check, for callers that have
    /// already checked it.
    pub fn inst_uncheck(m: &mut Machine) -> (r: Option<Cr4>)
        ensures
            r.is_some() <==> !old(m).cr4_taken,
            r.is_some() ==> *final(m) == (Machine { cr4_taken: true, ..*old(m) }),
            r.is_none() ==> *final(m) == *old(m),
    {
        if m.cr4_taken {
            return None;
        }
        m.cr4_taken = true;
        Some(Cr4 { _p: () })
    }

    /// Load a clean snapshot of CR4; the platform's privileged read.
    pub fn buffer(&self, m: &mut Machine) -> (r: Option<Clean<Cr4Buffer>>)
        ensures
            r.is_some() <==> !old(m).cr4_buffer_taken,
            r.is_some() ==> *final(m) == (Machine { cr4_buffer_taken: true, ..*old(m) }),
            r.is_none() ==> *final(m) == *old(m),
            match r {
                Some(c) => c.wf() && c.width() == 64 && c.bits() == old(m).cr4,
                None => true,
            },
    {
        if m.cr4_buffer_taken {
            return None;
        }
        m.cr4_buffer_taken = true;
        let data = m.cr4;
        Some(Clean { raw_buffer: Cr4Buffer { data } })
    }

    /// Return the handle's permit to its slot.
    pub fn release(self, m: &mut Machine)
        ensures
            *final(m) == (Machine { cr4_taken: false, ..*old(m) }),
    {
        m.cr4_taken = false;
    }
}

/// The in-memory snapshot of CR4's bits.
pub struct Cr4Buffer {
    pub(crate) data: u64,
}

impl RegBuffer for Cr4Buffer {
    open(crate) spec fn width(&self) -> u64 {
        64
    }

    open(crate) spec fn bits(&self) -> u64 {
        self.data
    }

    open(crate) spec fn inv(&self) -> bool {
        true
    }

    open(crate) spec fn machine_stored(&self, m: Machine) -> Machine {
        Machine { cr4: self.data, ..m }
    }

    open(crate) spec fn machine_released(&self, m: Machine) -> Machine {
        Machine { cr4_buffer_taken: false, ..m }
    }

    open(crate) spec fn reg_of(&self, m: Machine) -> u64 {
        m.cr4
    }

    proof fn inv_bound(&self) {
        crate::field::lemma_low_mask_values();
    }

    fn raw(&self) -> u64 {
        self.data
    }

    fn set_raw(&mut self, v: u64) {
        self.data = v;
    }

    fn store(&self, m: &mut Machine) {
        m.cr4 = self.data;
    }

    fn release_permit(&self, m: &mut Machine) {
        m.cr4_buffer_taken = false;
    }
}

impl Clean<Cr4Buffer> {
    /// Whether process-context identifiers are enabled. Only reliable when
    /// the processor supports the feature at all.
    pub fn pcid_enabled(&self) -> (b: bool)
        requires
            self.wf(),
        ensures
            b == spec_pcide(self.bits()),
    {
        self.read_flag(&PCIDE::field())
    }
}

impl Dirty<Cr4Buffer> {
    /// Set the process-context-identifier enable bit after checking its
    /// two conditions against the evidence the caller passes: long mode must be
    /// active in the extended-feature-enable snapshot, else
    /// [`ArchError::LongModeInactivated`]; the processor must advertise
    /// the feature, else [`ArchError::PcidIsNotSupported`]. On refusal the
    /// snapshot comes back unchanged with the error.
    pub fn enable_pcid(self, efer_buffer: &Clean<EferBuffer>, std_feature: &StdFeature) -> (r:
        Result<Self, (Self, ArchError)>)
        requires
            self.wf(),
            efer_buffer.wf(),
        ensures
            match r {
                Ok(d) => spec_lma(efer_buffer.bits()) && spec_support_pcid(*std_feature) && d.wf()
                    && d.bits() == range_write(self.bits(), (BitRange { lo: 17, width: 1 }), 1),
                Err((d, e)) => d.wf() && d.bits() == self.bits() && ((e
                    == ArchError::LongModeInactivated && !spec_lma(efer_buffer.bits())) || (e
                    == ArchError::PcidIsNotSupported && spec_lma(efer_buffer.bits())
                    && !spec_support_pcid(*std_feature))),
            },
    {
        if !efer_buffer.long_mode_activated() {
            Err((self, ArchError::LongModeInactivated))
        } else if !std_feature.support_pcid() {
            Err((self, ArchError::PcidIsNotSupported))
        } else {
            Ok(self.enable_pcid_uncheck())
        }
    }

    /// Set the process-context-identifier enable bit without re-checking
    /// the conditions; the caller owes the checks that long mode is active and
    /// the processor supports the feature.
    pub fn enable_pcid_uncheck(self) -> (d: Self)
        requires
            self.wf(),
        ensures
            d.wf(),
            d.bits() == range_write(self.bits(), (BitRange { lo: 17, width: 1 }), 1),
    {
        proof {
            crate::field::lemma_low_mask_values();
        }
        self.write(&PCIDE::field(), 1)
    }

    /// Clear the process-context-identifier enable bit without re-checking
    /// the checks.
    pub fn disable_pcid_uncheck(self) -> (d: Self)
        requires
            self.wf(),
        ensures
            d.wf(),
            d.bits() == range_write(self.bits(), (BitRange { lo: 17, width: 1 }), 0),
    {
        proof {
            crate::field::lemma_low_mask_values();
        }
        self.write(&PCIDE::field(), 0)
    }
}

/// Control-flow enforcement enable bit.
pub struct CET;

impl CET {
    pub fn field() -> (f: BitField)
        ensures
            f == (BitField { range: (BitRange { lo: 23, width: 1 }), writable: true, default: 0 }),
    {
        BitField::flag(23)
    }
}

/// Protection-key enable bit.
pub struct PKE;

impl PKE {
    pub fn field() -> (f: BitField)
        ensures
            f == (BitField { range: (BitRange { lo: 22, width: 1 }), writable: true, default: 0 }),
    {
        BitField::flag(22)
    }
}

/// Supervisor-mode access prevention enable bit.
pub struct SMAP;

impl SMAP {
    pub fn field() -> (f: BitField)
        ensures
            f == (BitField { range: (BitRange { lo: 21, width: 1 }), writable: true, default: 0 }),
    {
        BitField::flag(21)
    }
}

/// Supervisor-mode execution prevention enable bit.
pub struct SMEP;

impl SMEP {
    pub fn field() -> (f: BitField)
        ensures
            f == (BitField { range: (BitRange { lo: 20, width: 1 }), writable: true, default: 0 }),
    {
        BitField::flag(20)
    }
}

/// Extended-state save enable bit.
pub struct OSXSAVE;

impl OSXSAVE {
    pub fn field() -> (f: BitField)
        ensures
            f == (BitField { range: (BitRange { lo: 18, width: 1 }), writable: true, default: 0 }),
    {
        BitField::flag(18)
    }
}

/// Process-context-identifier enable bit; gated behind the checked
/// operations on the dirty wrapper and the feature extension.
pub(crate) struct PCIDE;

impl PCIDE {
    pub(crate) fn field() -> (f: BitField)
        ensures
            f == (BitField { range: (BitRange { lo: 17, width: 1 }), writable: true, default: 0 }),
    {
        BitField::flag(17)
    }
}

/// Base-register instruction enable bit for the fs and gs segments.
pub struct FSGSBASE;

impl FSGSBASE {
    pub fn field() -> (f: BitField)
        ensures
            f == (BitField { range: (BitRange { lo: 16, width: 1 }), writable: true, default: 0 }),
    {
        BitField::flag(16)
    }
}

/// User-mode instruction prevention enable bit.
pub struct UMIP;

impl UMIP {
    pub fn field() -> (f: BitField)
        ensures
            f == (BitField { range: (BitRange { lo: 11, width: 1 }), writable: true, default: 0 }),
    {
        BitField::flag(11)
    }
}

/// Unmasked media-exception reporting enable bit.
pub struct OSXMMEXCPT;

impl OSXMMEXCPT {
    pub fn field() -> (f: BitField)
        ensures
            f == (BitField { range: (BitRange { lo: 10, width: 1 }), writable: true, default: 0 }),
    {
        BitField::flag(10)
    }
}

/// Fast save/restore enable bit.
pub struct OSFXSR;

impl OSFXSR {
    pub fn field() -> (f: BitField)
        ensures
            f == (BitField { range: (BitRange { lo: 9, width: 1 }), writable: true, default: 0 }),
    {
        BitField::flag(9)
    }
}

/// Performance-counter enable bit.
pub struct PCE;

impl PCE {
    pub fn field() -> (f: BitField)
        ensures
            f == (BitField { range: (BitRange { lo: 8, width: 1 }), writable: true, default: 0 }),
    {
        BitField::flag(8)
    }
}

/// Page-global enable bit.
pub struct PGE;

impl PGE {
    pub fn field() -> (f: BitField)
        ensures
            f == (BitField { range: (BitRange { lo: 7, width: 1 }), writable: true, default: 0 }),
    {
        BitField::flag(7)
    }
}

/// Machine-check enable bit.
pub struct MCE;

impl MCE {
    pub fn field() -> (f: BitField)
        ensures
            f == (BitField { range: (BitRange { lo: 6, width: 1 }), writable: true, default: 0 }),
    {
        BitField::flag(6)
    }
}

/// Physical-address extension enable bit.
pub struct PAE;

impl PAE {
    pub fn field() -> (f: BitField)
        ensures
            f == (BitField { range: (BitRange { lo: 5, width: 1 }), writable: true, default: 0 }),
    {
        BitField::flag(5)
    }
}

/// Page-size extension enable bit.
pub struct PSE;

impl PSE {
    pub fn field() -> (f: BitField)
        ensures
            f == (BitField { range: (BitRange { lo: 4, width: 1 }), writable: true, default: 0 }),
    {
        BitField::flag(4)
    }
}

/// # Debugging-extensions bit
///
/// Set to enable I/O breakpoints and reserve the debug registers that the
/// extension repurposes.
pub struct DE;

impl DE {
    pub fn field() -> (f: BitField)
        ensures
            f == (BitField { range: (BitRange { lo: 3, width: 1 }), writable: true, default: 0 }),
    {
        BitField::flag(3)
    }
}

/// # Time-stamp disable bit
///
/// Clear to let any privilege level read the time-stamp counter; set to
/// restrict the counter instructions to the most privileged level.
pub struct TSD;

impl TSD {
    pub fn field() -> (f: BitField)
        ensures
            f == (BitField { range: (BitRange { lo: 2, width: 1 }), writable: true, default: 0 }),
    {
        BitField::flag(2)
    }
}

/// # Protected-mode virtual interrupts bit
///
/// Set to enable the virtual-interrupt flag and pending bit in the flags
/// register, affecting only the interrupt-flag instructions.
pub struct PVI;

impl PVI {
    pub fn field() -> (f: BitField)
        ensures
            f == (BitField { range: (BitRange { lo: 1, width: 1 }), writable: true, default: 0 }),
    {
        BitField::flag(1)
    }
}

/// # Virtual-8086 mode extensions bit
///
/// Set to enable the hardware-assisted interrupt handling that speeds up
/// software running in the compatibility mode.
pub struct VME;

impl VME {
    pub fn field() -> (f: BitField)
        ensures
            f == (BitField { range: (BitRange { lo: 0, width: 1 }), writable: true, default: 0 }),
    {
        BitField::flag(0)
    }
}

} // verus!
