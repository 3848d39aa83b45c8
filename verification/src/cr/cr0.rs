//! The CR0 control register: the machine-control word whose bits enable
//! paging, caching, and coprocessor monitoring.
//!
//! Acquisition is gated on the most privileged level; the handle and the
//! snapshot buffer each occupy a single permit slot, so at most one live
//! snapshot of CR0 exists per execution context.

use vstd::prelude::*;

use crate::field::{BitField, BitRange};
use crate::machine::Machine;
use crate::mem::segment::cs::Cs;
use crate::mem::segment::selector::{spec_rpl, Privilege};
use crate::{Clean, RegBuffer};

verus! {

/// The CR0 register handle: holding it proves exclusive access to CR0
/// within the execution context.
pub struct Cr0 {
    _p: (),
}

impl Cr0 {
    /// What acquiring the handle requires: the context runs at the most
    /// privileged level and the handle's permit is in its slot.
    pub open spec fn can_acquire(m: Machine) -> bool {
        spec_rpl(m.cs) == 0 && !m.cr0_taken
    }

    /// Acquire the CR0 handle: a single, non-retrying attempt that succeeds
    /// exactly when the privilege check passes and no other handle is live.
    pub fn inst(m: &mut Machine) -> (r: Option<Cr0>)
        ensures
            r.is_some() <==> Self::can_acquire(*old(m)),
            r.is_some() ==> *final(m) == (Machine { cr0_taken: true, ..*old(m) }),
            r.is_none() ==> *final(m) == *old(m),
    {
        let cs = Cs::buffer(m);
        if cs.selector.rpl() != Privilege::pl0() {
            return None;
        }
        if m.cr0_taken {
            return None;
        }
        m.cr0_taken = true;
        Some(Cr0 { _p: () })
    }

    /// Acquire the handle without the privilege check; for callers that have
    /// already checked it, as the whole-architecture handle does.
    pub(crate) fn inst_uncheck(m: &mut Machine) -> (r: Option<Cr0>)
        ensures
            r.is_some() <==> !old(m).cr0_taken,
            r.is_some() ==> *final(m) == (Machine { cr0_taken: true, ..*old(m) }),
            r.is_none() ==> *final(m) == *old(m),
    {
        if m.cr0_taken {
            return None;
        }
        m.cr0_taken = true;
        Some(Cr0 { _p: () })
    }

    /// Load a clean snapshot of CR0. Succeeds exactly when no other
    /// snapshot is live; the load itself is the platform's privileged
    /// register read.
    pub fn buffer(&self, m: &mut Machine) -> (r: Option<Clean<Cr0Buffer>>)
        ensures
            r.is_some() <==> !old(m).cr0_buffer_taken,
            r.is_some() ==> *final(m) == (Machine { cr0_buffer_taken: true, ..*old(m) }),
            r.is_none() ==> *final(m) == *old(m),
            match r {
                Some(c) => c.wf() && c.width() == 64 && c.bits() == old(m).cr0,
                None => true,
            },
    {
        if m.cr0_buffer_taken {
            return None;
        }
        m.cr0_buffer_taken = true;
        let data = m.cr0;
        Some(Clean { raw_buffer: Cr0Buffer { data } })
    }

    /// Return the handle's permit to its slot.
    pub fn release(self, m: &mut Machine)
        ensures
            *final(m) == (Machine { cr0_taken: false, ..*old(m) }),
    {
        m.cr0_taken = false;
    }
}

/// The in-memory snapshot of CR0's bits.
pub struct Cr0Buffer {
    pub(crate) data: u64,
}

impl RegBuffer for Cr0Buffer {
    open(crate) spec fn width(&self) -> u64 {
        64
    }

    open(crate) spec fn bits(&self) -> u64 {
        self.data
    }

    open(crate) spec fn inv(&self) -> bool {
        true
    }

    open(crate) spec fn machine_stored(&self, m: Machine) -> Machine {
        Machine { cr0: self.data, ..m }
    }

    open(crate) spec fn machine_released(&self, m: Machine) -> Machine {
        Machine { cr0_buffer_taken: false, ..m }
    }

    open(crate) spec fn reg_of(&self, m: Machine) -> u64 {
        m.cr0
    }

    proof fn inv_bound(&self) {
        crate::field::lemma_low_mask_values();
    }

    fn raw(&self) -> u64 {
        self.data
    }

    fn set_raw(&mut self, v: u64) {
        self.data = v;
    }

    fn store(&self, m: &mut Machine) {
        m.cr0 = self.data;
    }

    fn release_permit(&self, m: &mut Machine) {
        m.cr0_buffer_taken = false;
    }
}

/// # Paging (PG) bit
///
/// Set to enable paging; requires protected mode.
pub struct PG;

impl PG {
    pub fn field() -> (f: BitField)
        ensures
            f == (BitField { range: (BitRange { lo: 31, width: 1 }), writable: true, default: 0 }),
    {
        BitField::flag(31)
    }
}

/// # Cache Disable (CD) bit
///
/// Clear to enable the internal caches; set to keep new data and
/// instructions out of them while still serving hits.
pub struct CD;

impl CD {
    pub fn field() -> (f: BitField)
        ensures
            f == (BitField { range: (BitRange { lo: 30, width: 1 }), writable: true, default: 0 }),
    {
        BitField::flag(30)
    }
}

/// # Not Writethrough (NW) bit
///
/// Ignored either way; the field is legacy.
pub struct NW;

impl NW {
    pub fn field() -> (f: BitField)
        ensures
            f == (BitField { range: (BitRange { lo: 29, width: 1 }), writable: true, default: 0 }),
    {
        BitField::flag(29)
    }
}

/// # Alignment Mask (AM) bit
///
/// Together with the flags register's alignment-check bit, enables
/// automatic alignment checking at the least privileged level.
pub struct AM;

impl AM {
    pub fn field() -> (f: BitField)
        ensures
            f == (BitField { range: (BitRange { lo: 18, width: 1 }), writable: true, default: 0 }),
    {
        BitField::flag(18)
    }
}

/// # Write Protect (WP) bit
///
/// Set to forbid supervisor-level writes into read-only pages.
pub struct WP;

impl WP {
    pub fn field() -> (f: BitField)
        ensures
            f == (BitField { range: (BitRange { lo: 16, width: 1 }), writable: true, default: 0 }),
    {
        BitField::flag(16)
    }
}

/// # Numeric Error (NE) bit
///
/// Set to report x87 floating-point exceptions through the internal
/// mechanism rather than the external pins.
pub struct NE;

impl NE {
    pub fn field() -> (f: BitField)
        ensures
            f == (BitField { range: (BitRange { lo: 5, width: 1 }), writable: true, default: 0 }),
    {
        BitField::flag(5)
    }
}

/// # Extension Type (ET) bit
///
/// Read-only; fixed to 1 on current processors.
pub struct ET;

impl ET {
    pub fn field() -> (f: BitField)
        ensures
            f == (BitField { range: (BitRange { lo: 4, width: 1 }), writable: false, default: 0 }),
    {
        BitField::flag_ro(4)
    }
}

/// # Task Switched (TS) bit
///
/// While set, x87 and media instructions raise the device-not-available
/// exception, letting software defer their context switch.
pub struct TS;

impl TS {
    pub fn field() -> (f: BitField)
        ensures
            f == (BitField { range: (BitRange { lo: 3, width: 1 }), writable: true, default: 0 }),
    {
        BitField::flag(3)
    }
}

/// # Emulate Coprocessor (EM) bit
///
/// While set, x87 instructions raise device-not-available and media
/// instructions raise invalid-opcode, so a handler can emulate them.
pub struct EM;

impl EM {
    pub fn field() -> (f: BitField)
        ensures
            f == (BitField { range: (BitRange { lo: 2, width: 1 }), writable: true, default: 0 }),
    {
        BitField::flag(2)
    }
}

/// # Monitor Coprocessor (MP) bit
///
/// With the task-switched bit, controls whether wait instructions raise the
/// device-not-available exception.
pub struct MP;

impl MP {
    pub fn field() -> (f: BitField)
        ensures
            f == (BitField { range: (BitRange { lo: 1, width: 1 }), writable: true, default: 0 }),
    {
        BitField::flag(1)
    }
}

/// # Protected-Mode Enable (PE) bit
///
/// Set to run with segment protection enabled.
pub struct PE;

impl PE {
    pub fn field() -> (f: BitField)
        ensures
            f == (BitField { range: (BitRange { lo: 0, width: 1 }), writable: true, default: 0 }),
    {
        BitField::flag(0)
    }
}

} // verus!
