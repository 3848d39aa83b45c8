//! The CR3 register: the base of the top-level translation table, its
//! page-level cache-control bits, and — once the feature is enabled — the
//! process-context identifier. The handle and the snapshot each occupy a
//! permit slot.

pub mod pcid;

pub use pcid::Cr3BufferPcid;

use vstd::prelude::*;

use crate::cr::cr4::{spec_pcide, Cr4Buffer};
use crate::field::{BitField, BitRange};
use crate::machine::Machine;
use crate::msr::efer::{spec_lma, EferBuffer};
use crate::{Clean, RegBuffer};

verus! {

/// The CR3 register handle, handed out by the whole-architecture handle.
pub struct Cr3 {
    _p: (),
}

impl Cr3 {
    /// Acquire the handle; the caller has already made the privilege
    /// check.
    pub(crate) fn inst_uncheck(m: &mut Machine) -> (r: Option<Cr3>)
        ensures
            r.is_some() <==> !old(m).cr3_taken,
            r.is_some() ==> *final(m) == (Machine { cr3_taken: true, ..*old(m) }),
            r.is_none() ==> *final(m) == *old(m),
    {
        if m.cr3_taken {
            return None;
        }
        m.cr3_taken = true;
        Some(Cr3 { _p: () })
    }

    /// Load a clean snapshot of CR3, for reading the register while
    /// process-context identifiers are disabled; the platform's privileged
    /// read.
    pub fn buffer(&self, m: &mut Machine) -> (r: Option<Clean<Cr3Buffer>>)
        ensures
            r.is_some() <==> !old(m).cr3_buffer_taken,
            r.is_some() ==> *final(m) == (Machine { cr3_buffer_taken: true, ..*old(m) }),
            r.is_none() ==> *final(m) == *old(m),
            match r {
                Some(c) => c.wf() && c.width() == 64 && c.bits() == old(m).cr3,
                None => true,
            },
    {
        if m.cr3_buffer_taken {
            return None;
        }
        m.cr3_buffer_taken = true;
        let data = m.cr3;
        Some(Clean { raw_buffer: Cr3Buffer { data } })
    }

    /// Return the handle's permit to its slot.
    pub fn release(self, m: &mut Machine)
        ensures
            *final(m) == (Machine { cr3_taken: false, ..*old(m) }),
    {
        m.cr3_taken = false;
    }
}

/// The in-memory snapshot of CR3's bits.
pub struct Cr3Buffer {
    pub(crate) data: u64,
}

impl RegBuffer for Cr3Buffer {
    open(crate) spec fn width(&self) -> u64 {
        64
    }

    open(crate) spec fn bits(&self) -> u64 {
        self.data
    }

    open(crate) spec fn inv(&self) -> bool {
        true
    }

    open(crate) spec fn machine_stored(&self, m: Machine) -> Machine {
        Machine { cr3: self.data, ..m }
    }

    open(crate) spec fn machine_released(&self, m: Machine) -> Machine {
        Machine { cr3_buffer_taken: false, ..m }
    }

    open(crate) spec fn reg_of(&self, m: Machine) -> u64 {
        m.cr3
    }

    proof fn inv_bound(&self) {
        crate::field::lemma_low_mask_values();
    }

    fn raw(&self) -> u64 {
        self.data
    }

    fn set_raw(&mut self, v: u64) {
        self.data = v;
    }

    fn store(&self, m: &mut Machine) {
        m.cr3 = self.data;
    }

    fn release_permit(&self, m: &mut Machine) {
        m.cr3_buffer_taken = false;
    }
}

impl Clean<Cr3Buffer> {
    /// Reinterpret the snapshot under the process-context-identifier
    /// layout without re-making the checks; the caller owes the checks
    /// that long mode is active and the identifiers are enabled.
    pub fn into_pcid_uncheck(self) -> (r: Clean<Cr3BufferPcid>)
        requires
            self.wf(),
        ensures
            r.wf(),
            r.bits() == self.bits(),
    {
        Clean { raw_buffer: Cr3BufferPcid { buffer: self.raw_buffer } }
    }

    /// Reinterpret the snapshot under the process-context-identifier
    /// layout, gated on long mode being active and the identifiers being
    /// enabled, both read from snapshots the caller already holds. On
    /// refusal the snapshot's permit returns to its slot.
    pub fn into_pcid(
        self,
        efer_buffer: &Clean<EferBuffer>,
        cr4_buffer: &Clean<Cr4Buffer>,
        m: &mut Machine,
    ) -> (r: Option<Clean<Cr3BufferPcid>>)
        requires
            self.wf(),
            efer_buffer.wf(),
            cr4_buffer.wf(),
        ensures
            r.is_some() <==> (spec_lma(efer_buffer.bits()) && spec_pcide(cr4_buffer.bits())),
            r.is_some() ==> *final(m) == *old(m),
            r.is_none() ==> *final(m) == (Machine { cr3_buffer_taken: false, ..*old(m) }),
            match r {
                Some(c) => c.wf() && c.bits() == self.bits(),
                None => true,
            },
    {
        if efer_buffer.long_mode_activated() && cr4_buffer.pcid_enabled() {
            Some(self.into_pcid_uncheck())
        } else {
            self.release(m);
            None
        }
    }
}

/// ## Table Base Address field
///
/// In long mode, the high bits of the top-level translation table's
/// physical address; the table is page-aligned, so its low twelve bits
/// never occupy register space.
pub struct TBA;

impl TBA {
    pub fn field() -> (f: BitField)
        ensures
            f == (BitField { range: (BitRange { lo: 12, width: 40 }), writable: true, default: 0 }),
    {
        BitField::rw(12, 40)
    }
}

/// ## Page-level Cache Disable bit
///
/// Set to keep the top-level translation table out of the cache.
pub struct PCD;

impl PCD {
    pub fn field() -> (f: BitField)
        ensures
            f == (BitField { range: (BitRange { lo: 4, width: 1 }), writable: true, default: 0 }),
    {
        BitField::flag(4)
    }
}

/// ## Page-level Writethrough bit
///
/// Set for a writethrough caching policy on the top-level translation
/// table, clear for writeback.
pub struct PWT;

impl PWT {
    pub fn field() -> (f: BitField)
        ensures
            f == (BitField { range: (BitRange { lo: 3, width: 1 }), writable: true, default: 0 }),
    {
        BitField::flag(3)
    }
}

/// ## Process-Context Identifier field
///
/// The low twelve bits while the feature is enabled; reached through the
/// identifier-aware snapshot only.
pub(crate) struct PCID;

impl PCID {
    pub(crate) fn field() -> (f: BitField)
        ensures
            f == (BitField { range: (BitRange { lo: 0, width: 12 }), writable: true, default: 0 }),
    {
        BitField::rw(0, 12)
    }
}

} // verus!
