//! The CR2 register: the virtual address that caused the last page fault.
//! Reading it is gated on privilege, and the handle and the snapshot each
//! occupy a single permit slot, so at most one live snapshot of CR2 exists
//! per execution context.

use vstd::prelude::*;

use crate::field::{range_read, range_write, read_range, write_range, low_mask, BitField,
    BitRange};
use crate::machine::Machine;
use crate::mem::segment::cs::Cs;
use crate::mem::segment::selector::{spec_rpl, Privilege};

verus! {

/// The CR2 register handle.
pub struct Cr2 {
    _p: (),
}

impl Cr2 {
    /// What acquiring the handle requires: the context runs at the most
    /// privileged level and the handle's permit is in its slot.
    pub open spec fn can_acquire(m: Machine) -> bool {
        spec_rpl(m.cs) == 0 && !m.cr2_taken
    }

    /// Acquire the CR2 handle: a single, non-retrying attempt that
    /// succeeds exactly when the privilege check passes and no other
    /// handle is live.
    pub fn inst(m: &mut Machine) -> (r: Option<Cr2>)
        ensures
            r.is_some() <==> Self::can_acquire(*old(m)),
            r.is_some() ==> *final(m) == (Machine { cr2_taken: true, ..*old(m) }),
            r.is_none() ==> *final(m) == *old(m),
    {
        let cs = Cs::buffer(m);
        if cs.selector.rpl() != Privilege::pl0() {
            return None;
        }
        if m.cr2_taken {
            return None;
        }
        m.cr2_taken = true;
        Some(Cr2 { _p: () })
    }

    /// Acquire the handle without the privilege check, for callers that
    /// have already made it.
    pub fn inst_uncheck(m: &mut Machine) -> (r: Option<Cr2>)
        ensures
            r.is_some() <==> !old(m).cr2_taken,
            r.is_some() ==> *final(m) == (Machine { cr2_taken: true, ..*old(m) }),
            r.is_none() ==> *final(m) == *old(m),
    {
        if m.cr2_taken {
            return None;
        }
        m.cr2_taken = true;
        Some(Cr2 { _p: () })
    }

    /// Load a snapshot of the register. Succeeds exactly when no other
    /// snapshot is live; the read is the platform's privileged load.
    pub fn buffer(&self, m: &mut Machine) -> (r: Option<Cr2Buffer>)
        ensures
            r.is_some() <==> !old(m).cr2_buffer_taken,
            r.is_some() ==> *final(m) == (Machine { cr2_buffer_taken: true, ..*old(m) }),
            r.is_none() ==> *final(m) == *old(m),
            match r {
                Some(b) => b.bits() == old(m).cr2,
                None => true,
            },
    {
        if m.cr2_buffer_taken {
            return None;
        }
        m.cr2_buffer_taken = true;
        Some(Cr2Buffer { data: m.cr2 })
    }

    /// Return the handle's permit to its slot.
    pub fn release(self, m: &mut Machine)
        ensures
            *final(m) == (Machine { cr2_taken: false, ..*old(m) }),
    {
        m.cr2_taken = false;
    }
}

/// The in-memory snapshot of CR2's bits.
pub struct Cr2Buffer {
    pub(crate) data: u64,
}

impl Cr2Buffer {
    /// The snapshot's raw bits.
    pub open(crate) spec fn bits(&self) -> u64 {
        self.data
    }

    /// Read a bit-field out of the snapshot.
    pub fn read(&self, f: &BitField) -> (v: u64)
        requires
            f.wf(64),
        ensures
            v == range_read(self.bits(), f.range),
    {
        read_range(self.data, f.range)
    }

    /// Write a bit-field locally; only `flush` reaches the register.
    pub fn write(&mut self, f: &BitField, value: u64)
        requires
            f.wf(64),
            f.writable,
            value <= low_mask(f.range.width),
        ensures
            final(self).bits() == range_write(old(self).bits(), f.range, value),
    {
        self.data = write_range(self.data, f.range, value);
    }

    /// Commit the snapshot to the register: the platform's privileged
    /// store.
    pub fn flush(&self, m: &mut Machine)
        ensures
            *final(m) == (Machine { cr2: self.bits(), ..*old(m) }),
    {
        m.cr2 = self.data;
    }

    /// Give the snapshot up and return its permit to the machine's slot.
    pub fn release(self, m: &mut Machine)
        ensures
            *final(m) == (Machine { cr2_buffer_taken: false, ..*old(m) }),
    {
        m.cr2_buffer_taken = false;
    }
}

/// # Page-Fault Virtual Address field
///
/// The whole register: the faulting virtual address.
pub struct PFVA;

impl PFVA {
    pub fn field() -> (f: BitField)
        ensures
            f == (BitField { range: (BitRange { lo: 0, width: 64 }), writable: true, default: 0 }),
    {
        BitField::rw(0, 64)
    }
}

} // verus!
