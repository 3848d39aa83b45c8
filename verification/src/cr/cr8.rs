//! The CR8 register: the task-priority threshold for external interrupts.
//! The snapshot occupies a single permit slot, so at most one live
//! snapshot of CR8 exists per execution context.

use vstd::prelude::*;

use crate::field::{range_read, range_write, read_range, write_range, low_mask, BitField,
    BitRange};
use crate::machine::Machine;

verus! {

/// The CR8 register handle, handed out by the whole-architecture handle.
pub struct Cr8 {
    _p: (),
}

impl Cr8 {
    /// Acquire a handle; the caller has already made the privilege check.
    pub(crate) fn inst_uncheck() -> Cr8 {
        Cr8 { _p: () }
    }

    /// Snapshot the register. Succeeds exactly when no other snapshot is
    /// live; the read is the platform's privileged load.
    pub fn buffer(m: &mut Machine) -> (r: Option<Cr8Buffer>)
        ensures
            r.is_some() <==> !old(m).cr8_buffer_taken,
            r.is_some() ==> *final(m) == (Machine { cr8_buffer_taken: true, ..*old(m) }),
            r.is_none() ==> *final(m) == *old(m),
            match r {
                Some(b) => b.bits() == old(m).cr8,
                None => true,
            },
    {
        if m.cr8_buffer_taken {
            return None;
        }
        m.cr8_buffer_taken = true;
        Some(Cr8Buffer { data: m.cr8 })
    }
}

/// The in-memory snapshot of CR8's bits.
pub struct Cr8Buffer {
    pub(crate) data: u64,
}

impl Cr8Buffer {
    /// The snapshot's raw bits.
    pub open(crate) spec fn bits(&self) -> u64 {
        self.data
    }

    /// Read a bit-field out of the snapshot.
    pub fn read(&self, f: &BitField) -> (v: u64)
        requires
            f.wf(64),
        ensures
            v == range_read(self.bits(), f.range),
    {
        read_range(self.data, f.range)
    }

    /// Write a bit-field locally; only `flush` reaches the register.
    pub fn write(&mut self, f: &BitField, value: u64)
        requires
            f.wf(64),
            f.writable,
            value <= low_mask(f.range.width),
        ensures
            final(self).bits() == range_write(old(self).bits(), f.range, value),
    {
        self.data = write_range(self.data, f.range, value);
    }

    /// Commit the snapshot to the register: the platform's privileged
    /// store.
    pub fn flush(&self, m: &mut Machine)
        ensures
            *final(m) == (Machine { cr8: self.bits(), ..*old(m) }),
    {
        m.cr8 = self.data;
    }

    /// Give the snapshot up and return its permit to the machine's slot.
    pub fn release(self, m: &mut Machine)
        ensures
            *final(m) == (Machine { cr8_buffer_taken: false, ..*old(m) }),
    {
        m.cr8_buffer_taken = false;
    }
}

/// # Task-Priority Register field
///
/// The four-bit priority threshold; external interrupts with lower
/// priority are masked.
pub struct TRR;

impl TRR {
    pub fn field() -> (f: BitField)
        ensures
            f == (BitField { range: (BitRange { lo: 0, width: 4 }), writable: true, default: 0 }),
    {
        BitField::rw(0, 4)
    }
}

} // verus!
