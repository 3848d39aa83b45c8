//! The process-context-identifier view of a CR3 snapshot: the same bits,
//! with the low twelve exposed as the context identifier.

use vstd::prelude::*;

use crate::cr::cr3::{Cr3Buffer, PCID};
use crate::field::{range_read, range_write, low_mask, BitRange};
use crate::machine::Machine;
use crate::{Clean, Dirty, RegBuffer};

verus! {

/// A CR3 snapshot known to carry a process-context identifier.
pub struct Cr3BufferPcid {
    pub(crate) buffer: Cr3Buffer,
}

impl RegBuffer for Cr3BufferPcid {
    open(crate) spec fn width(&self) -> u64 {
        64
    }

    open(crate) spec fn bits(&self) -> u64 {
        self.buffer.data
    }

    open(crate) spec fn inv(&self) -> bool {
        true
    }

    open(crate) spec fn machine_stored(&self, m: Machine) -> Machine {
        Machine { cr3: self.buffer.data, ..m }
    }

    open(crate) spec fn machine_released(&self, m: Machine) -> Machine {
        Machine { cr3_buffer_taken: false, ..m }
    }

    open(crate) spec fn reg_of(&self, m: Machine) -> u64 {
        m.cr3
    }

    proof fn inv_bound(&self) {
        crate::field::lemma_low_mask_values();
    }

    fn raw(&self) -> u64 {
        self.buffer.data
    }

    fn set_raw(&mut self, v: u64) {
        self.buffer.data = v;
    }

    fn store(&self, m: &mut Machine) {
        m.cr3 = self.buffer.data;
    }

    fn release_permit(&self, m: &mut Machine) {
        m.cr3_buffer_taken = false;
    }
}

impl Dirty<Cr3BufferPcid> {
    /// Set the context identifier: the low twelve bits of `id` land in the
    /// identifier field, the rest of the snapshot stays as it was.
    pub fn set_pcid(self, id: u16) -> (d: Self)
        requires
            self.wf(),
        ensures
            d.wf(),
            d.bits() == range_write(
                self.bits(),
                (BitRange { lo: 0, width: 12 }),
                (id & 0xfff) as u64,
            ),
    {
        proof {
            crate::field::lemma_low_mask_values();
            crate::field::lemma_and_le(id as u64, 0xfffu64);
            assert((id & 0xfffu16) as u64 == (id as u64) & 0xfffu64) by (bit_vector);
        }
        let masked: u16 = id & 0xfff;
        self.write(&PCID::field(), masked as u64)
    }
}

impl Clean<Cr3BufferPcid> {
    /// Read the context identifier out of the snapshot.
    pub fn pcid(&self) -> (id: u16)
        requires
            self.wf(),
        ensures
            id as u64 == range_read(self.bits(), (BitRange { lo: 0, width: 12 })),
    {
        proof {
            crate::field::lemma_low_mask_values();
        }
        let v = self.read(&PCID::field());
        v as u16
    }
}

} // verus!
