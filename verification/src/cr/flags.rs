//! The flags register: arithmetic flags, the interrupt-enable bit, and the
//! identification bit whose writability advertises the feature-query
//! instruction. The snapshot occupies a single permit slot, so at most one
//! live snapshot of the register exists per execution context.
//!
//! The platform's load and store primitives see less than the whole
//! register: a load never exposes the resume and virtual-machine bits, and
//! a commit never modifies the virtual-machine, virtual-interrupt and
//! interrupt-pending bits. The contracts here say exactly that.

use vstd::prelude::*;

use crate::field::{range_read, range_write, read_range, write_range, low_mask, BitField,
    BitRange};
use crate::machine::Machine;

verus! {

/// The bits a load of the flags register never exposes: the resume bit
/// (sixteen) and the virtual-machine bit (seventeen).
pub open spec fn flags_load_hidden() -> u64 {
    0x0003_0000u64
}

/// The bits a commit of the flags register never modifies: the
/// virtual-machine bit (seventeen), the virtual-interrupt bit (nineteen)
/// and the interrupt-pending bit (twenty).
pub open spec fn flags_store_fixed() -> u64 {
    0x001a_0000u64
}

/// The image a flags load observes: the register's bits with the hidden
/// bits masked out.
pub open spec fn spec_flags_load(reg: u64) -> u64 {
    reg & !flags_load_hidden()
}

/// The word a flags commit leaves in the register: the buffer's bits,
/// except the fixed bits, which keep the register's old values.
pub open spec fn spec_flags_store(buf: u64, reg: u64) -> u64 {
    (buf & !flags_store_fixed()) | (reg & flags_store_fixed())
}

/// The flags register.
pub struct Flags;

/// The in-memory snapshot of the flags register's bits.
#[derive(PartialEq, Eq, Clone, Copy, Structural)]
pub struct FlagsBuffer {
    pub(crate) data: u64,
}

impl Flags {
    /// Snapshot the flags register. Succeeds exactly when no other
    /// snapshot is live. The resume and virtual-machine bits never read
    /// back through this path: the loaded image has them clear whatever
    /// the register holds.
    pub fn buffer(m: &mut Machine) -> (r: Option<FlagsBuffer>)
        ensures
            r.is_some() <==> !old(m).rflags_buffer_taken,
            r.is_some() ==> *final(m) == (Machine { rflags_buffer_taken: true, ..*old(m) }),
            r.is_none() ==> *final(m) == *old(m),
            match r {
                Some(b) => b.bits() == spec_flags_load(old(m).rflags),
                None => true,
            },
    {
        if m.rflags_buffer_taken {
            return None;
        }
        m.rflags_buffer_taken = true;
        Some(FlagsBuffer { data: m.rflags & !0x0003_0000u64 })
    }

    /// Clear the interrupt bit: external maskable interrupts are held off;
    /// non-maskable interrupts are unaffected.
    pub fn disable_if(m: &mut Machine)
        ensures
            *final(m) == (Machine {
                rflags: range_write(old(m).rflags, (BitRange { lo: 9, width: 1 }), 0),
                ..*old(m)
            }),
    {
        proof {
            crate::field::lemma_low_mask_values();
        }
        m.rflags = write_range(m.rflags, IF::field().range, 0);
    }

    /// Set the interrupt bit: external maskable interrupts are accepted
    /// again.
    pub fn enable_if(m: &mut Machine)
        ensures
            *final(m) == (Machine {
                rflags: range_write(old(m).rflags, (BitRange { lo: 9, width: 1 }), 1),
                ..*old(m)
            }),
    {
        proof {
            crate::field::lemma_low_mask_values();
        }
        m.rflags = write_range(m.rflags, IF::field().range, 1);
    }
}

impl FlagsBuffer {
    /// The snapshot's raw bits.
    pub open(crate) spec fn bits(&self) -> u64 {
        self.data
    }

    /// Read a bit-field out of the snapshot.
    pub fn read(&self, f: &BitField) -> (v: u64)
        requires
            f.wf(64),
        ensures
            v == range_read(self.bits(), f.range),
    {
        read_range(self.data, f.range)
    }

    /// Write a bit-field locally; only `flush` reaches the register.
    pub fn write(&mut self, f: &BitField, value: u64)
        requires
            f.wf(64),
            f.writable,
            value <= low_mask(f.range.width),
        ensures
            final(self).bits() == range_write(old(self).bits(), f.range, value),
    {
        self.data = write_range(self.data, f.range, value);
    }

    /// Commit the snapshot to the register. The virtual-machine,
    /// virtual-interrupt and interrupt-pending bits cannot be modified
    /// through this path: whatever the buffer holds there, the register
    /// keeps its old values.
    pub fn flush(&self, m: &mut Machine)
        ensures
            *final(m) == (Machine {
                rflags: spec_flags_store(self.bits(), old(m).rflags),
                ..*old(m)
            }),
    {
        m.rflags = (self.data & !0x001a_0000u64) | (m.rflags & 0x001a_0000u64);
    }

    /// Give the snapshot up and return its permit to the machine's slot.
    pub fn release(self, m: &mut Machine)
        ensures
            *final(m) == (Machine { rflags_buffer_taken: false, ..*old(m) }),
    {
        m.rflags_buffer_taken = false;
    }
}

/// ## Identification bit
///
/// Software that can toggle this bit may use the feature-query
/// instruction.
pub struct ID;

impl ID {
    pub fn field() -> (f: BitField)
        ensures
            f == (BitField { range: (BitRange { lo: 21, width: 1 }), writable: true, default: 0 }),
    {
        BitField::flag(21)
    }
}

/// # Interrupt-pending bit
///
/// Set while a virtual interrupt is waiting; read-only through this
/// layer, and a commit never modifies it.
pub struct VIP;

impl VIP {
    pub fn field() -> (f: BitField)
        ensures
            f == (BitField { range: (BitRange { lo: 20, width: 1 }), writable: false, default: 0 }),
    {
        BitField::flag_ro(20)
    }
}

/// # Virtual interrupt bit
///
/// The virtual image of the interrupt bit, used while virtual interrupt
/// support is enabled; read-only through this layer, and a commit never
/// modifies it.
pub struct VIF;

impl VIF {
    pub fn field() -> (f: BitField)
        ensures
            f == (BitField { range: (BitRange { lo: 19, width: 1 }), writable: false, default: 0 }),
    {
        BitField::flag_ro(19)
    }
}

/// Alignment-check bit.
pub struct AC;

impl AC {
    pub fn field() -> (f: BitField)
        ensures
            f == (BitField { range: (BitRange { lo: 18, width: 1 }), writable: true, default: 0 }),
    {
        BitField::flag(18)
    }
}

/// Nested-task bit.
pub struct NT;

impl NT {
    pub fn field() -> (f: BitField)
        ensures
            f == (BitField { range: (BitRange { lo: 14, width: 1 }), writable: true, default: 0 }),
    {
        BitField::flag(14)
    }
}

/// The privilege level required for I/O address-space instructions.
pub struct IOPL;

impl IOPL {
    pub fn field() -> (f: BitField)
        ensures
            f == (BitField { range: (BitRange { lo: 12, width: 2 }), writable: true, default: 0 }),
    {
        BitField::rw(12, 2)
    }
}

/// Overflow flag; readable at any privilege level.
pub struct OF;

impl OF {
    pub fn field() -> (f: BitField)
        ensures
            f == (BitField { range: (BitRange { lo: 11, width: 1 }), writable: true, default: 0 }),
    {
        BitField::flag(11)
    }
}

/// Direction flag; readable at any privilege level.
pub struct DF;

impl DF {
    pub fn field() -> (f: BitField)
        ensures
            f == (BitField { range: (BitRange { lo: 10, width: 1 }), writable: true, default: 0 }),
    {
        BitField::flag(10)
    }
}

/// Interrupt-enable flag.
pub struct IF;

impl IF {
    pub fn field() -> (f: BitField)
        ensures
            f == (BitField { range: (BitRange { lo: 9, width: 1 }), writable: true, default: 0 }),
    {
        BitField::flag(9)
    }
}

/// Trap flag.
pub struct TF;

impl TF {
    pub fn field() -> (f: BitField)
        ensures
            f == (BitField { range: (BitRange { lo: 8, width: 1 }), writable: true, default: 0 }),
    {
        BitField::flag(8)
    }
}

/// Sign flag; readable at any privilege level.
pub struct SF;

impl SF {
    pub fn field() -> (f: BitField)
        ensures
            f == (BitField { range: (BitRange { lo: 7, width: 1 }), writable: true, default: 0 }),
    {
        BitField::flag(7)
    }
}

/// Zero flag; readable at any privilege level.
pub struct ZF;

impl ZF {
    pub fn field() -> (f: BitField)
        ensures
            f == (BitField { range: (BitRange { lo: 6, width: 1 }), writable: true, default: 0 }),
    {
        BitField::flag(6)
    }
}

/// Auxiliary-carry flag; readable at any privilege level.
pub struct AF;

impl AF {
    pub fn field() -> (f: BitField)
        ensures
            f == (BitField { range: (BitRange { lo: 4, width: 1 }), writable: true, default: 0 }),
    {
        BitField::flag(4)
    }
}

/// Parity flag; readable at any privilege level.
pub struct PF;

impl PF {
    pub fn field() -> (f: BitField)
        ensures
            f == (BitField { range: (BitRange { lo: 2, width: 1 }), writable: true, default: 0 }),
    {
        BitField::flag(2)
    }
}

/// Carry flag; readable at any privilege level.
pub struct CF;

impl CF {
    pub fn field() -> (f: BitField)
        ensures
            f == (BitField { range: (BitRange { lo: 0, width: 1 }), writable: true, default: 0 }),
    {
        BitField::flag(0)
    }
}

} // verus!
