//! A verified access layer for privileged processor registers.
//!
//! Every hardware register is mirrored by an in-memory snapshot buffer whose
//! bit-fields are read and written through typed descriptors, and every
//! snapshot is wrapped in a clean/dirty commit discipline: a write never
//! reaches the register until the dirty snapshot is explicitly flushed, and a
//! per-register permit slot keeps at most one live snapshot per register in
//! one execution context. The context itself — the registers' current bits
//! and the permit slots — is an explicit [`machine::Machine`] value handed to
//! every operation, never ambient global state.

use vstd::prelude::*;

pub mod arch;
pub mod cpuid;
pub mod cr;
pub mod descriptor;
pub mod field;
pub mod laws;
pub mod machine;
pub mod mem;
pub mod msr;

use crate::field::{range_read, range_write, read_range, write_range, low_mask, BitField};
use crate::machine::Machine;

verus! {

/// Why a register operation that is gated on processor state was refused.
#[derive(Debug, PartialEq, Eq, Structural, Clone, Copy)]
pub enum ArchError {
    LongModeInactivated,
    PcidIsNotSupported,
    PcidDisabled,
}

/// One register's snapshot storage: the raw word, the register's bit width,
/// how committing the word changes the machine, and which permit slot the
/// snapshot occupies. Implemented by every buffer type that the clean/dirty
/// wrappers manage.
pub trait RegBuffer: Sized {
    /// Bit width of the underlying register.
    spec fn width(&self) -> u64;

    /// The bits currently held by the snapshot.
    spec fn bits(&self) -> u64;

    /// The snapshot's bits fit the register's width.
    spec fn inv(&self) -> bool;

    /// The machine after this snapshot's bits are committed to the register.
    spec fn machine_stored(&self, m: Machine) -> Machine;

    /// The machine after this snapshot's permit returns to its slot.
    spec fn machine_released(&self, m: Machine) -> Machine;

    /// The register's bits as the machine currently holds them.
    spec fn reg_of(&self, m: Machine) -> u64;

    proof fn inv_bound(&self)
        requires
            self.inv(),
        ensures
            self.bits() <= low_mask(self.width()),
            1 <= self.width() <= 64,
    ;

    fn raw(&self) -> (r: u64)
        ensures
            r == self.bits(),
    ;

    fn set_raw(&mut self, v: u64)
        requires
            old(self).inv(),
            v <= low_mask(old(self).width()),
        ensures
            final(self).inv(),
            final(self).bits() == v,
            final(self).width() == old(self).width(),
    ;

    /// Commit the snapshot's bits to the physical register.
    fn store(&self, m: &mut Machine)
        requires
            self.inv(),
        ensures
            *final(m) == self.machine_stored(*old(m)),
            self.reg_of(*final(m)) == self.bits(),
    ;

    /// Return the snapshot's permit to its slot.
    fn release_permit(&self, m: &mut Machine)
        ensures
            *final(m) == self.machine_released(*old(m)),
    ;
}

/// A snapshot whose bits agree with the register as far as this handle
/// knows: they were just loaded from it, or just committed to it. Supports
/// reads; the first write moves the snapshot to [`Dirty`].
pub struct Clean<T: RegBuffer> {
    pub(crate) raw_buffer: T,
}

/// A snapshot that may differ from the register. Further reads and writes
/// stay local; only [`Dirty::flush`] commits the bits, and discarding the
/// snapshot instead loses them without ever touching the register.
pub struct Dirty<T: RegBuffer> {
    pub(crate) raw_buffer: T,
}

impl<T: RegBuffer> Clean<T> {
    /// The snapshot's bits.
    pub open(crate) spec fn bits(&self) -> u64 {
        self.raw_buffer.bits()
    }

    pub open(crate) spec fn wf(&self) -> bool {
        self.raw_buffer.inv()
    }

    pub open(crate) spec fn width(&self) -> u64 {
        self.raw_buffer.width()
    }

    /// The machine after this snapshot's permit returns to its slot.
    pub open(crate) spec fn machine_released(&self, m: Machine) -> Machine {
        self.raw_buffer.machine_released(m)
    }

    /// The machine after this snapshot's bits are committed.
    pub open(crate) spec fn machine_stored(&self, m: Machine) -> Machine {
        self.raw_buffer.machine_stored(m)
    }

    /// The mirrored register's bits as the machine holds them.
    pub open(crate) spec fn reg_of(&self, m: Machine) -> u64 {
        self.raw_buffer.reg_of(m)
    }

    /// Read the value of a bit-field out of the snapshot.
    pub fn read(&self, f: &BitField) -> (v: u64)
        requires
            self.wf(),
            f.wf(self.width()),
        ensures
            v == range_read(self.bits(), f.range),
            v <= low_mask(f.range.width),
    {
        read_range(self.raw_buffer.raw(), f.range)
    }

    /// Read a one-bit field as a boolean.
    pub fn read_flag(&self, f: &BitField) -> (b: bool)
        requires
            self.wf(),
            f.wf(self.width()),
            f.range.width == 1,
        ensures
            b == (range_read(self.bits(), f.range) == 1),
    {
        self.read(f) == 1
    }

    /// Read a bit-field into `out`, handing the snapshot back for chaining.
    pub fn output(&self, f: &BitField, out: &mut u64) -> (r: &Self)
        requires
            self.wf(),
            f.wf(self.width()),
        ensures
            *final(out) == range_read(self.bits(), f.range),
            r == self,
    {
        *out = self.read(f);
        self
    }

    /// Write a bit-field locally; the result is dirty until flushed.
    #[must_use]
    pub fn write(self, f: &BitField, value: u64) -> (d: Dirty<T>)
        requires
            self.wf(),
            f.wf(self.width()),
            f.writable,
            value <= low_mask(f.range.width),
        ensures
            d.wf(),
            d.width() == self.width(),
            d.bits() == range_write(self.bits(), f.range, value),
    {
        let Clean { raw_buffer: mut b } = self;
        proof {
            b.inv_bound();
            crate::field::lemma_write_fits(b.bits(), f.range, value, b.width());
        }
        let w2 = write_range(b.raw(), f.range, value);
        b.set_raw(w2);
        Dirty { raw_buffer: b }
    }

    /// Reset a bit-field to its architectural default, leaving every other
    /// bit as it was; the result is dirty until flushed.
    #[must_use]
    pub fn revert(self, f: &BitField) -> (d: Dirty<T>)
        requires
            self.wf(),
            f.wf(self.width()),
            f.writable,
        ensures
            d.wf(),
            d.width() == self.width(),
            d.bits() == range_write(self.bits(), f.range, f.default),
    {
        let d = f.default;
        self.write(f, d)
    }

    /// Treat the clean snapshot as dirty without changing a bit: the escape
    /// hatch for a caller who knows the next commit must happen regardless.
    pub fn asume_dirty(self) -> (d: Dirty<T>)
        requires
            self.wf(),
        ensures
            d.wf(),
            d.width() == self.width(),
            d.bits() == self.bits(),
    {
        Dirty { raw_buffer: self.raw_buffer }
    }

    /// Give the snapshot up and return its permit to the machine's slot.
    pub fn release(self, m: &mut Machine)
        ensures
            *final(m) == self.machine_released(*old(m)),
    {
        self.raw_buffer.release_permit(m);
    }
}

impl<T: RegBuffer> Dirty<T> {
    pub open(crate) spec fn bits(&self) -> u64 {
        self.raw_buffer.bits()
    }

    pub open(crate) spec fn wf(&self) -> bool {
        self.raw_buffer.inv()
    }

    pub open(crate) spec fn width(&self) -> u64 {
        self.raw_buffer.width()
    }

    /// The machine after this snapshot's permit returns to its slot.
    pub open(crate) spec fn machine_released(&self, m: Machine) -> Machine {
        self.raw_buffer.machine_released(m)
    }

    /// The machine after this snapshot's bits are committed.
    pub open(crate) spec fn machine_stored(&self, m: Machine) -> Machine {
        self.raw_buffer.machine_stored(m)
    }

    /// The mirrored register's bits as the machine holds them.
    pub open(crate) spec fn reg_of(&self, m: Machine) -> u64 {
        self.raw_buffer.reg_of(m)
    }

    /// Read the value of a bit-field out of the local snapshot.
    pub fn read(&self, f: &BitField) -> (v: u64)
        requires
            self.wf(),
            f.wf(self.width()),
        ensures
            v == range_read(self.bits(), f.range),
            v <= low_mask(f.range.width),
    {
        read_range(self.raw_buffer.raw(), f.range)
    }

    /// Write a further bit-field locally.
    #[must_use]
    pub fn write(self, f: &BitField, value: u64) -> (d: Dirty<T>)
        requires
            self.wf(),
            f.wf(self.width()),
            f.writable,
            value <= low_mask(f.range.width),
        ensures
            d.wf(),
            d.width() == self.width(),
            d.bits() == range_write(self.bits(), f.range, value),
    {
        let Dirty { raw_buffer: mut b } = self;
        proof {
            b.inv_bound();
            crate::field::lemma_write_fits(b.bits(), f.range, value, b.width());
        }
        let w2 = write_range(b.raw(), f.range, value);
        b.set_raw(w2);
        Dirty { raw_buffer: b }
    }

    /// Reset a bit-field to its architectural default, leaving every other
    /// bit as it was.
    #[must_use]
    pub fn revert(self, f: &BitField) -> (d: Dirty<T>)
        requires
            self.wf(),
            f.wf(self.width()),
            f.writable,
        ensures
            d.wf(),
            d.width() == self.width(),
            d.bits() == range_write(self.bits(), f.range, f.default),
    {
        let d = f.default;
        self.write(f, d)
    }

    /// Commit the snapshot to the physical register; the result is clean.
    pub fn flush(self, m: &mut Machine) -> (c: Clean<T>)
        requires
            self.wf(),
        ensures
            c.wf(),
            c.bits() == self.bits(),
            c.width() == self.width(),
            *final(m) == self.machine_stored(*old(m)),
            c.reg_of(*final(m)) == c.bits(),
    {
        self.raw_buffer.store(m);
        Clean { raw_buffer: self.raw_buffer }
    }

    /// Throw the local modifications away without committing them, returning
    /// the snapshot's permit; the physical register is never touched.
    pub fn discard(self, m: &mut Machine)
        ensures
            *final(m) == self.machine_released(*old(m)),
    {
        self.raw_buffer.release_permit(m);
    }
}

/// A primitive flag lock: plain lock / unlock, no data, no automatic release.
/// One execution context only, like the rest of this layer.
pub struct ArchMutex {
    flag: bool,
}

impl ArchMutex {
    /// The lock is free.
    pub open(crate) spec fn unlocked(&self) -> bool {
        self.flag
    }

    pub fn new() -> (m: ArchMutex)
        ensures
            m.unlocked(),
    {
        ArchMutex { flag: true }
    }

    /// Take the lock; succeeds exactly when it was free.
    pub fn lock(&mut self) -> (r: bool)
        ensures
            r == old(self).unlocked(),
            !final(self).unlocked(),
    {
        let was_free = self.flag;
        self.flag = false;
        was_free
    }

    /// Give the lock back; succeeds exactly when it was held.
    pub fn unlock(&mut self) -> (r: bool)
        ensures
            r == !old(self).unlocked(),
            final(self).unlocked(),
    {
        let was_held = !self.flag;
        self.flag = true;
        was_held
    }
}

} // verus!
