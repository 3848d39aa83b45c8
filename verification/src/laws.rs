//! The protocol's laws, proved once over the specifications that every
//! operation's contract is written in. CR0 serves as the worked register;
//! the other registers share the same slot and snapshot design.

use vstd::prelude::*;

use crate::cr::cr0::{Cr0, Cr0Buffer};
use crate::cr::cr2::Cr2;
use crate::cr::cr4::spec_pcide;
use crate::cr::flags::{flags_load_hidden, flags_store_fixed, spec_flags_load, spec_flags_store};
use crate::field::{low_mask, range_read, range_write, BitField, BitRange};
use crate::machine::Machine;
use crate::{Dirty, RegBuffer};

verus! {

/// Law: local writes never reach the register without a commit. Acquire
/// the CR0 handle, load a snapshot, write any fields locally — `d` is the
/// dirty snapshot after any sequence of writes — and discard it: the
/// machine's CR0 still holds exactly the bits it held before the
/// acquisition, so a fresh load observes the value from before the
/// writes. Only `flush` ever changes a register.
pub proof fn lemma_no_write_without_commit(m0: Machine, d: Dirty<Cr0Buffer>)
    requires
        Cr0::can_acquire(m0),
        !m0.cr0_buffer_taken,
    ensures
        ({
            // the machine after the handle is acquired
            let m1 = Machine { cr0_taken: true, ..m0 };
            // the machine after the snapshot is loaded; the snapshot holds m1.cr0
            let m2 = Machine { cr0_buffer_taken: true, ..m1 };
            // the machine after the dirty snapshot is discarded, whatever was written
            let m3 = d.machine_released(m2);
            m3 == (Machine { cr0_taken: true, cr0_buffer_taken: false, ..m0 }) && m3.cr0 == m0.cr0
        }),
{
}

/// Law: acquisition is exclusive. Once a register handle is acquired —
/// the machine records its permit as taken — a second acquisition attempt
/// is refused whatever else the machine holds; after the handle is
/// released, acquisition is possible again. Stated for CR0 and CR2; the
/// other slot-guarded registers share the same contract shape.
pub proof fn lemma_second_acquire_fails(m: Machine)
    requires
        Cr0::can_acquire(m),
        Cr2::can_acquire(m),
    ensures
        !Cr0::can_acquire(Machine { cr0_taken: true, ..m }),
        Cr0::can_acquire(Machine { cr0_taken: false, ..Machine { cr0_taken: true, ..m } }),
        !Cr2::can_acquire(Machine { cr2_taken: true, ..m }),
        Cr2::can_acquire(Machine { cr2_taken: false, ..Machine { cr2_taken: true, ..m } }),
{
}

/// Law: a flags commit cannot modify the virtual-machine,
/// virtual-interrupt and interrupt-pending bits. Whatever the buffer
/// holds, the committed word agrees with the register's old value on
/// those bits, and with the buffer everywhere else.
pub proof fn lemma_flags_commit_fixed_bits(buf: u64, reg: u64)
    ensures
        spec_flags_store(buf, reg) & flags_store_fixed() == reg & flags_store_fixed(),
        spec_flags_store(buf, reg) & !flags_store_fixed() == buf & !flags_store_fixed(),
{
    assert(((buf & !0x001a_0000u64) | (reg & 0x001a_0000u64)) & 0x001a_0000u64 == reg
        & 0x001a_0000u64 && ((buf & !0x001a_0000u64) | (reg & 0x001a_0000u64)) & !0x001a_0000u64
        == buf & !0x001a_0000u64) by (bit_vector);
}

/// Law: a flags load never observes the resume or virtual-machine bits:
/// they are clear in every loaded image, which agrees with the register
/// everywhere else.
pub proof fn lemma_flags_load_hides_bits(reg: u64)
    ensures
        spec_flags_load(reg) & flags_load_hidden() == 0,
        spec_flags_load(reg) & !flags_load_hidden() == reg & !flags_load_hidden(),
{
    assert((reg & !0x0003_0000u64) & 0x0003_0000u64 == 0 && (reg & !0x0003_0000u64)
        & !0x0003_0000u64 == reg & !0x0003_0000u64) by (bit_vector);
}

/// Law: the gated identifier switch flips exactly one bit. Committing a
/// CR4 word with the identifier-enable bit written leaves every other bit
/// of the word untouched, and the enable bit reads back as written.
pub proof fn lemma_pcid_switch_flips_one_bit(w: u64)
    ensures
        range_write(w, (BitRange { lo: 17, width: 1 }), 1) == (w | 0x2_0000u64),
        range_write(w, (BitRange { lo: 17, width: 1 }), 0) == (w & !0x2_0000u64),
        spec_pcide(range_write(w, (BitRange { lo: 17, width: 1 }), 1)),
        !spec_pcide(range_write(w, (BitRange { lo: 17, width: 1 }), 0)),
{
    assert(crate::field::bits_write(w, 17, 1, 1) == (w | 0x2_0000u64) && crate::field::bits_write(
        w,
        17,
        1,
        0,
    ) == (w & !0x2_0000u64) && crate::field::bits_read(w | 0x2_0000u64, 17, 1) == 1
        && crate::field::bits_read(w & !0x2_0000u64, 17, 1) == 0) by (bit_vector);
}

/// Law: a snapshot write-and-commit changes the register exactly as the
/// field write says. Loading CR0, writing a field locally, and flushing
/// leaves the machine's CR0 holding the written word: the field reads
/// back the value and all bits outside the field's mask are the loaded
/// ones.
pub proof fn lemma_commit_writes_field(m: Machine, f: BitField, v: u64)
    requires
        f.wf(64),
        v <= low_mask(f.range.width),
    ensures
        range_read(range_write(m.cr0, f.range, v), f.range) == v,
        range_write(m.cr0, f.range, v) & !f.range.mask() == m.cr0 & !f.range.mask(),
{
    crate::field::lemma_field_round_trip(m.cr0, f, v);
}

} // verus!
