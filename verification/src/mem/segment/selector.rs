//! Segment selectors and privilege levels.

use vstd::prelude::*;

use crate::field::{range_read, read_range, BitField, BitRange};

verus! {

/// A 16-bit segment selector.
pub struct Selector {
    pub(crate) data: u16,
}

/// A privilege level, 0 (most privileged) to 3. Requestor, descriptor, and
/// current privilege levels are numerically the same values; the distinction
/// is purely semantic.
#[derive(PartialEq, Eq, PartialOrd, Ord, Clone, Copy, Structural, Debug)]
pub struct Privilege {
    pub(crate) data: u8,
}

/// The requestor privilege level carried by a raw selector: its low two
/// bits.
pub open spec fn spec_rpl(sel: u16) -> u64 {
    range_read(sel as u64, BitRange { lo: 0, width: 2 })
}

impl Selector {
    /// The selector's raw bits.
    pub open(crate) spec fn bits(&self) -> u16 {
        self.data
    }

    pub fn new(data: u16) -> (s: Selector)
        ensures
            s.bits() == data,
    {
        Selector { data }
    }

    /// ### Requestor Privilege-Level field
    /// The privilege level the selector was created at.
    pub fn rpl(&self) -> (p: Privilege)
        ensures
            p.level() as u64 == spec_rpl(self.bits()),
            p.level() <= 3,
    {
        let v = read_range(self.data as u64, RPL::field().range);
        proof {
            crate::field::lemma_low_mask_values();
        }
        Privilege { data: v as u8 }
    }

    /// ### Table Indicator bit
    /// True when the selector refers to the local table rather than the
    /// global one.
    pub fn ti(&self) -> (b: bool)
        ensures
            b == (range_read(self.bits() as u64, (BitRange { lo: 2, width: 1 })) == 1),
    {
        read_range(self.data as u64, TI::field().range) == 1
    }

    /// ### Selector Index field
    /// The entry the selector picks out of its descriptor table.
    pub fn si(&self) -> (v: u16)
        ensures
            v as u64 == range_read(self.bits() as u64, (BitRange { lo: 3, width: 13 })),
    {
        let v = read_range(self.data as u64, SI::field().range);
        proof {
            crate::field::lemma_low_mask_values();
        }
        v as u16
    }
}

impl Privilege {
    /// The numeric level, 0 to 3.
    pub open(crate) spec fn level(&self) -> u8 {
        self.data
    }

    pub fn new(level: u8) -> (p: Privilege)
        requires
            level <= 3,
        ensures
            p.level() == level,
    {
        Privilege { data: level }
    }

    /// The most privileged level.
    pub fn pl0() -> (p: Privilege)
        ensures
            p.level() == 0,
    {
        Privilege { data: 0 }
    }

    pub fn pl1() -> (p: Privilege)
        ensures
            p.level() == 1,
    {
        Privilege { data: 1 }
    }

    pub fn pl2() -> (p: Privilege)
        ensures
            p.level() == 2,
    {
        Privilege { data: 2 }
    }

    /// The least privileged level.
    pub fn pl3() -> (p: Privilege)
        ensures
            p.level() == 3,
    {
        Privilege { data: 3 }
    }

    /// The level's name, for reporting.
    pub fn describe(&self) -> (s: &'static str)
    {
        if self.data == 0 {
            "PL0"
        } else if self.data == 1 {
            "PL1"
        } else if self.data == 2 {
            "PL2"
        } else if self.data == 3 {
            "PL3"
        } else {
            "unknown privilege"
        }
    }
}

/// The four privilege levels by name.
pub enum Privileges {
    PL0,
    PL1,
    PL2,
    PL3,
}

/// ### Requestor Privilege-Level field marker
pub struct RPL;

impl RPL {
    pub fn field() -> (f: BitField)
        ensures
            f == (BitField {
                range: (BitRange { lo: 0, width: 2 }),
                writable: true,
                default: 0,
            }),
    {
        BitField::rw(0, 2)
    }
}

/// ### Table Indicator field marker
pub struct TI;

impl TI {
    pub fn field() -> (f: BitField)
        ensures
            f == (BitField {
                range: (BitRange { lo: 2, width: 1 }),
                writable: true,
                default: 0,
            }),
    {
        BitField::flag(2)
    }
}

/// ### Selector Index field marker
pub struct SI;

impl SI {
    pub fn field() -> (f: BitField)
        ensures
            f == (BitField {
                range: (BitRange { lo: 3, width: 13 }),
                writable: true,
                default: 0,
            }),
    {
        BitField::rw(3, 13)
    }
}

} // verus!
