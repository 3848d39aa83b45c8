//! The standard-feature words: a read-only cache of the two result words of
//! the processor's feature query, with typed accessors for the bits this
//! layer checks on.

use vstd::prelude::*;

use crate::field::{range_read, read_range, BitField, BitRange};

verus! {

/// The cached feature words.
#[derive(Debug)]
pub struct StdFeature {
    pub(crate) ecx: u32,
    pub(crate) edx: u32,
}

/// The media-extensions feature bit of the feature words.
pub open spec fn spec_support_sse3(f: StdFeature) -> bool {
    range_read(f.ecx_bits() as u64, BitRange { lo: 0, width: 1 }) == 1
}

/// The process-context-identifier feature bit of the feature words.
pub open spec fn spec_support_pcid(f: StdFeature) -> bool {
    range_read(f.ecx_bits() as u64, BitRange { lo: 17, width: 1 }) == 1
}

/// The floating-point-unit feature bit of the feature words.
pub open spec fn spec_support_fpu(f: StdFeature) -> bool {
    range_read(f.edx_bits() as u64, BitRange { lo: 0, width: 1 }) == 1
}

/// The model-specific-register feature bit of the feature words.
pub open spec fn spec_support_msr(f: StdFeature) -> bool {
    range_read(f.edx_bits() as u64, BitRange { lo: 5, width: 1 }) == 1
}

/// The feature cache that the context's recorded feature words produce.
pub open(crate) spec fn feature_of(m: crate::machine::Machine) -> StdFeature {
    StdFeature { ecx: m.cpuid_ecx, edx: m.cpuid_edx }
}

impl StdFeature {
    /// The first feature word.
    pub open(crate) spec fn ecx_bits(&self) -> u32 {
        self.ecx
    }

    /// The second feature word.
    pub open(crate) spec fn edx_bits(&self) -> u32 {
        self.edx
    }

    /// Build the cache from the two feature words, as a platform that has
    /// run the query hands them over.
    pub fn new(ecx: u32, edx: u32) -> (f: StdFeature)
        ensures
            f.ecx_bits() == ecx,
            f.edx_bits() == edx,
    {
        StdFeature { ecx, edx }
    }

    /// Whether the processor has model-specific registers.
    pub fn support_msr(&self) -> (b: bool)
        ensures
            b == spec_support_msr(*self),
    {
        read_range(self.edx as u64, MSR::field().range) == 1
    }

    /// Whether the processor has a floating-point unit.
    pub fn support_fpu(&self) -> (b: bool)
        ensures
            b == spec_support_fpu(*self),
    {
        read_range(self.edx as u64, FPU::field().range) == 1
    }

    /// Whether the processor has the media extensions.
    pub fn support_sse3(&self) -> (b: bool)
        ensures
            b == spec_support_sse3(*self),
    {
        read_range(self.ecx as u64, SSE3::field().range) == 1
    }

    /// Whether the processor has process-context identifiers.
    pub fn support_pcid(&self) -> (b: bool)
        ensures
            b == spec_support_pcid(*self),
    {
        read_range(self.ecx as u64, PCID::field().range) == 1
    }

    /// A report of the feature bits this layer checks on.
    pub fn describe(&self) -> (s: &'static str) {
        let msr = self.support_msr();
        let sse3 = self.support_sse3();
        if msr && sse3 {
            "MSR: true\nSSE: true\n"
        } else if msr {
            "MSR: true\nSSE: false\n"
        } else if sse3 {
            "MSR: false\nSSE: true\n"
        } else {
            "MSR: false\nSSE: false\n"
        }
    }
}

/// Media-extensions feature bit, in the first feature word.
pub struct SSE3;

impl SSE3 {
    pub fn field() -> (f: BitField)
        ensures
            f == (BitField { range: (BitRange { lo: 0, width: 1 }), writable: false, default: 0 }),
    {
        BitField::flag_ro(0)
    }
}

/// Process-context-identifier feature bit, in the first feature word.
pub struct PCID;

impl PCID {
    pub fn field() -> (f: BitField)
        ensures
            f == (BitField { range: (BitRange { lo: 17, width: 1 }), writable: false, default: 0 }),
    {
        BitField::flag_ro(17)
    }
}

/// Floating-point-unit feature bit, in the second feature word.
pub struct FPU;

impl FPU {
    pub fn field() -> (f: BitField)
        ensures
            f == (BitField { range: (BitRange { lo: 0, width: 1 }), writable: false, default: 0 }),
    {
        BitField::flag_ro(0)
    }
}

/// Model-specific-register feature bit, in the second feature word.
pub struct MSR;

impl MSR {
    pub fn field() -> (f: BitField)
        ensures
            f == (BitField { range: (BitRange { lo: 5, width: 1 }), writable: false, default: 0 }),
    {
        BitField::flag_ro(5)
    }
}

} // verus!
