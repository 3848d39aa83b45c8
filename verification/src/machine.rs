//! The execution context's view of the hardware: the bits each register
//! currently holds, the permit slot of every register that is checked out
//! through a handle, and the processor facts (code-segment selector, feature
//! words) that guard acquisition.
//!
//! One `Machine` value models one execution context. It is passed explicitly
//! to every operation that loads, commits, or checks, so registries can be
//! built and inspected in isolation; nothing in this crate reaches for
//! ambient global state. The framework offers no synchronization for several
//! contexts sharing one `Machine`.

use vstd::prelude::*;

verus! {

/// One execution context: register bits, permit slots, and gating facts.
///
/// A `*_taken` flag is true while the register's handle is checked out; a
/// `*_buffer_taken` flag is true while the register's snapshot buffer is
/// live. Register values wider than the register's architectural width never
/// arise: loads mask to the width, and verified writes preserve it.
pub struct Machine {
    /// Bits of the CR0 control register.
    pub cr0: u64,
    pub cr0_taken: bool,
    pub cr0_buffer_taken: bool,
    /// Bits of the CR2 page-fault address register.
    pub cr2: u64,
    pub cr2_taken: bool,
    pub cr2_buffer_taken: bool,
    /// Bits of the CR3 translation-table register.
    pub cr3: u64,
    pub cr3_taken: bool,
    pub cr3_buffer_taken: bool,
    /// Bits of the CR4 feature-control register.
    pub cr4: u64,
    pub cr4_taken: bool,
    pub cr4_buffer_taken: bool,
    /// Bits of the CR8 task-priority register.
    pub cr8: u64,
    pub cr8_buffer_taken: bool,
    /// Bits of the flags register.
    pub rflags: u64,
    pub rflags_buffer_taken: bool,
    /// Bits of the extended-feature-enable model-specific register.
    pub efer: u64,
    pub efer_taken: bool,
    pub efer_buffer_taken: bool,
    /// Bits of the system-configuration model-specific register.
    pub syscfg: u64,
    pub syscfg_buffer_taken: bool,
    /// Limit half of the global-descriptor-table register.
    pub gdtr_limit: u16,
    /// Base-address half of the global-descriptor-table register.
    pub gdtr_base: u64,
    pub gdtr_buffer_taken: bool,
    /// The current code-segment selector; its low two bits carry the
    /// privilege level the context runs at.
    pub cs: u16,
    /// The `ecx` word of the processor's standard-feature query.
    pub cpuid_ecx: u32,
    /// The `edx` word of the processor's standard-feature query.
    pub cpuid_edx: u32,
}

impl Machine {
    /// A context whose registers all read zero, whose permits are all in
    /// their slots, and which runs at the most privileged level.
    pub fn new() -> (m: Machine)
        ensures
            m == (Machine {
                cr0: 0,
                cr0_taken: false,
                cr0_buffer_taken: false,
                cr2: 0,
                cr2_taken: false,
                cr2_buffer_taken: false,
                cr3: 0,
                cr3_taken: false,
                cr3_buffer_taken: false,
                cr4: 0,
                cr4_taken: false,
                cr4_buffer_taken: false,
                cr8: 0,
                cr8_buffer_taken: false,
                rflags: 0,
                rflags_buffer_taken: false,
                efer: 0,
                efer_taken: false,
                efer_buffer_taken: false,
                syscfg: 0,
                syscfg_buffer_taken: false,
                gdtr_limit: 0,
                gdtr_base: 0,
                gdtr_buffer_taken: false,
                cs: 0,
                cpuid_ecx: 0,
                cpuid_edx: 0,
            }),
    {
        Machine {
            cr0: 0,
            cr0_taken: false,
            cr0_buffer_taken: false,
            cr2: 0,
            cr2_taken: false,
            cr2_buffer_taken: false,
            cr3: 0,
            cr3_taken: false,
            cr3_buffer_taken: false,
            cr4: 0,
            cr4_taken: false,
            cr4_buffer_taken: false,
            cr8: 0,
            cr8_buffer_taken: false,
            rflags: 0,
            rflags_buffer_taken: false,
            efer: 0,
            efer_taken: false,
            efer_buffer_taken: false,
            syscfg: 0,
            syscfg_buffer_taken: false,
            gdtr_limit: 0,
            gdtr_base: 0,
            gdtr_buffer_taken: false,
            cs: 0,
            cpuid_ecx: 0,
            cpuid_edx: 0,
        }
    }
}

} // verus!
