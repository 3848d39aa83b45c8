//! Model-specific registers: the read/write capability and the address-based
//! access primitives. The context records the two model-specific registers
//! this layer wraps — the extended-feature-enable register and the
//! system-configuration register; any other address reads as zero.

pub mod efer;
pub mod syscfg;

use vstd::prelude::*;

use crate::cpuid::feature::{spec_support_msr, StdFeature};
use crate::field::BitRange;
use crate::machine::Machine;
use crate::mem::segment::cs::Cs;
use crate::mem::segment::selector::{spec_rpl, Privilege};

verus! {

/// Address of the extended-feature-enable register.
pub const EFER_ADDR: u32 = 0xC000_0080;

/// Address of the system-configuration register.
pub const SYSCFG_ADDR: u32 = 0xC001_0010;

/// The capability to execute the model-specific-register instructions:
/// acquiring it proves the privilege and feature checks passed.
#[derive(Clone, Copy)]
pub struct Msr {
    _p: (),
}

impl Msr {
    /// Acquire the capability: the context must run at the most privileged
    /// level and the processor must advertise model-specific registers.
    /// The feature cache is read-only, so it can serve as the
    /// check's evidence.
    pub fn inst(std_feature: &StdFeature, m: &Machine) -> (r: Option<Msr>)
        ensures
            r.is_some() <==> (spec_rpl(m.cs) == 0 && spec_support_msr(*std_feature)),
    {
        let cs = Cs::buffer(m);
        if cs.selector.rpl() != Privilege::pl0() {
            return None;
        }
        if !std_feature.support_msr() {
            return None;
        }
        Some(Msr { _p: () })
    }

    /// Acquire the capability without the checks, for callers that have
    /// already checked them.
    pub fn inst_uncheck() -> Msr {
        Msr { _p: () }
    }

    /// ## Read a model-specific register
    ///
    /// The platform's privileged read. The context records the two
    /// registers this layer wraps; reading an unimplemented address
    /// faults at processor level, so other addresses are out of the
    /// model.
    pub fn read(&self, m: &Machine, addr: u32) -> (r: u64)
        requires
            addr == EFER_ADDR || addr == SYSCFG_ADDR,
        ensures
            addr == EFER_ADDR ==> r == m.efer,
            addr == SYSCFG_ADDR ==> r == m.syscfg,
    {
        if addr == EFER_ADDR {
            m.efer
        } else {
            m.syscfg
        }
    }

    /// ## Write a model-specific register
    ///
    /// The platform's privileged write of a low and a high word. Writing
    /// an unimplemented or reserved address faults at processor level, so
    /// only the two registers the context records are in the model.
    pub fn write(&mut self, m: &mut Machine, reg_addr: u32, low: u32, high: u32)
        requires
            reg_addr == EFER_ADDR || reg_addr == SYSCFG_ADDR,
        ensures
            reg_addr == EFER_ADDR ==> *final(m) == (Machine {
                efer: (low + high * 0x1_0000_0000u64) as u64,
                ..*old(m)
            }),
            reg_addr == SYSCFG_ADDR ==> *final(m) == (Machine {
                syscfg: (low + high * 0x1_0000_0000u64) as u64,
                ..*old(m)
            }),
    {
        let value = combine_words(low, high);
        if reg_addr == EFER_ADDR {
            m.efer = value;
        } else {
            m.syscfg = value;
        }
    }
}

/// Join a low and a high 32-bit word into one 64-bit register value.
pub(crate) fn combine_words(low: u32, high: u32) -> (v: u64)
    ensures
        v == (low + high * 0x1_0000_0000u64) as u64,
{
    let v = (low as u64) | ((high as u64) << 32u64);
    proof {
        let l = low as u64;
        let h = high as u64;
        assert(l | (h << 32u64) == l + h * 0x1_0000_0000) by (bit_vector)
            requires
                l <= 0xffff_ffffu64,
                h <= 0xffff_ffffu64,
        ;
    }
    v
}

} // verus!
