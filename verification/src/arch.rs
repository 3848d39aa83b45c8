//! The whole-architecture handle: one acquisition that gathers the control
//! registers a kernel owns from boot, and the extension handle that gathers
//! the feature-gated ones.

pub mod extension;

use vstd::prelude::*;

use crate::arch::extension::ArchExtension;
use crate::cpuid::feature::feature_of;
use crate::cpuid::feature::spec_support_msr;
use crate::cpuid::Cpuid;
use crate::cr::cr0::Cr0;
use crate::cr::cr2::Cr2;
use crate::cr::cr3::Cr3;
use crate::cr::cr4::Cr4;
use crate::cr::cr8::Cr8;
use crate::machine::Machine;
use crate::mem::segment::cs::Cs;
use crate::mem::segment::selector::{spec_rpl, Privilege};
use crate::msr::efer::Efer;

verus! {

/// Every register handle the context owns once it runs privileged. The
/// handles occupy no meaningful space; what matters is that each is the
/// only live one of its kind.
pub struct Arch {
    pub cr0: Cr0,
    pub cr2: Cr2,
    pub cr3: Cr3,
    pub cr8: Cr8,
}

impl Arch {
    /// What gathering the handles requires: most privileged level, and the
    /// permits of the slot-guarded registers in their slots.
    pub open spec fn can_acquire(m: Machine) -> bool {
        spec_rpl(m.cs) == 0 && !m.cr0_taken && !m.cr2_taken && !m.cr3_taken
    }

    /// Gather the control-register handles. Succeeds exactly when the
    /// context runs at the most privileged level and none of the handles
    /// is already checked out; on refusal no permit is retained. Reading
    /// the registers safely still requires their snapshots.
    pub fn init(m: &mut Machine) -> (r: Option<Arch>)
        ensures
            r.is_some() <==> Self::can_acquire(*old(m)),
            r.is_some() ==> *final(m) == (Machine {
                cr0_taken: true,
                cr2_taken: true,
                cr3_taken: true,
                ..*old(m)
            }),
            r.is_none() ==> *final(m) == *old(m),
    {
        let cs = Cs::buffer(m);
        if cs.selector.rpl() != Privilege::pl0() {
            return None;
        }
        if m.cr0_taken {
            return None;
        }
        if m.cr2_taken {
            return None;
        }
        if m.cr3_taken {
            return None;
        }
        let cr0 = match Cr0::inst_uncheck(m) {
            Some(c) => c,
            None => { return None },
        };
        let cr2 = match Cr2::inst_uncheck(m) {
            Some(c) => c,
            None => { return None },
        };
        let cr3 = match Cr3::inst_uncheck(m) {
            Some(c) => c,
            None => { return None },
        };
        Some(Arch { cr0, cr2, cr3, cr8: Cr8::inst_uncheck() })
    }

    /// Return every slot-guarded handle's permit to its slot.
    pub fn release(self, m: &mut Machine)
        ensures
            *final(m) == (Machine {
                cr0_taken: false,
                cr2_taken: false,
                cr3_taken: false,
                ..*old(m)
            }),
    {
        let Arch { cr0, cr2, cr3, cr8: _cr8 } = self;
        cr0.release(m);
        cr2.release(m);
        cr3.release(m);
    }

    /// Gather the feature-gated handles: the capability query, the feature
    /// cache, the extended-feature-enable register, and CR4. Succeeds
    /// exactly when the model-specific-register checks pass and both
    /// handles' permits are in their slots.
    pub fn extension(&self, m: &mut Machine) -> (r: Option<ArchExtension>)
        ensures
            r.is_some() <==> (spec_rpl(old(m).cs) == 0 && spec_support_msr(feature_of(*old(m)))
                && !old(m).efer_taken && !old(m).cr4_taken),
            r.is_some() ==> *final(m) == (Machine {
                efer_taken: true,
                cr4_taken: true,
                ..*old(m)
            }),
            r.is_none() ==> *final(m) == *old(m),
            match r {
                Some(ext) => ext.std_feature == feature_of(*old(m)),
                None => true,
            },
    {
        let cpuid = match Cpuid::inst() {
            Some(c) => c,
            None => { return None },
        };
        let std_feature = cpuid.std_feature(m);
        let efer = match Efer::inst(&std_feature, m) {
            Some(e) => e,
            None => { return None },
        };
        match Cr4::inst(m) {
            Some(cr4) => Some(ArchExtension { std_feature, cpuid, efer, cr4 }),
            None => {
                efer.release(m);
                None
            },
        }
    }
}

} // verus!
