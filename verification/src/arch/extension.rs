//! The feature-gated extension handles: the capability query and feature
//! cache together with the registers whose fields they guard, and the
//! process-context-identifier capability built on top of them.

use vstd::prelude::*;

use crate::cpuid::feature::{spec_support_pcid, StdFeature};
use crate::cpuid::Cpuid;
use crate::cr::cr4::{spec_pcide, Cr4, Cr4Buffer};
use crate::field::{range_write, BitRange};
use crate::machine::Machine;
use crate::msr::efer::{spec_lma, spec_low32, Efer};
use crate::{Clean, RegBuffer};

verus! {

/// The feature-gated handles: the feature cache is the only field with
/// meaningful contents.
pub struct ArchExtension {
    pub std_feature: StdFeature,
    pub cpuid: Cpuid,
    pub efer: Efer,
    pub cr4: Cr4,
}

impl ArchExtension {
    /// What the process-context-identifier capability requires: long mode
    /// active and the feature advertised, read against machine state `m`
    /// and feature cache `f`.
    pub open spec fn can_pcid(m: Machine, f: StdFeature) -> bool {
        spec_lma(spec_low32(m.efer)) && spec_support_pcid(f)
    }

    /// Acquire the process-context-identifier capability: a fresh
    /// extended-feature-enable snapshot must show long mode active and the
    /// feature cache must advertise the identifiers; the capability then
    /// holds the live CR4 snapshot. Refused — with every permit back in
    /// its slot — when either condition fails or a needed snapshot is already
    /// checked out.
    #[verifier::rlimit(50)]
    pub fn pcid_extension(&self, m: &mut Machine) -> (r: Option<PcidExtension>)
        ensures
            r.is_some() <==> (!old(m).efer_buffer_taken && Self::can_pcid(
                *old(m),
                self.std_feature,
            ) && !old(m).cr4_buffer_taken),
            r.is_some() ==> *final(m) == (Machine { cr4_buffer_taken: true, ..*old(m) }),
            r.is_none() ==> *final(m) == *old(m),
            match r {
                Some(p) => p.wf() && p.bits() == old(m).cr4,
                None => true,
            },
    {
        let efer_clean = match self.efer.buffer(m) {
            Some(c) => c,
            None => { return None },
        };
        let lma = efer_clean.long_mode_activated();
        efer_clean.release(m);
        if lma && self.std_feature.support_pcid() {
            match self.cr4.buffer(m) {
                Some(cr4_buffer) => Some(PcidExtension { cr4_buffer }),
                None => None,
            }
        } else {
            None
        }
    }
}

/// The capability to switch process-context identifiers on or off: its
/// existence proves the checks passed, and it owns the CR4 snapshot the
/// switch commits.
pub struct PcidExtension {
    pub(crate) cr4_buffer: Clean<Cr4Buffer>,
}

impl PcidExtension {
    /// The held CR4 snapshot's bits.
    pub open(crate) spec fn bits(&self) -> u64 {
        self.cr4_buffer.bits()
    }

    pub open(crate) spec fn wf(&self) -> bool {
        self.cr4_buffer.wf()
    }

    /// Commit CR4 with the identifier-enable bit set: exactly that bit
    /// changes against the held snapshot, and the snapshot's permit
    /// returns to its slot. The conditions were checked when the capability was
    /// built.
    pub fn enable(self, m: &mut Machine)
        requires
            self.wf(),
        ensures
            *final(m) == (Machine {
                cr4: range_write(self.bits(), (BitRange { lo: 17, width: 1 }), 1),
                cr4_buffer_taken: false,
                ..*old(m)
            }),
    {
        let dirty = self.cr4_buffer.asume_dirty().enable_pcid_uncheck();
        let clean = dirty.flush(m);
        clean.release(m);
    }

    /// Commit CR4 with the identifier-enable bit clear: exactly that bit
    /// changes against the held snapshot, and the snapshot's permit
    /// returns to its slot.
    pub fn disable(self, m: &mut Machine)
        requires
            self.wf(),
        ensures
            *final(m) == (Machine {
                cr4: range_write(self.bits(), (BitRange { lo: 17, width: 1 }), 0),
                cr4_buffer_taken: false,
                ..*old(m)
            }),
    {
        let dirty = self.cr4_buffer.asume_dirty().disable_pcid_uncheck();
        let clean = dirty.flush(m);
        clean.release(m);
    }

    /// Whether the held snapshot shows the identifiers enabled.
    pub fn enabled(&self) -> (b: bool)
        requires
            self.wf(),
        ensures
            b == spec_pcide(self.bits()),
    {
        self.cr4_buffer.pcid_enabled()
    }

    /// Whether the held snapshot shows the identifiers disabled.
    pub fn disabled(&self) -> (b: bool)
        requires
            self.wf(),
        ensures
            b == !spec_pcide(self.bits()),
    {
        !self.cr4_buffer.pcid_enabled()
    }
}

} // verus!
