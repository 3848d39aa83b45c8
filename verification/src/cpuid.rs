//! The processor-capability query: given a function number, the processor
//! reports information about itself. The model records the standard-feature
//! leaf, the one this layer consults to guard register operations.

pub mod feature;

use vstd::prelude::*;

use crate::cpuid::feature::StdFeature;
use crate::machine::Machine;

verus! {

/// The four result words of one capability query.
#[derive(Debug, Default)]
pub struct CpuidResult {
    pub eax: u32,
    pub ebx: u32,
    pub ecx: u32,
    pub edx: u32,
}

/// The capability-query handle.
pub struct Cpuid {
    _p: (),
}

impl Cpuid {
    /// Acquire the query handle. Every 64-bit processor supports the query
    /// instruction, so acquisition always succeeds; the optional result
    /// keeps the acquisition shape every other handle has.
    pub fn inst() -> (r: Option<Cpuid>)
        ensures
            r.is_some(),
    {
        Some(Cpuid { _p: () })
    }

    /// Query the processor by function number. The context records the
    /// standard-feature leaf — function 1, sub-function 0 — which is the
    /// only one this layer consults; what any other query reports is
    /// outside the model and left unspecified.
    pub fn query(&self, m: &Machine, leaf: u64, sub_leaf: u64) -> (r: CpuidResult)
        ensures
            leaf == 1 && sub_leaf == 0 ==> r == (CpuidResult {
                eax: 0,
                ebx: 0,
                ecx: m.cpuid_ecx,
                edx: m.cpuid_edx,
            }),
    {
        if leaf == 1 && sub_leaf == 0 {
            CpuidResult { eax: 0, ebx: 0, ecx: m.cpuid_ecx, edx: m.cpuid_edx }
        } else {
            CpuidResult { eax: 0, ebx: 0, ecx: 0, edx: 0 }
        }
    }

    /// The standard-feature words: what the feature leaf reports.
    pub fn std_feature(&self, m: &Machine) -> (f: StdFeature)
        ensures
            f.ecx_bits() == m.cpuid_ecx,
            f.edx_bits() == m.cpuid_edx,
    {
        let result = self.query(m, 1, 0);
        StdFeature { ecx: result.ecx, edx: result.edx }
    }
}

} // verus!
