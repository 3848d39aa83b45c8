//! The code-segment register: read-only access to the selector the context
//! currently executes under, whose privilege level guards every register
//! handle.

use vstd::prelude::*;

use crate::machine::Machine;
use crate::mem::segment::selector::Selector;

verus! {

/// The code-segment register.
pub struct Cs;

/// A snapshot of the code-segment register's selector.
pub struct CsBuffer {
    pub selector: Selector,
}

impl Cs {
    /// Read the current code-segment selector out of the context. Reading
    /// needs no permit and no privilege; the selector cannot be written
    /// through this layer.
    pub fn buffer(m: &Machine) -> (b: CsBuffer)
        ensures
            b.selector.bits() == m.cs,
    {
        CsBuffer { selector: Selector { data: m.cs } }
    }
}

} // verus!
