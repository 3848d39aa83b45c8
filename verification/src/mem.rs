//! Memory-facing pieces of the layer: segment selectors, the
//! global-descriptor-table register, and the memory-type-range registers.

pub mod descriptor;
pub mod mttr;
pub mod segment;
