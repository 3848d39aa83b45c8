//! The control registers, one module each.

pub mod cr0;
pub mod cr2;
pub mod cr3;
pub mod cr4;
pub mod cr8;
pub mod flags;
