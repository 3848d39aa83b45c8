//! Descriptor-table registers.

pub mod gdtr;
