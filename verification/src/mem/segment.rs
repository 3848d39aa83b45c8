//! Segment selectors and the code-segment register.

pub mod cs;
pub mod selector;
