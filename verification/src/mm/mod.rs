//! Memory management.

pub mod pmm;
