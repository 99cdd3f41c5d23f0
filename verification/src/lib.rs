//! Verified core of a small x86_64 kernel: descriptor and APIC register
//! encodings, ACPI table parsing, exception fix-up lookup, the physical
//! memory map scan and the freestanding memory routines.

pub mod apic;
pub mod arch;
pub mod bits;
pub mod globals;
pub mod hal;
pub mod mm;
pub mod shim;
