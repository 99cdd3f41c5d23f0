//! Hardware abstraction: ACPI tables, the exception fix-up table, and the
//! kernel's own GDT and IDT.

pub mod acpi;
pub mod extable;
pub mod gdt;
pub mod idt;
