# x86_kernel

The verified core of a small x86_64 hobby kernel (GDT, IDT, x2APIC, ACPI
table walking, a recoverable-fault exception table, the memory map scan and
the C memory routines), written in Verus.

- `src/` is the library. Every function there carries a contract, and Verus
  proves all of them except the four trusted wrappers in `bits`: register
  and descriptor encodings (`apic`, `hal::gdt`, `hal::idt`, `arch`), ACPI table parsing from raw bytes (`hal::acpi`), the exception
  fix-up lookup (`hal::extable`), the memory map scan (`mm::pmm`) and the
  memory routines on byte slices (`shim`). Bit ranges are read and written
  through the `bitfield` crate (`bits`): the four small functions there that
  call it are trusted, their contracts taken from the crate's source.
- `app/` is the kernel image around it: the Limine boot requests, inline
  assembly for port, MSR, control-register and descriptor-table access, the
  interrupt entry stubs, logging, and the reads of firmware tables out of
  memory that feed the library.
- `tests/` runs the library on concrete values.
