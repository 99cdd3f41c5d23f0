//! The kernel's global descriptor table: a null descriptor, a 64-bit code
//! segment and a data segment, each built bit field by bit field.

use crate::arch::DescriptorTablePointer;
use crate::bits::{bits_of64, get_bits64, set_bits64, with_bits64};
use vstd::prelude::*;

verus! {

/// Number of 8-byte slots in the kernel GDT.
pub const KGDT_ENTRIES: usize = 16;

/// Selector of the kernel code segment (GDT slot 1, ring 0).
pub const KERNEL_CODE_SELECTOR: u16 = 0x08;

/// Selector of the kernel data segment (GDT slot 2, ring 0).
pub const KERNEL_DATA_SELECTOR: u16 = 0x10;

/// The 64-bit kernel code descriptor: readable, executable, code/data
/// segment, present, long mode; limit, base and privilege level zero.
pub open spec fn kernel_code_64() -> u64 {
    (1u64 << 41u64) | (1u64 << 43u64) | (1u64 << 44u64) | (1u64 << 47u64) | (1u64 << 53u64)
}

/// The kernel data descriptor: writable, accessed, code/data segment,
/// present; limit, base and privilege level zero.
pub open spec fn kernel_data_64() -> u64 {
    (1u64 << 40u64) | (1u64 << 41u64) | (1u64 << 44u64) | (1u64 << 47u64)
}

/// A segment descriptor (an 8-byte GDT entry).
#[derive(Clone, Copy, Debug, PartialEq, Eq)]
pub struct SegmentDescriptor(pub u64);

/// Field accessors of `SegmentDescriptor`: each `get_` reads its bit range, moved down
/// to bit 0; each `set_` writes the value's low bits into that range and
/// keeps every other bit.
impl SegmentDescriptor {
    /// The low 16 bits of the segment limit (bits 0..=15).
    pub fn get_limit_low(&self) -> (r: u64)
        ensures
            r == bits_of64(self.0, 15, 0),
    {
        get_bits64(self.0, 15, 0)
    }

    /// Writes the low 16 bits of the segment limit (bits 0..=15).
    pub fn set_limit_low(&mut self, value: u64)
        ensures
            final(self).0 == with_bits64(old(self).0, 15, 0, value),
    {
        self.0 = set_bits64(self.0, 15, 0, value);
    }

    /// The low 16 bits of the base (bits 16..=31).
    pub fn get_base_low(&self) -> (r: u64)
        ensures
            r == bits_of64(self.0, 31, 16),
    {
        get_bits64(self.0, 31, 16)
    }

    /// Writes the low 16 bits of the base (bits 16..=31).
    pub fn set_base_low(&mut self, value: u64)
        ensures
            final(self).0 == with_bits64(old(self).0, 31, 16, value),
    {
        self.0 = set_bits64(self.0, 31, 16, value);
    }

    /// Bits 16-23 of the base (bits 32..=39).
    pub fn get_base_middle(&self) -> (r: u64)
        ensures
            r == bits_of64(self.0, 39, 32),
    {
        get_bits64(self.0, 39, 32)
    }

    /// Writes bits 16-23 of the base (bits 32..=39).
    pub fn set_base_middle(&mut self, value: u64)
        ensures
            final(self).0 == with_bits64(old(self).0, 39, 32, value),
    {
        self.0 = set_bits64(self.0, 39, 32, value);
    }

    /// The accessed bit (bits 40..=40).
    pub fn get_access(&self) -> (r: u64)
        ensures
            r == bits_of64(self.0, 40, 40),
    {
        get_bits64(self.0, 40, 40)
    }

    /// Writes the accessed bit (bits 40..=40).
    pub fn set_access(&mut self, value: u64)
        ensures
            final(self).0 == with_bits64(old(self).0, 40, 40, value),
    {
        self.0 = set_bits64(self.0, 40, 40, value);
    }

    /// The readable (code) or writable (data) bit (bits 41..=41).
    pub fn get_rw(&self) -> (r: u64)
        ensures
            r == bits_of64(self.0, 41, 41),
    {
        get_bits64(self.0, 41, 41)
    }

    /// Writes the readable (code) or writable (data) bit (bits 41..=41).
    pub fn set_rw(&mut self, value: u64)
        ensures
            final(self).0 == with_bits64(old(self).0, 41, 41, value),
    {
        self.0 = set_bits64(self.0, 41, 41, value);
    }

    /// The direction (data) or conforming (code) bit (bits 42..=42).
    pub fn get_dc(&self) -> (r: u64)
        ensures
            r == bits_of64(self.0, 42, 42),
    {
        get_bits64(self.0, 42, 42)
    }

    /// Writes the direction (data) or conforming (code) bit (bits 42..=42).
    pub fn set_dc(&mut self, value: u64)
        ensures
            final(self).0 == with_bits64(old(self).0, 42, 42, value),
    {
        self.0 = set_bits64(self.0, 42, 42, value);
    }

    /// The executable bit (bits 43..=43).
    pub fn get_executable(&self) -> (r: u64)
        ensures
            r == bits_of64(self.0, 43, 43),
    {
        get_bits64(self.0, 43, 43)
    }

    /// Writes the executable bit (bits 43..=43).
    pub fn set_executable(&mut self, value: u64)
        ensures
            final(self).0 == with_bits64(old(self).0, 43, 43, value),
    {
        self.0 = set_bits64(self.0, 43, 43, value);
    }

    /// The code/data segment bit (bits 44..=44).
    pub fn get_code_data(&self) -> (r: u64)
        ensures
            r == bits_of64(self.0, 44, 44),
    {
        get_bits64(self.0, 44, 44)
    }

    /// Writes the code/data segment bit (bits 44..=44).
    pub fn set_code_data(&mut self, value: u64)
        ensures
            final(self).0 == with_bits64(old(self).0, 44, 44, value),
    {
        self.0 = set_bits64(self.0, 44, 44, value);
    }

    /// The descriptor privilege level (bits 45..=46).
    pub fn get_dpl(&self) -> (r: u64)
        ensures
            r == bits_of64(self.0, 46, 45),
    {
        get_bits64(self.0, 46, 45)
    }

    /// Writes the descriptor privilege level (bits 45..=46).
    pub fn set_dpl(&mut self, value: u64)
        ensures
            final(self).0 == with_bits64(old(self).0, 46, 45, value),
    {
        self.0 = set_bits64(self.0, 46, 45, value);
    }

    /// The present bit (bits 47..=47).
    pub fn get_present(&self) -> (r: u64)
        ensures
            r == bits_of64(self.0, 47, 47),
    {
        get_bits64(self.0, 47, 47)
    }

    /// Writes the present bit (bits 47..=47).
    pub fn set_present(&mut self, value: u64)
        ensures
            final(self).0 == with_bits64(old(self).0, 47, 47, value),
    {
        self.0 = set_bits64(self.0, 47, 47, value);
    }

    /// The high 4 bits of the segment limit (bits 48..=51).
    pub fn get_limit_high(&self) -> (r: u64)
        ensures
            r == bits_of64(self.0, 51, 48),
    {
        get_bits64(self.0, 51, 48)
    }

    /// Writes the high 4 bits of the segment limit (bits 48..=51).
    pub fn set_limit_high(&mut self, value: u64)
        ensures
            final(self).0 == with_bits64(old(self).0, 51, 48, value),
    {
        self.0 = set_bits64(self.0, 51, 48, value);
    }

    /// The bit available to software (bits 52..=52).
    pub fn get_avl(&self) -> (r: u64)
        ensures
            r == bits_of64(self.0, 52, 52),
    {
        get_bits64(self.0, 52, 52)
    }

    /// Writes the bit available to software (bits 52..=52).
    pub fn set_avl(&mut self, value: u64)
        ensures
            final(self).0 == with_bits64(old(self).0, 52, 52, value),
    {
        self.0 = set_bits64(self.0, 52, 52, value);
    }

    /// The 64-bit code segment bit (bits 53..=53).
    pub fn get_long_mode(&self) -> (r: u64)
        ensures
            r == bits_of64(self.0, 53, 53),
    {
        get_bits64(self.0, 53, 53)
    }

    /// Writes the 64-bit code segment bit (bits 53..=53).
    pub fn set_long_mode(&mut self, value: u64)
        ensures
            final(self).0 == with_bits64(old(self).0, 53, 53, value),
    {
        self.0 = set_bits64(self.0, 53, 53, value);
    }

    /// The default operand size bit (bits 54..=54).
    pub fn get_default_bit(&self) -> (r: u64)
        ensures
            r == bits_of64(self.0, 54, 54),
    {
        get_bits64(self.0, 54, 54)
    }

    /// Writes the default operand size bit (bits 54..=54).
    pub fn set_default_bit(&mut self, value: u64)
        ensures
            final(self).0 == with_bits64(old(self).0, 54, 54, value),
    {
        self.0 = set_bits64(self.0, 54, 54, value);
    }

    /// The granularity bit (bits 55..=55).
    pub fn get_granularity(&self) -> (r: u64)
        ensures
            r == bits_of64(self.0, 55, 55),
    {
        get_bits64(self.0, 55, 55)
    }

    /// Writes the granularity bit (bits 55..=55).
    pub fn set_granularity(&mut self, value: u64)
        ensures
            final(self).0 == with_bits64(old(self).0, 55, 55, value),
    {
        self.0 = set_bits64(self.0, 55, 55, value);
    }

    /// The high 8 bits of the base (bits 56..=63).
    pub fn get_base_high(&self) -> (r: u64)
        ensures
            r == bits_of64(self.0, 63, 56),
    {
        get_bits64(self.0, 63, 56)
    }

    /// Writes the high 8 bits of the base (bits 56..=63).
    pub fn set_base_high(&mut self, value: u64)
        ensures
            final(self).0 == with_bits64(old(self).0, 63, 56, value),
    {
        self.0 = set_bits64(self.0, 63, 56, value);
    }

}

/// The 64-bit kernel code segment descriptor.
pub fn create_kernel_code_64() -> (d: u64)
    ensures
        d == kernel_code_64(),
        d == 0x0020_9A00_0000_0000u64,
{
    let mut descriptor = SegmentDescriptor(0);
    let ghost d0 = descriptor.0;
    descriptor.set_rw(1);
    let ghost d1 = descriptor.0;
    descriptor.set_executable(1);
    let ghost d2 = descriptor.0;
    descriptor.set_code_data(1);
    let ghost d3 = descriptor.0;
    descriptor.set_present(1);
    let ghost d4 = descriptor.0;
    descriptor.set_long_mode(1);
    let ghost d5 = descriptor.0;
    assert(d5 == (1u64 << 41u64) | (1u64 << 43u64) | (1u64 << 44u64) | (1u64 << 47u64) | (1u64
        << 53u64) && d5 == 0x0020_9A00_0000_0000u64) by (bit_vector)
        requires
            d0 == 0,
            d1 == with_bits64(d0, 41, 41, 1),
            d2 == with_bits64(d1, 43, 43, 1),
            d3 == with_bits64(d2, 44, 44, 1),
            d4 == with_bits64(d3, 47, 47, 1),
            d5 == with_bits64(d4, 53, 53, 1),
    ;
    descriptor.0
}

/// The kernel data segment descriptor.
pub fn create_kernel_data_64() -> (d: u64)
    ensures
        d == kernel_data_64(),
        d == 0x0000_9300_0000_0000u64,
{
    let mut descriptor = SegmentDescriptor(0);
    let ghost d0 = descriptor.0;
    descriptor.set_rw(1);
    let ghost d1 = descriptor.0;
    descriptor.set_access(1);
    let ghost d2 = descriptor.0;
    descriptor.set_code_data(1);
    let ghost d3 = descriptor.0;
    descriptor.set_present(1);
    let ghost d4 = descriptor.0;
    assert(d4 == (1u64 << 40u64) | (1u64 << 41u64) | (1u64 << 44u64) | (1u64 << 47u64) && d4
        == 0x0000_9300_0000_0000u64) by (bit_vector)
        requires
            d0 == 0,
            d1 == with_bits64(d0, 41, 41, 1),
            d2 == with_bits64(d1, 40, 40, 1),
            d3 == with_bits64(d2, 44, 44, 1),
            d4 == with_bits64(d3, 47, 47, 1),
    ;
    descriptor.0
}

/// The null descriptor that must fill GDT slot 0.
pub fn create_null() -> (d: u64)
    ensures
        d == 0,
{
    0u64
}

/// The kernel GDT: the null descriptor, the code descriptor, the data
/// descriptor, and unused (zero) slots after them.
pub fn kernel_gdt() -> (gdt: [u64; 16])
    ensures
        gdt@[0] == 0,
        gdt@[1] == kernel_code_64(),
        gdt@[2] == kernel_data_64(),
        forall|i: int| 3 <= i < 16 ==> gdt@[i] == 0,
{
    let mut gdt: [u64; 16] = [0; 16];
    gdt[0] = create_null();
    gdt[1] = create_kernel_code_64();
    gdt[2] = create_kernel_data_64();
    gdt
}

/// The `lgdt` operand for the kernel GDT placed at `base`: the limit is the
/// table's size in bytes minus one.
pub fn gdt_pointer(base: u64) -> (p: DescriptorTablePointer)
    ensures
        p.base == base,
        p.limit == 8 * KGDT_ENTRIES - 1,
{
    DescriptorTablePointer { limit: (8 * KGDT_ENTRIES - 1) as u16, base }
}

/// The segment selectors that the kernel loads index the descriptors it put
/// in the GDT, at privilege level 0 and in the GDT (not an LDT); and the two
/// descriptors read as present, privilege level 0, code/data segments, the
/// first an executable long-mode code segment and the second a writable,
/// non-executable data segment.
pub proof fn lemma_kernel_selectors_match_gdt()
    ensures
        KERNEL_CODE_SELECTOR / 8 == 1,
        KERNEL_CODE_SELECTOR % 8 == 0,
        KERNEL_DATA_SELECTOR / 8 == 2,
        KERNEL_DATA_SELECTOR % 8 == 0,
        bits_of64(kernel_code_64(), 47, 47) == 1,
        bits_of64(kernel_code_64(), 46, 45) == 0,
        bits_of64(kernel_code_64(), 44, 44) == 1,
        bits_of64(kernel_code_64(), 43, 43) == 1,
        bits_of64(kernel_code_64(), 53, 53) == 1,
        bits_of64(kernel_data_64(), 47, 47) == 1,
        bits_of64(kernel_data_64(), 46, 45) == 0,
        bits_of64(kernel_data_64(), 44, 44) == 1,
        bits_of64(kernel_data_64(), 43, 43) == 0,
        bits_of64(kernel_data_64(), 41, 41) == 1,
{
    assert(bits_of64(0x0020_9A00_0000_0000u64, 47, 47) == 1 && bits_of64(
        0x0020_9A00_0000_0000u64,
        46,
        45,
    ) == 0 && bits_of64(0x0020_9A00_0000_0000u64, 44, 44) == 1 && bits_of64(
        0x0020_9A00_0000_0000u64,
        43,
        43,
    ) == 1 && bits_of64(0x0020_9A00_0000_0000u64, 53, 53) == 1 && bits_of64(
        0x0000_9300_0000_0000u64,
        47,
        47,
    ) == 1 && bits_of64(0x0000_9300_0000_0000u64, 46, 45) == 0 && bits_of64(
        0x0000_9300_0000_0000u64,
        44,
        44,
    ) == 1 && bits_of64(0x0000_9300_0000_0000u64, 43, 43) == 0 && bits_of64(
        0x0000_9300_0000_0000u64,
        41,
        41,
    ) == 1 && kernel_code_64() == 0x0020_9A00_0000_0000u64 && kernel_data_64()
        == 0x0000_9300_0000_0000u64) by (bit_vector);
}

} // verus!
