//! The kernel's interrupt descriptor table: 64-bit interrupt gates built bit
//! field by bit field.

use crate::arch::DescriptorTablePointer;
use crate::bits::{bits_of128, get_bits128, set_bits128, with_bits128};
use vstd::prelude::*;

verus! {

/// Number of 16-byte gates in the IDT.
pub const IDT_ENTRIES: usize = 256;

/// Vector of the divide error exception (#DE).
pub const DE_VECTOR: usize = 0;

/// Vector of the general protection exception (#GP).
pub const GP_VECTOR: usize = 13;

/// A 64-bit IDT gate descriptor.
#[derive(Clone, Copy, Debug, PartialEq, Eq)]
pub struct IdtEntry(pub u128);

/// The interrupt gate for the handler at `handler`, reached through code
/// segment `selector` on interrupt stack `ist` (its low three bits): the
/// handler address split over bits 0-15, 48-63 and 64-95, the selector in
/// bits 16-31, gate type 0xE (interrupt gate) in bits 40-43, privilege level
/// 0, present bit 47 set, every other bit zero.
pub open spec fn interrupt_gate(handler: u64, selector: u16, ist: u8) -> u128 {
    ((handler & 0xFFFF) as u128) | ((selector as u128) << 16u128) | (((ist & 7) as u128)
        << 32u128) | (0xEu128 << 40u128) | (1u128 << 47u128) | ((((handler >> 16u64) & 0xFFFF)
        as u128) << 48u128) | (((handler >> 32u64) as u128) << 64u128)
}

/// Field accessors of `IdtEntry`: each `get_` reads its bit range, moved down
/// to bit 0; each `set_` writes the value's low bits into that range and
/// keeps every other bit.
impl IdtEntry {
    /// Bits 0-15 of the handler address (bits 0..=15).
    pub fn get_offset_low(&self) -> (r: u128)
        ensures
            r == bits_of128(self.0, 15, 0),
    {
        get_bits128(self.0, 15, 0)
    }

    /// Writes bits 0-15 of the handler address (bits 0..=15).
    pub fn set_offset_low(&mut self, value: u128)
        ensures
            final(self).0 == with_bits128(old(self).0, 15, 0, value),
    {
        self.0 = set_bits128(self.0, 15, 0, value);
    }

    /// The code segment selector (bits 16..=31).
    pub fn get_selector(&self) -> (r: u128)
        ensures
            r == bits_of128(self.0, 31, 16),
    {
        get_bits128(self.0, 31, 16)
    }

    /// Writes the code segment selector (bits 16..=31).
    pub fn set_selector(&mut self, value: u128)
        ensures
            final(self).0 == with_bits128(old(self).0, 31, 16, value),
    {
        self.0 = set_bits128(self.0, 31, 16, value);
    }

    /// The interrupt stack table index (bits 32..=34).
    pub fn get_ist(&self) -> (r: u128)
        ensures
            r == bits_of128(self.0, 34, 32),
    {
        get_bits128(self.0, 34, 32)
    }

    /// Writes the interrupt stack table index (bits 32..=34).
    pub fn set_ist(&mut self, value: u128)
        ensures
            final(self).0 == with_bits128(old(self).0, 34, 32, value),
    {
        self.0 = set_bits128(self.0, 34, 32, value);
    }

    /// The kind of gate, 0xE for an interrupt gate, 0xF for a trap gate (bits 40..=43).
    pub fn get_gate_type(&self) -> (r: u128)
        ensures
            r == bits_of128(self.0, 43, 40),
    {
        get_bits128(self.0, 43, 40)
    }

    /// Writes the kind of gate (bits 40..=43).
    pub fn set_gate_type(&mut self, value: u128)
        ensures
            final(self).0 == with_bits128(old(self).0, 43, 40, value),
    {
        self.0 = set_bits128(self.0, 43, 40, value);
    }

    /// The descriptor privilege level (bits 45..=46).
    pub fn get_dpl(&self) -> (r: u128)
        ensures
            r == bits_of128(self.0, 46, 45),
    {
        get_bits128(self.0, 46, 45)
    }

    /// Writes the descriptor privilege level (bits 45..=46).
    pub fn set_dpl(&mut self, value: u128)
        ensures
            final(self).0 == with_bits128(old(self).0, 46, 45, value),
    {
        self.0 = set_bits128(self.0, 46, 45, value);
    }

    /// The present bit (bits 47..=47).
    pub fn get_present(&self) -> (r: u128)
        ensures
            r == bits_of128(self.0, 47, 47),
    {
        get_bits128(self.0, 47, 47)
    }

    /// Writes the present bit (bits 47..=47).
    pub fn set_present(&mut self, value: u128)
        ensures
            final(self).0 == with_bits128(old(self).0, 47, 47, value),
    {
        self.0 = set_bits128(self.0, 47, 47, value);
    }

    /// Bits 16-31 of the handler address (bits 48..=63).
    pub fn get_offset_high(&self) -> (r: u128)
        ensures
            r == bits_of128(self.0, 63, 48),
    {
        get_bits128(self.0, 63, 48)
    }

    /// Writes bits 16-31 of the handler address (bits 48..=63).
    pub fn set_offset_high(&mut self, value: u128)
        ensures
            final(self).0 == with_bits128(old(self).0, 63, 48, value),
    {
        self.0 = set_bits128(self.0, 63, 48, value);
    }

    /// Bits 32-63 of the handler address (bits 64..=95).
    pub fn get_offset_upper(&self) -> (r: u128)
        ensures
            r == bits_of128(self.0, 95, 64),
    {
        get_bits128(self.0, 95, 64)
    }

    /// Writes bits 32-63 of the handler address (bits 64..=95).
    pub fn set_offset_upper(&mut self, value: u128)
        ensures
            final(self).0 == with_bits128(old(self).0, 95, 64, value),
    {
        self.0 = set_bits128(self.0, 95, 64, value);
    }

}

impl IdtEntry {
    /// The interrupt gate for `handler` through `selector` on stack `ist`.
    pub fn new(handler: u64, selector: u16, ist: u8) -> (e: IdtEntry)
        ensures
            e.0 == interrupt_gate(handler, selector, ist),
    {
        let h0: u128 = handler as u128;
        let h1: u128 = (handler >> 16u64) as u128;
        let h2: u128 = (handler >> 32u64) as u128;
        let s: u128 = selector as u128;
        let t: u128 = ist as u128;
        let mut entry = IdtEntry(0);
        let ghost e0 = entry.0;
        entry.set_offset_low(h0);
        let ghost e1 = entry.0;
        entry.set_offset_high(h1);
        let ghost e2 = entry.0;
        entry.set_offset_upper(h2);
        let ghost e3 = entry.0;
        entry.set_selector(s);
        let ghost e4 = entry.0;
        entry.set_gate_type(0xE);  // interrupt gate
        let ghost e5 = entry.0;
        entry.set_present(1);
        let ghost e6 = entry.0;
        entry.set_dpl(0);
        let ghost e7 = entry.0;
        entry.set_ist(t);
        let ghost e8 = entry.0;
        assert(e8 == ((handler & 0xFFFF) as u128) | ((selector as u128) << 16u128) | (((ist & 7)
            as u128) << 32u128) | (0xEu128 << 40u128) | (1u128 << 47u128) | ((((handler >> 16u64)
            & 0xFFFF) as u128) << 48u128) | (((handler >> 32u64) as u128) << 64u128))
            by (bit_vector)
            requires
                h0 == handler as u128,
                h1 == (handler >> 16u64) as u128,
                h2 == (handler >> 32u64) as u128,
                s == selector as u128,
                t == ist as u128,
                e0 == 0,
                e1 == with_bits128(e0, 15, 0, h0),
                e2 == with_bits128(e1, 63, 48, h1),
                e3 == with_bits128(e2, 95, 64, h2),
                e4 == with_bits128(e3, 31, 16, s),
                e5 == with_bits128(e4, 43, 40, 0xE),
                e6 == with_bits128(e5, 47, 47, 1),
                e7 == with_bits128(e6, 46, 45, 0),
                e8 == with_bits128(e7, 34, 32, t),
        ;
        entry
    }
}

/// The kernel IDT: the divide-error and general-protection gates for the
/// given handlers through the kernel code segment (selector 0x08) on the
/// current stack, and every other vector not present (zero).
pub fn kernel_idt(de_handler: u64, gp_handler: u64) -> (idt: [u128; 256])
    ensures
        idt@[DE_VECTOR as int] == interrupt_gate(de_handler, 0x8, 0),
        idt@[GP_VECTOR as int] == interrupt_gate(gp_handler, 0x8, 0),
        forall|i: int| 0 <= i < 256 && i != DE_VECTOR && i != GP_VECTOR ==> idt@[i] == 0,
{
    let de_entry = IdtEntry::new(de_handler, 0x8, 0).0;
    let gp_entry = IdtEntry::new(gp_handler, 0x8, 0).0;
    let mut idt: [u128; 256] = [0; 256];
    idt[DE_VECTOR] = de_entry;
    idt[GP_VECTOR] = gp_entry;
    idt
}

/// The `lidt` operand for the kernel IDT placed at `base`: the limit is the
/// table's size in bytes minus one.
pub fn idt_pointer(base: u64) -> (p: DescriptorTablePointer)
    ensures
        p.base == base,
        p.limit == 16 * IDT_ENTRIES - 1,
{
    DescriptorTablePointer { limit: (16 * IDT_ENTRIES - 1) as u16, base }
}

/// A gate gives back what it was built from: the three offset fields put
/// together are the handler address, the selector field is the selector,
/// the stack field is the stack index's low three bits; it is a present
/// interrupt gate of privilege level 0, and its reserved bits are zero.
pub proof fn lemma_interrupt_gate_fields(handler: u64, selector: u16, ist: u8)
    ensures
        ({
            let g = interrupt_gate(handler, selector, ist);
            &&& (bits_of128(g, 15, 0) | (bits_of128(g, 63, 48) << 16u128) | (bits_of128(g, 95, 64)
                << 32u128)) == handler as u128
            &&& bits_of128(g, 31, 16) == selector as u128
            &&& bits_of128(g, 34, 32) == (ist & 7) as u128
            &&& bits_of128(g, 39, 35) == 0
            &&& bits_of128(g, 43, 40) == 0xE
            &&& bits_of128(g, 44, 44) == 0
            &&& bits_of128(g, 46, 45) == 0
            &&& bits_of128(g, 47, 47) == 1
            &&& bits_of128(g, 127, 96) == 0
        }),
{
    let g = interrupt_gate(handler, selector, ist);
    assert({
        &&& (bits_of128(g, 15, 0) | (bits_of128(g, 63, 48) << 16u128) | (bits_of128(g, 95, 64)
            << 32u128)) == handler as u128
        &&& bits_of128(g, 31, 16) == selector as u128
        &&& bits_of128(g, 34, 32) == (ist & 7) as u128
        &&& bits_of128(g, 39, 35) == 0
        &&& bits_of128(g, 43, 40) == 0xE
        &&& bits_of128(g, 44, 44) == 0
        &&& bits_of128(g, 46, 45) == 0
        &&& bits_of128(g, 47, 47) == 1
        &&& bits_of128(g, 127, 96) == 0
    }) by (bit_vector)
        requires
            g == ((handler & 0xFFFF) as u128) | ((selector as u128) << 16u128) | (((ist & 7)
                as u128) << 32u128) | (0xEu128 << 40u128) | (1u128 << 47u128) | ((((handler
                >> 16u64) & 0xFFFF) as u128) << 48u128) | (((handler >> 32u64) as u128) << 64u128),
    ;
}

} // verus!
