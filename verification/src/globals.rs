//! Model-specific register numbers and bits of the local APIC.

use vstd::prelude::*;

verus! {

/// `IA32_APIC_BASE`: the local APIC's base address and enable bits.
pub const IA32_APIC_BASE_MSR: u32 = 0x1b;

/// The x2APIC interrupt command register.
pub const X2APIC_ICR_MSR: u32 = 0x830;

/// The x2APIC self-IPI register.
pub const SELF_IPI_MSR: u32 = 0x83f;

/// `IA32_APIC_BASE` bit 11: the APIC is globally enabled.
pub const IA32_APIC_BASE_EN: u64 = 1u64 << 11u64;

/// `IA32_APIC_BASE` bit 10: x2APIC mode is enabled.
pub const IA32_APIC_BASE_EXTD: u64 = 1u64 << 10u64;

/// `IA32_APIC_BASE` bit 8: this processor is the bootstrap processor.
pub const IA32_APIC_BASE_BSP: u64 = 1u64 << 8u64;

/// The architectural numbers: `IA32_APIC_BASE` is MSR 0x1B, the x2APIC ICR
/// MSR 0x830 and the self-IPI register MSR 0x83F; in `IA32_APIC_BASE` bit 8
/// flags the bootstrap processor, bit 10 enables x2APIC mode and bit 11
/// enables the APIC.
pub proof fn lemma_register_numbers()
    ensures
        IA32_APIC_BASE_MSR == 0x1B,
        X2APIC_ICR_MSR == 0x830,
        SELF_IPI_MSR == 0x83F,
        IA32_APIC_BASE_BSP == 0x100,
        IA32_APIC_BASE_EXTD == 0x400,
        IA32_APIC_BASE_EN == 0x800,
{
    assert((1u64 << 8u64) == 0x100 && (1u64 << 10u64) == 0x400 && (1u64 << 11u64) == 0x800)
        by (bit_vector);
}

} // verus!
