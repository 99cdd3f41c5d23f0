//! x86_64 register-level values: descriptor-table pointers and the split of a
//! model-specific register value into the `edx:eax` halves used by
//! `rdmsr`/`wrmsr`.

use vstd::prelude::*;

verus! {

/// Operand of `lgdt`/`lidt`: the table's size in bytes minus one, and its
/// linear address.
#[derive(Clone, Copy, Debug, PartialEq, Eq)]
pub struct DescriptorTablePointer {
    pub limit: u16,
    pub base: u64,
}

/// A write of `value` to the model-specific register `msr`.
#[derive(Clone, Copy, Debug, PartialEq, Eq)]
pub struct MsrWrite {
    pub msr: u32,
    pub value: u64,
}

/// The 64-bit register value whose high half is `high` (`edx`) and whose low
/// half is `low` (`eax`).
pub open spec fn join_halves(high: u32, low: u32) -> u64 {
    ((high as u64) << 32u64) | (low as u64)
}

/// The value `rdmsr` yields from the halves it leaves in `edx` and `eax`.
pub fn msr_from_halves(high: u32, low: u32) -> (v: u64)
    ensures
        v == join_halves(high, low),
        v as int == high as int * 0x1_0000_0000 + low as int,
{
    let v = ((high as u64) << 32u64) | (low as u64);
    assert(((high as u64) << 32u64) | (low as u64) == (high as u64) * 0x1_0000_0000u64 + (low as u64))
        by (bit_vector);
    v
}

/// The halves `(low, high)` that `wrmsr` takes in `eax` and `edx` for `value`.
pub fn msr_halves(value: u64) -> (r: (u32, u32))
    ensures
        r.0 as int == value as int % 0x1_0000_0000,
        r.1 as int == value as int / 0x1_0000_0000,
{
    let low = value as u32;
    let high = (value >> 32u64) as u32;
    assert(value as u32 == value % 0x1_0000_0000) by (bit_vector);
    assert((value >> 32u64) as u32 == value / 0x1_0000_0000) by (bit_vector);
    (low, high)
}

/// Splitting a register value into its halves and joining them again gives
/// the value back.
pub proof fn lemma_msr_split_join(value: u64)
    ensures
        join_halves((value / 0x1_0000_0000) as u32, (value % 0x1_0000_0000) as u32) == value,
{
    assert(join_halves((value / 0x1_0000_0000) as u32, (value % 0x1_0000_0000) as u32) == value)
        by (bit_vector);
}

/// Joining two halves and splitting the result gives the halves back.
pub proof fn lemma_msr_join_split(high: u32, low: u32)
    ensures
        join_halves(high, low) % 0x1_0000_0000 == low,
        join_halves(high, low) / 0x1_0000_0000 == high,
{
    assert(join_halves(high, low) % 0x1_0000_0000 == low) by (bit_vector);
    assert(join_halves(high, low) / 0x1_0000_0000 == high) by (bit_vector);
}

} // verus!
