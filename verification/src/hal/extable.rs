//! The kernel exception table: for each instruction that may fault on
//! purpose (such as `rdmsr` of a register that may not exist), the place to
//! resume at instead. Entries hold offsets from the kernel image base.

use vstd::prelude::*;

verus! {

/// One exception-table entry: the image-relative offsets of an instruction
/// that may fault and of the stub to resume at when it does.
#[derive(Clone, Copy, Debug, PartialEq, Eq)]
pub struct ExtabEntry {
    pub fault: u32,
    pub fixup: u32,
}

/// Index of the first entry from `i` on whose faulting instruction, placed
/// at image base `base`, is at `rip`; the table's length when there is none.
pub open spec fn first_fixup(table: Seq<ExtabEntry>, base: u64, rip: u64, i: nat) -> nat
    decreases table.len() - i,
{
    if i >= table.len() {
        table.len()
    } else if base + table[i as int].fault == rip {
        i
    } else {
        first_fixup(table, base, rip, i + 1)
    }
}

/// The fix-up address for a fault at `rip`: that of the first entry whose
/// instruction is there, or `None` when no entry's is.
pub open spec fn fixup_address(table: Seq<ExtabEntry>, base: u64, rip: u64) -> Option<u64> {
    let m = first_fixup(table, base, rip, 0);
    if m < table.len() {
        Some((base + table[m as int].fixup) as u64)
    } else {
        None
    }
}

/// The addresses the lookup computes fit in 64 bits: those of the faulting
/// instructions up to the entry it stops at, and that entry's fix-up.
pub open spec fn fixup_lookup_fits(table: Seq<ExtabEntry>, base: u64, rip: u64) -> bool {
    let m = first_fixup(table, base, rip, 0);
    &&& forall|i: int| 0 <= i < table.len() && i <= m ==> base + (#[trigger] table[i]).fault <= u64::MAX
    &&& m < table.len() ==> base + table[m as int].fixup <= u64::MAX
}

proof fn lemma_first_fixup_bounds(table: Seq<ExtabEntry>, base: u64, rip: u64, i: nat)
    requires
        i <= table.len(),
    ensures
        i <= first_fixup(table, base, rip, i) <= table.len(),
        first_fixup(table, base, rip, i) < table.len() ==> base + table[first_fixup(
            table,
            base,
            rip,
            i,
        ) as int].fault == rip,
        forall|j: int|
            i <= j < first_fixup(table, base, rip, i) ==> base + (#[trigger] table[j]).fault != rip,
    decreases table.len() - i,
{
    if i < table.len() && base + table[i as int].fault != rip {
        lemma_first_fixup_bounds(table, base, rip, i + 1);
    }
}

/// Looks up the instruction at `faulting_rip` in the exception table of the
/// kernel image loaded at `base`: the address of the fix-up stub of the
/// first entry whose instruction is there, or `None` when no entry's is (a
/// genuine fault). The result is `fixup_address` of the table, the base and
/// the address alone, so two lookups of the same address agree; the lookup
/// writes nothing.
pub fn fixup_exception(base: u64, table: &[ExtabEntry], faulting_rip: u64) -> (r: Option<u64>)
    requires
        fixup_lookup_fits(table@, base, faulting_rip),
    ensures
        r == fixup_address(table@, base, faulting_rip),
        ({
            let m = first_fixup(table@, base, faulting_rip, 0);
            &&& m < table.len() ==> r == Some((base + table@[m as int].fixup) as u64)
            &&& m == table.len() ==> r is None
        }),
        r is None <==> forall|i: int|
            0 <= i < table.len() ==> base + (#[trigger] table@[i]).fault != faulting_rip,
        r matches Some(f) ==> exists|i: int|
            0 <= i < table.len() && base + (#[trigger] table@[i]).fault == faulting_rip && f == base
                + table@[i].fixup,
{
    proof {
        lemma_first_fixup_bounds(table@, base, faulting_rip, 0);
    }
    let ghost m = first_fixup(table@, base, faulting_rip, 0);
    let mut i: usize = 0;
    while i < table.len()
        invariant
            i <= table.len(),
            i <= m,
            m == first_fixup(table@, base, faulting_rip, 0),
            m <= table.len(),
            m < table.len() ==> base + table@[m as int].fault == faulting_rip,
            forall|j: int| 0 <= j < m ==> base + (#[trigger] table@[j]).fault != faulting_rip,
            fixup_lookup_fits(table@, base, faulting_rip),
        decreases table.len() - i,
    {
        let entry = table[i];
        assert(base + table@[i as int].fault <= u64::MAX);
        if base + entry.fault as u64 == faulting_rip {
            assert(i == m);
            return Some(base + entry.fixup as u64);
        }
        i = i + 1;
    }
    None
}

/// The registers saved on an exception: the general-purpose registers by the
/// entry stub, the exception number and error code, and the frame that the
/// processor pushes.
#[derive(Clone, Copy, Debug, PartialEq, Eq)]
pub struct TrapFrame {
    pub r15: u64,
    pub r14: u64,
    pub r13: u64,
    pub r12: u64,
    pub r11: u64,
    pub r10: u64,
    pub r9: u64,
    pub r8: u64,
    pub rdi: u64,
    pub rsi: u64,
    pub rbp: u64,
    pub rbx: u64,
    pub rdx: u64,
    pub rcx: u64,
    pub rax: u64,
    pub exception_number: u64,
    pub error_code: u64,
    pub rip: u64,
    pub cs: u64,
    pub rflags: u64,
    pub rsp: u64,
    pub ss: u64,
}

/// Recovers from a CPU exception when the table knows the faulting
/// instruction: the saved `rip` becomes the fix-up address (so returning
/// from the exception resumes there) and the result is `true`. Otherwise the
/// frame is left as it was and the result is `false`: the fault is genuine.
pub fn handle_exception(frame: &mut TrapFrame, base: u64, table: &[ExtabEntry]) -> (recovered: bool)
    requires
        fixup_lookup_fits(table@, base, old(frame).rip),
    ensures
        recovered <==> exists|i: int|
            0 <= i < table.len() && base + (#[trigger] table@[i]).fault == old(frame).rip,
        recovered ==> *final(frame) == (TrapFrame {
            rip: (base + table@[first_fixup(table@, base, old(frame).rip, 0) as int].fixup) as u64,
            ..*old(frame)
        }),
        !recovered ==> *final(frame) == *old(frame),
{
    proof {
        lemma_first_fixup_bounds(table@, base, frame.rip, 0);
    }
    match fixup_exception(base, table, frame.rip) {
        Some(fixup) => {
            frame.rip = fixup;
            true
        },
        None => false,
    }
}

/// The lookup finds the first entry for the faulting address: when it gives
/// an address, some entry's instruction is at `rip`, no earlier entry's is,
/// and the address is that entry's fix-up placed at `base`; it gives `None`
/// exactly when no entry's instruction is at `rip`.
pub proof fn lemma_fixup_address_first_match(table: Seq<ExtabEntry>, base: u64, rip: u64)
    ensures
        fixup_address(table, base, rip) matches Some(f) ==> exists|i: int|
            0 <= i < table.len() && base + (#[trigger] table[i]).fault == rip && (forall|j: int|
                0 <= j < i ==> base + (#[trigger] table[j]).fault != rip) && f == (base
                + table[i].fixup) as u64,
        fixup_address(table, base, rip) is None <==> forall|i: int|
            0 <= i < table.len() ==> base + (#[trigger] table[i]).fault != rip,
{
    lemma_first_fixup_bounds(table, base, rip, 0);
    let m = first_fixup(table, base, rip, 0);
    if m < table.len() {
        assert(base + table[m as int].fault == rip);
    }
}

} // verus!
