//! The physical memory manager's view of the boot loader's memory map.

use vstd::prelude::*;

verus! {

/// Memory map entry type of ACPI non-volatile storage in the Limine boot
/// protocol.
pub const MEMMAP_ACPI_NVS: u64 = 3;

/// One entry of the boot loader's physical memory map.
#[derive(Clone, Copy, Debug, PartialEq, Eq)]
pub struct MemmapEntry {
    pub base: u64,
    pub length: u64,
    pub type_: u64,
}

/// A physical address range `[start, end)`.
#[derive(Clone, Copy, Debug, PartialEq, Eq)]
pub struct PhysRange {
    pub start: u64,
    pub end: u64,
}

/// The ranges of the ACPI non-volatile storage entries of `entries`, in map
/// order.
pub open spec fn acpi_nvs_ranges(entries: Seq<MemmapEntry>) -> Seq<PhysRange>
    decreases entries.len(),
{
    if entries.len() == 0 {
        seq![]
    } else {
        let rest = acpi_nvs_ranges(entries.drop_last());
        let e = entries.last();
        if e.type_ == MEMMAP_ACPI_NVS {
            rest.push(PhysRange { start: e.base, end: (e.base + e.length) as u64 })
        } else {
            rest
        }
    }
}

/// Scans the memory map for ACPI non-volatile storage: the range
/// `[base, base + length)` of each such entry, in map order.
pub fn pmm_init(entries: &[MemmapEntry]) -> (r: Vec<PhysRange>)
    requires
        forall|i: int|
            0 <= i < entries.len() && (#[trigger] entries@[i]).type_ == MEMMAP_ACPI_NVS
                ==> entries@[i].base + entries@[i].length <= u64::MAX,
    ensures
        r@ == acpi_nvs_ranges(entries@),
{
    let mut r: Vec<PhysRange> = Vec::new();
    let mut i: usize = 0;
    while i < entries.len()
        invariant
            i <= entries.len(),
            r@ == acpi_nvs_ranges(entries@.take(i as int)),
            forall|j: int|
                0 <= j < entries.len() && (#[trigger] entries@[j]).type_ == MEMMAP_ACPI_NVS
                    ==> entries@[j].base + entries@[j].length <= u64::MAX,
        decreases entries.len() - i,
    {
        let e = entries[i];
        assert(entries@.take(i + 1).drop_last() =~= entries@.take(i as int));
        assert(entries@.take(i + 1).last() == e);
        if e.type_ == MEMMAP_ACPI_NVS {
            r.push(PhysRange { start: e.base, end: e.base + e.length });
        }
        i = i + 1;
    }
    assert(entries@.take(entries.len() as int) =~= entries@);
    r
}

/// The range an entry covers.
pub open spec fn entry_range(e: MemmapEntry) -> PhysRange {
    PhysRange { start: e.base, end: (e.base + e.length) as u64 }
}

/// The entries of the map whose type is ACPI non-volatile storage, in map
/// order.
pub open spec fn acpi_nvs_entries(entries: Seq<MemmapEntry>) -> Seq<MemmapEntry> {
    entries.filter(|e: MemmapEntry| e.type_ == MEMMAP_ACPI_NVS)
}

/// The scan reports exactly the ACPI non-volatile storage entries of the
/// map, in map order, each as `[base, base + length)`: its result is the map
/// filtered to the entries of that type, each turned into its range. So
/// there are as many ranges as such entries, and the entry behind each range
/// is of that type.
pub proof fn lemma_acpi_nvs_ranges_filter(entries: Seq<MemmapEntry>)
    ensures
        acpi_nvs_ranges(entries) == acpi_nvs_entries(entries).map_values(
            |e: MemmapEntry| entry_range(e),
        ),
        acpi_nvs_ranges(entries).len() == acpi_nvs_entries(entries).len(),
        forall|i: int|
            0 <= i < acpi_nvs_ranges(entries).len() ==> (#[trigger] acpi_nvs_entries(entries)[i]).type_
                == MEMMAP_ACPI_NVS,
    decreases entries.len(),
{
    reveal(Seq::filter);
    let p = |e: MemmapEntry| e.type_ == MEMMAP_ACPI_NVS;
    let f = |e: MemmapEntry| entry_range(e);
    if entries.len() > 0 {
        let init = entries.drop_last();
        lemma_acpi_nvs_ranges_filter(init);
        let e = entries.last();
        assert(entries.filter(p) == if p(e) { init.filter(p).push(e) } else { init.filter(p) });
        if p(e) {
            assert(init.filter(p).push(e).map_values(f) =~= init.filter(p).map_values(f).push(f(e)));
        }
        assert(acpi_nvs_ranges(entries) =~= entries.filter(p).map_values(f));
    } else {
        assert(acpi_nvs_ranges(entries) =~= entries.filter(p).map_values(f));
    }
    entries.filter_lemma(p);
}

} // verus!
