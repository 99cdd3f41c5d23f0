//! ACPI tables as byte layouts: the XSDP, system description table headers,
//! the XSDT's table pointers, and the MADT's interrupt controller entries.

use vstd::prelude::*;
use vstd::string::StringSliceAdditionalSpecFns;
use vstd::utf8::valid_utf8;

verus! {

/// The little-endian `u16` at byte `off` of `b`.
pub open spec fn le_u16(b: Seq<u8>, off: int) -> u16 {
    (b[off] as u16) | ((b[off + 1] as u16) << 8u16)
}

/// The little-endian `u32` at byte `off` of `b`.
pub open spec fn le_u32(b: Seq<u8>, off: int) -> u32 {
    (b[off] as u32) | ((b[off + 1] as u32) << 8u32) | ((b[off + 2] as u32) << 16u32) | ((b[off
        + 3] as u32) << 24u32)
}

/// The little-endian `u64` at byte `off` of `b`.
pub open spec fn le_u64(b: Seq<u8>, off: int) -> u64 {
    (b[off] as u64) | ((b[off + 1] as u64) << 8u64) | ((b[off + 2] as u64) << 16u64) | ((b[off
        + 3] as u64) << 24u64) | ((b[off + 4] as u64) << 32u64) | ((b[off + 5] as u64) << 40u64)
        | ((b[off + 6] as u64) << 48u64) | ((b[off + 7] as u64) << 56u64)
}

fn read_u16(b: &[u8], off: usize) -> (r: u16)
    requires
        off + 2 <= b.len(),
    ensures
        r == le_u16(b@, off as int),
{
    (b[off] as u16) | ((b[off + 1] as u16) << 8u16)
}

fn read_u32(b: &[u8], off: usize) -> (r: u32)
    requires
        off + 4 <= b.len(),
    ensures
        r == le_u32(b@, off as int),
{
    (b[off] as u32) | ((b[off + 1] as u32) << 8u32) | ((b[off + 2] as u32) << 16u32) | ((b[off
        + 3] as u32) << 24u32)
}

fn read_u64(b: &[u8], off: usize) -> (r: u64)
    requires
        off + 8 <= b.len(),
    ensures
        r == le_u64(b@, off as int),
{
    (b[off] as u64) | ((b[off + 1] as u64) << 8u64) | ((b[off + 2] as u64) << 16u64) | ((b[off
        + 3] as u64) << 24u64) | ((b[off + 4] as u64) << 32u64) | ((b[off + 5] as u64) << 40u64)
        | ((b[off + 6] as u64) << 48u64) | ((b[off + 7] as u64) << 56u64)
}

fn read_array3(b: &[u8], off: usize) -> (r: [u8; 3])
    requires
        off + 3 <= b.len(),
    ensures
        r@ == b@.subrange(off as int, off + 3),
{
    let r = [b[off], b[off + 1], b[off + 2]];
    assert(r@ =~= b@.subrange(off as int, off + 3));
    r
}

fn read_array4(b: &[u8], off: usize) -> (r: [u8; 4])
    requires
        off + 4 <= b.len(),
    ensures
        r@ == b@.subrange(off as int, off + 4),
{
    let r = [b[off], b[off + 1], b[off + 2], b[off + 3]];
    assert(r@ =~= b@.subrange(off as int, off + 4));
    r
}

fn read_array6(b: &[u8], off: usize) -> (r: [u8; 6])
    requires
        off + 6 <= b.len(),
    ensures
        r@ == b@.subrange(off as int, off + 6),
{
    let r = [b[off], b[off + 1], b[off + 2], b[off + 3], b[off + 4], b[off + 5]];
    assert(r@ =~= b@.subrange(off as int, off + 6));
    r
}

fn read_array8(b: &[u8], off: usize) -> (r: [u8; 8])
    requires
        off + 8 <= b.len(),
    ensures
        r@ == b@.subrange(off as int, off + 8),
{
    let r = [
        b[off],
        b[off + 1],
        b[off + 2],
        b[off + 3],
        b[off + 4],
        b[off + 5],
        b[off + 6],
        b[off + 7],
    ];
    assert(r@ =~= b@.subrange(off as int, off + 8));
    r
}

/// Size in bytes of the XSDP (ACPI 2.0 root system description pointer).
pub const XSDP_SIZE: usize = 36;

/// Size in bytes of a system description table header.
pub const SDT_HEADER_SIZE: usize = 36;

/// Offset of the first interrupt controller entry in the MADT.
pub const MADT_ENTRIES_OFFSET: usize = 44;

/// Entry type of a processor local APIC in the MADT.
pub const MADT_TYPE_LAPIC: u8 = 0;

/// Entry type of an I/O APIC in the MADT.
pub const MADT_TYPE_IOAPIC: u8 = 1;

/// Entry type of an interrupt source override in the MADT.
pub const MADT_TYPE_INTERRUPT_SOURCE_OVERRIDE: u8 = 2;

/// Entry type of a local APIC NMI in the MADT.
pub const MADT_TYPE_LAPIC_NMI: u8 = 4;

/// The extended root system description pointer.
#[derive(Clone, Copy, Debug)]
pub struct XSDP {
    pub signature: [u8; 8],
    pub checksum: u8,
    pub oemid: [u8; 6],
    pub revision: u8,
    pub rsdt_addr: u32,
    pub length: u32,
    pub xsdt_addr: u64,
    pub extended_checksum: u8,
    pub reserved: [u8; 3],
}

/// The header that starts every system description table.
#[allow(non_camel_case_types)]
#[derive(Clone, Copy, Debug)]
pub struct SDT_HEADER {
    pub signature: [u8; 4],
    pub length: u32,
    pub revision: u8,
    pub checksum: u8,
    pub oem_id: [u8; 6],
    pub oem_table_id: [u8; 8],
    pub oem_revision: u32,
    pub creator_id: u32,
    pub creator_revision: u32,
}

/// `x` is the XSDP laid out in `b` from byte `off`.
pub open spec fn xsdp_at(x: XSDP, b: Seq<u8>, off: int) -> bool {
    &&& x.signature@ == b.subrange(off, off + 8)
    &&& x.checksum == b[off + 8]
    &&& x.oemid@ == b.subrange(off + 9, off + 15)
    &&& x.revision == b[off + 15]
    &&& x.rsdt_addr == le_u32(b, off + 16)
    &&& x.length == le_u32(b, off + 20)
    &&& x.xsdt_addr == le_u64(b, off + 24)
    &&& x.extended_checksum == b[off + 32]
    &&& x.reserved@ == b.subrange(off + 33, off + 36)
}

/// `h` is the table header laid out in `b` from byte `off`.
pub open spec fn sdt_header_at(h: SDT_HEADER, b: Seq<u8>, off: int) -> bool {
    &&& h.signature@ == b.subrange(off, off + 4)
    &&& h.length == le_u32(b, off + 4)
    &&& h.revision == b[off + 8]
    &&& h.checksum == b[off + 9]
    &&& h.oem_id@ == b.subrange(off + 10, off + 16)
    &&& h.oem_table_id@ == b.subrange(off + 16, off + 24)
    &&& h.oem_revision == le_u32(b, off + 24)
    &&& h.creator_id == le_u32(b, off + 28)
    &&& h.creator_revision == le_u32(b, off + 32)
}

impl XSDP {
    /// The XSDP at the start of `b`, or `None` when `b` is shorter than an
    /// XSDP.
    pub fn from_bytes(b: &[u8]) -> (r: Option<XSDP>)
        ensures
            r is Some <==> b.len() >= XSDP_SIZE,
            r matches Some(x) ==> xsdp_at(x, b@, 0),
    {
        if b.len() < XSDP_SIZE {
            return None;
        }
        Some(
            XSDP {
                signature: read_array8(b, 0),
                checksum: b[8],
                oemid: read_array6(b, 9),
                revision: b[15],
                rsdt_addr: read_u32(b, 16),
                length: read_u32(b, 20),
                xsdt_addr: read_u64(b, 24),
                extended_checksum: b[32],
                reserved: read_array3(b, 33),
            },
        )
    }
}

impl SDT_HEADER {
    /// The table header at byte `off` of `b`, or `None` when `b` ends before
    /// the header does.
    pub fn from_bytes(b: &[u8], off: usize) -> (r: Option<SDT_HEADER>)
        ensures
            r is Some <==> off + SDT_HEADER_SIZE <= b.len(),
            r matches Some(h) ==> sdt_header_at(h, b@, off as int),
    {
        if off > b.len() || b.len() - off < SDT_HEADER_SIZE {
            return None;
        }
        Some(
            SDT_HEADER {
                signature: read_array4(b, off),
                length: read_u32(b, off + 4),
                revision: b[off + 8],
                checksum: b[off + 9],
                oem_id: read_array6(b, off + 10),
                oem_table_id: read_array8(b, off + 16),
                oem_revision: read_u32(b, off + 24),
                creator_id: read_u32(b, off + 28),
                creator_revision: read_u32(b, off + 32),
            },
        )
    }
}

/// The XSDT: a table header followed by the physical addresses of the other
/// system description tables.
#[derive(Debug)]
pub struct XSDT {
    pub h: SDT_HEADER,
    pub sdt_pointers: Vec<u64>,
}

/// The MADT's fixed part: its header, the local APIC address and flags. The
/// interrupt controller entries follow from byte 44.
#[derive(Clone, Copy, Debug)]
pub struct MADT {
    pub h: SDT_HEADER,
    pub local_apic_addr: u32,
    pub flags: u32,
}

/// Type and length in bytes of one MADT entry.
#[allow(non_camel_case_types)]
#[derive(Clone, Copy, Debug, PartialEq, Eq)]
pub struct MADT_HEADER {
    pub typ: u8,
    pub length: u8,
}

/// A processor local APIC.
#[allow(non_camel_case_types)]
#[derive(Clone, Copy, Debug, PartialEq, Eq)]
pub struct MADT_LAPIC {
    pub h: MADT_HEADER,
    pub acpi_processor_uid: u8,
    pub apic_id: u8,
    pub flags: u32,
}

/// An I/O APIC.
#[allow(non_camel_case_types)]
#[derive(Clone, Copy, Debug, PartialEq, Eq)]
pub struct MADT_IOAPIC {
    pub h: MADT_HEADER,
    pub ioapic_id: u8,
    pub reserved: u8,
    pub ioapic_addr: u32,
    pub gsi_base: u32,
}

/// An interrupt source override: an ISA interrupt routed to another global
/// system interrupt.
#[allow(non_camel_case_types)]
#[derive(Clone, Copy, Debug, PartialEq, Eq)]
pub struct MADT_INTERRUPT_SOURCE_OVERRIDE {
    pub h: MADT_HEADER,
    pub bus: u8,
    pub source: u8,
    pub gsi: u32,
    pub flags: u16,
}

/// The local APIC input an NMI is connected to.
#[allow(non_camel_case_types)]
#[derive(Clone, Copy, Debug, PartialEq, Eq)]
pub struct MADT_LAPIC_NMI {
    pub h: MADT_HEADER,
    pub acpi_processor_uid: u8,
    pub flags: u16,
    pub lapic_lint: u8,
}

/// One MADT entry, decoded by its type; `Other` is an entry of a type this
/// kernel does not read.
#[derive(Clone, Copy, Debug, PartialEq, Eq)]
pub enum MadtEntry {
    Lapic(MADT_LAPIC),
    IoApic(MADT_IOAPIC),
    InterruptSourceOverride(MADT_INTERRUPT_SOURCE_OVERRIDE),
    LapicNmi(MADT_LAPIC_NMI),
    Other(MADT_HEADER),
}

/// Why a table could not be read.
#[derive(Clone, Copy, Debug, PartialEq, Eq)]
pub enum AcpiError {
    /// The bytes end before a structure that the table says is there.
    Truncated,
}

/// The local APIC address and the interrupt controller entries of the MADT,
/// in table order.
#[derive(Debug)]
pub struct ApicTopology {
    pub local_apic_addr: u32,
    pub entries: Vec<MadtEntry>,
}

/// Bytes of the structure that a MADT entry of type `typ` is read as.
pub open spec fn madt_entry_size(typ: u8) -> int {
    if typ == MADT_TYPE_LAPIC {
        8
    } else if typ == MADT_TYPE_IOAPIC {
        12
    } else if typ == MADT_TYPE_INTERRUPT_SOURCE_OVERRIDE {
        10
    } else if typ == MADT_TYPE_LAPIC_NMI {
        6
    } else {
        2
    }
}

/// The MADT entry laid out in `b` from byte `off`.
pub open spec fn madt_entry_at(b: Seq<u8>, off: int) -> MadtEntry {
    let h = MADT_HEADER { typ: b[off], length: b[off + 1] };
    if h.typ == MADT_TYPE_LAPIC {
        MadtEntry::Lapic(
            MADT_LAPIC {
                h,
                acpi_processor_uid: b[off + 2],
                apic_id: b[off + 3],
                flags: le_u32(b, off + 4),
            },
        )
    } else if h.typ == MADT_TYPE_IOAPIC {
        MadtEntry::IoApic(
            MADT_IOAPIC {
                h,
                ioapic_id: b[off + 2],
                reserved: b[off + 3],
                ioapic_addr: le_u32(b, off + 4),
                gsi_base: le_u32(b, off + 8),
            },
        )
    } else if h.typ == MADT_TYPE_INTERRUPT_SOURCE_OVERRIDE {
        MadtEntry::InterruptSourceOverride(
            MADT_INTERRUPT_SOURCE_OVERRIDE {
                h,
                bus: b[off + 2],
                source: b[off + 3],
                gsi: le_u32(b, off + 4),
                flags: le_u16(b, off + 8),
            },
        )
    } else if h.typ == MADT_TYPE_LAPIC_NMI {
        MadtEntry::LapicNmi(
            MADT_LAPIC_NMI {
                h,
                acpi_processor_uid: b[off + 2],
                flags: le_u16(b, off + 3),
                lapic_lint: b[off + 5],
            },
        )
    } else {
        MadtEntry::Other(h)
    }
}

/// The entries met walking from byte `start` while before byte `end`, each
/// entry's length field giving the step to the next one. `None` when the
/// walk meets an entry of length zero before `end`: it stays on that entry
/// forever and never finishes.
pub open spec fn madt_walk(b: Seq<u8>, start: int, end: int) -> Option<
    Result<Seq<MadtEntry>, AcpiError>,
>
    decreases (if start < end { end - start } else { 0 }),
{
    if start >= end {
        Some(Ok(seq![]))
    } else if start < 0 || start + 2 > b.len() || start + madt_entry_size(b[start]) > b.len() {
        Some(Err(AcpiError::Truncated))
    } else if b[start + 1] == 0 {
        None
    } else {
        match madt_walk(b, start + b[start + 1], end) {
            Some(Ok(rest)) => Some(Ok(seq![madt_entry_at(b, start)] + rest)),
            other => other,
        }
    }
}

/// `done` followed by the outcome of the rest of a walk.
pub open spec fn walk_after(
    done: Seq<MadtEntry>,
    rest: Option<Result<Seq<MadtEntry>, AcpiError>>,
) -> Option<Result<Seq<MadtEntry>, AcpiError>> {
    match rest {
        Some(Ok(r)) => Some(Ok(done + r)),
        other => other,
    }
}

/// The walk over the MADT in `b` (its entries from byte 44 up to the length
/// its header gives) finishes: it meets no entry of length zero before the
/// end. Always so when `b` is too short to hold the MADT's fixed part.
pub open spec fn madt_walk_finishes(b: Seq<u8>) -> bool {
    b.len() >= MADT_ENTRIES_OFFSET ==> madt_walk(b, 44, le_u32(b, 4) as int) is Some
}

fn read_madt_entry(b: &[u8], off: usize) -> (e: MadtEntry)
    requires
        off + 2 <= b.len(),
        off + madt_entry_size(b@[off as int]) <= b.len(),
    ensures
        e == madt_entry_at(b@, off as int),
{
    let h = MADT_HEADER { typ: b[off], length: b[off + 1] };
    if h.typ == MADT_TYPE_LAPIC {
        MadtEntry::Lapic(
            MADT_LAPIC {
                h,
                acpi_processor_uid: b[off + 2],
                apic_id: b[off + 3],
                flags: read_u32(b, off + 4),
            },
        )
    } else if h.typ == MADT_TYPE_IOAPIC {
        MadtEntry::IoApic(
            MADT_IOAPIC {
                h,
                ioapic_id: b[off + 2],
                reserved: b[off + 3],
                ioapic_addr: read_u32(b, off + 4),
                gsi_base: read_u32(b, off + 8),
            },
        )
    } else if h.typ == MADT_TYPE_INTERRUPT_SOURCE_OVERRIDE {
        MadtEntry::InterruptSourceOverride(
            MADT_INTERRUPT_SOURCE_OVERRIDE {
                h,
                bus: b[off + 2],
                source: b[off + 3],
                gsi: read_u32(b, off + 4),
                flags: read_u16(b, off + 8),
            },
        )
    } else if h.typ == MADT_TYPE_LAPIC_NMI {
        MadtEntry::LapicNmi(
            MADT_LAPIC_NMI {
                h,
                acpi_processor_uid: b[off + 2],
                flags: read_u16(b, off + 3),
                lapic_lint: b[off + 5],
            },
        )
    } else {
        MadtEntry::Other(h)
    }
}

fn entry_size(typ: u8) -> (r: u64)
    ensures
        r == madt_entry_size(typ),
{
    if typ == MADT_TYPE_LAPIC {
        8
    } else if typ == MADT_TYPE_IOAPIC {
        12
    } else if typ == MADT_TYPE_INTERRUPT_SOURCE_OVERRIDE {
        10
    } else if typ == MADT_TYPE_LAPIC_NMI {
        6
    } else {
        2
    }
}

impl MADT {
    /// The MADT's fixed part at the start of `b`, or `None` when `b` is
    /// shorter than it.
    pub fn from_bytes(b: &[u8]) -> (r: Option<MADT>)
        ensures
            r is Some <==> b.len() >= MADT_ENTRIES_OFFSET,
            r matches Some(m) ==> {
                &&& sdt_header_at(m.h, b@, 0)
                &&& m.local_apic_addr == le_u32(b@, 36)
                &&& m.flags == le_u32(b@, 40)
            },
    {
        if b.len() < MADT_ENTRIES_OFFSET {
            return None;
        }
        let h = match SDT_HEADER::from_bytes(b, 0) {
            Some(h) => h,
            None => {
                return None;
            },
        };
        Some(MADT { h, local_apic_addr: read_u32(b, 36), flags: read_u32(b, 40) })
    }
}

/// Whether walking the MADT's entries in `b` finishes, that is, meets no
/// entry of length zero before the table's end (where the walk would stay
/// forever).
pub fn madt_walk_halts(b: &[u8]) -> (r: bool)
    ensures
        r == madt_walk_finishes(b@),
{
    if b.len() < MADT_ENTRIES_OFFSET {
        return true;
    }
    let end: u64 = read_u32(b, 4) as u64;
    let mut start: u64 = MADT_ENTRIES_OFFSET as u64;
    while start < end
        invariant
            b.len() >= MADT_ENTRIES_OFFSET,
            end == le_u32(b@, 4),
            44 <= start <= end + 256,
            madt_walk(b@, 44, end as int) is Some <==> madt_walk(b@, start as int, end as int) is Some,
        decreases end + 256 - start,
    {
        if start + 2 > b.len() as u64 {
            return true;
        }
        let typ = b[start as usize];
        let len = b[start as usize + 1];
        if start + entry_size(typ) > b.len() as u64 {
            return true;
        }
        if len == 0 {
            return false;
        }
        start = start + len as u64;
    }
    true
}

/// Reads the MADT in `b` (the table's bytes from its first byte): the local
/// APIC address, and the entries from byte 44 up to the table length that
/// the header gives, each entry's length field giving the step to the next.
/// `Truncated` when `b` ends before a structure the table holds. The walk
/// must finish: an entry of length zero before the end would hold it
/// forever.
pub fn find_apic(b: &[u8]) -> (r: Result<ApicTopology, AcpiError>)
    requires
        madt_walk_finishes(b@),
    ensures
        b.len() < MADT_ENTRIES_OFFSET ==> r == Err::<ApicTopology, AcpiError>(AcpiError::Truncated),
        b.len() >= MADT_ENTRIES_OFFSET ==> match madt_walk(b@, 44, le_u32(b@, 4) as int) {
            Some(Ok(es)) => r matches Ok(t) && t.local_apic_addr == le_u32(b@, 36) && t.entries@
                == es,
            Some(Err(e)) => r == Err::<ApicTopology, AcpiError>(e),
            None => false,
        },
{
    let madt = match MADT::from_bytes(b) {
        Some(m) => m,
        None => {
            return Err(AcpiError::Truncated);
        },
    };
    let end: u64 = madt.h.length as u64;
    let mut start: u64 = MADT_ENTRIES_OFFSET as u64;
    let mut entries: Vec<MadtEntry> = Vec::new();
    while start < end
        invariant
            b.len() >= MADT_ENTRIES_OFFSET,
            end == le_u32(b@, 4),
            44 <= start <= end + 256,
            madt_walk_finishes(b@),
            madt_walk(b@, 44, end as int) == walk_after(entries@, madt_walk(b@, start as int, end as int)),
        decreases end + 256 - start,
    {
        if start + 2 > b.len() as u64 {
            return Err(AcpiError::Truncated);
        }
        let typ = b[start as usize];
        let len = b[start as usize + 1];
        if start + entry_size(typ) > b.len() as u64 {
            return Err(AcpiError::Truncated);
        }
        assert(len != 0);
        let e = read_madt_entry(b, start as usize);
        proof {
            let rest = madt_walk(b@, start + len, end as int);
            match rest {
                Some(Ok(r)) => {
                    assert(entries@.push(e) + r =~= entries@ + (seq![e] + r));
                },
                _ => {},
            }
        }
        entries.push(e);
        start = start + len as u64;
    }
    assert(entries@ + seq![] =~= entries@);
    Ok(ApicTopology { local_apic_addr: madt.local_apic_addr, entries })
}

/// `x` is the XSDT in `b`: its header, then as many 8-byte table addresses
/// as the header's length leaves room for after the header.
pub open spec fn xsdt_at(x: XSDT, b: Seq<u8>) -> bool {
    let count = (le_u32(b, 4) - 36) / 8;
    &&& sdt_header_at(x.h, b, 0)
    &&& x.sdt_pointers@.len() == count
    &&& forall|i: int| 0 <= i < count ==> #[trigger] x.sdt_pointers@[i] == le_u64(b, 36 + 8 * i)
}

impl XSDT {
    /// The XSDT at the start of `b`, or `Truncated` when `b` ends before the
    /// header or before the last table address that the header's length
    /// counts.
    pub fn from_bytes(b: &[u8]) -> (r: Result<XSDT, AcpiError>)
        requires
            b.len() >= SDT_HEADER_SIZE ==> le_u32(b@, 4) >= SDT_HEADER_SIZE,
        ensures
            r is Ok <==> b.len() >= SDT_HEADER_SIZE && b.len() >= 36 + 8 * ((le_u32(b@, 4) - 36)
                / 8),
            r is Err ==> r == Err::<XSDT, AcpiError>(AcpiError::Truncated),
            r matches Ok(x) ==> xsdt_at(x, b@),
    {
        let h = match SDT_HEADER::from_bytes(b, 0) {
            Some(h) => h,
            None => {
                return Err(AcpiError::Truncated);
            },
        };
        let count: usize = ((h.length - SDT_HEADER_SIZE as u32) / 8) as usize;
        if (b.len() - SDT_HEADER_SIZE) / 8 < count {
            return Err(AcpiError::Truncated);
        }
        let mut sdt_pointers: Vec<u64> = Vec::new();
        let mut i: usize = 0;
        while i < count
            invariant
                i <= count,
                36 + 8 * count <= b.len(),
                sdt_pointers@.len() == i,
                forall|j: int| 0 <= j < i ==> #[trigger] sdt_pointers@[j] == le_u64(b@, 36 + 8 * j),
            decreases count - i,
        {
            let p = read_u64(b, SDT_HEADER_SIZE + 8 * i);
            sdt_pointers.push(p);
            i = i + 1;
        }
        Ok(XSDT { h, sdt_pointers })
    }
}

/// Index of the first signature from `i` on that equals `wanted`, or the
/// number of signatures when none does.
pub open spec fn first_signature_match(sigs: Seq<[u8; 4]>, wanted: Seq<u8>, i: nat) -> nat
    decreases sigs.len() - i,
{
    if i >= sigs.len() {
        sigs.len()
    } else if sigs[i as int]@ == wanted {
        i
    } else {
        first_signature_match(sigs, wanted, i + 1)
    }
}

/// The table the search settles on: the first whose signature is `wanted`,
/// or, when none is, the last one looked at.
pub open spec fn sdt_choice(sigs: Seq<[u8; 4]>, wanted: Seq<u8>) -> int {
    let m = first_signature_match(sigs, wanted, 0);
    if m < sigs.len() {
        m as int
    } else {
        sigs.len() - 1
    }
}

/// Finds a system description table by its signature. `signatures[i]` holds
/// the four signature bytes of the table at `xsdt.sdt_pointers[i]` (seen at
/// that address plus `hhdm_offset`). The result is the higher-half address of
/// the first table whose signature is `signature`; when there is none, that
/// of the last table; `None` when the XSDT lists no table. Every signature up
/// to the one chosen must be UTF-8.
pub fn hal_acpi_find_sdt(
    xsdt: &XSDT,
    hhdm_offset: u64,
    signatures: &[[u8; 4]],
    signature: &str,
) -> (r: Option<u64>)
    requires
        signatures.len() == xsdt.sdt_pointers.len(),
        forall|i: int|
            #![trigger signatures@[i]]
            #![trigger xsdt.sdt_pointers@[i]]
            0 <= i <= sdt_choice(signatures@, signature.spec_bytes()) ==> {
                &&& valid_utf8(signatures@[i]@)
                &&& xsdt.sdt_pointers@[i] + hhdm_offset <= u64::MAX
            },
    ensures
        signatures.len() == 0 ==> r is None,
        signatures.len() > 0 ==> r == Some(
            (xsdt.sdt_pointers@[sdt_choice(signatures@, signature.spec_bytes())]
                + hhdm_offset) as u64,
        ),
{
    let n = signatures.len();
    if n == 0 {
        return None;
    }
    let wanted = signature.as_bytes();
    let ghost w = signature.spec_bytes();
    let mut i: usize = 0;
    while i < n
        invariant
            n == signatures.len(),
            n == xsdt.sdt_pointers.len(),
            n > 0,
            i <= n,
            wanted@ == w,
            w == signature.spec_bytes(),
            first_signature_match(signatures@, w, 0) == first_signature_match(
                signatures@,
                w,
                i as nat,
            ),
            forall|j: int|
                #![trigger signatures@[j]]
                #![trigger xsdt.sdt_pointers@[j]]
                0 <= j <= sdt_choice(signatures@, w) ==> {
                    &&& valid_utf8(signatures@[j]@)
                    &&& xsdt.sdt_pointers@[j] + hhdm_offset <= u64::MAX
                },
        decreases n - i,
    {
        let sig = &signatures[i];
        let same = wanted.len() == 4 && sig[0] == wanted[0] && sig[1] == wanted[1] && sig[2]
            == wanted[2] && sig[3] == wanted[3];
        proof {
            if same {
                assert(signatures@[i as int]@ =~= w);
            } else {
                assert(signatures@[i as int]@ != w) by {
                    if signatures@[i as int]@ == w {
                        assert(signatures@[i as int]@[0] == sig[0]);
                        assert(signatures@[i as int]@[1] == sig[1]);
                        assert(signatures@[i as int]@[2] == sig[2]);
                        assert(signatures@[i as int]@[3] == sig[3]);
                    }
                }
            }
        }
        if same {
            return Some(xsdt.sdt_pointers[i] + hhdm_offset);
        }
        i = i + 1;
    }
    assert(first_signature_match(signatures@, w, n as nat) == n);
    assert(sdt_choice(signatures@, w) == n - 1);
    Some(xsdt.sdt_pointers[n - 1] + hhdm_offset)
}

proof fn lemma_first_signature_match(sigs: Seq<[u8; 4]>, wanted: Seq<u8>, i: nat)
    requires
        i <= sigs.len(),
    ensures
        i <= first_signature_match(sigs, wanted, i) <= sigs.len(),
        first_signature_match(sigs, wanted, i) < sigs.len() ==> sigs[first_signature_match(
            sigs,
            wanted,
            i,
        ) as int]@ == wanted,
        forall|j: int|
            i <= j < first_signature_match(sigs, wanted, i) ==> (#[trigger] sigs[j])@ != wanted,
    decreases sigs.len() - i,
{
    if i < sigs.len() && sigs[i as int]@ != wanted {
        lemma_first_signature_match(sigs, wanted, i + 1);
    }
}

/// The table search settles on a listed table; when some table has the
/// wanted signature, it is the first such table; when none has, it is the
/// last table.
pub proof fn lemma_sdt_choice(sigs: Seq<[u8; 4]>, wanted: Seq<u8>)
    requires
        sigs.len() > 0,
    ensures
        0 <= sdt_choice(sigs, wanted) < sigs.len(),
        (exists|i: int| 0 <= i < sigs.len() && (#[trigger] sigs[i])@ == wanted) ==> {
            &&& sigs[sdt_choice(sigs, wanted)]@ == wanted
            &&& forall|j: int| 0 <= j < sdt_choice(sigs, wanted) ==> (#[trigger] sigs[j])@ != wanted
        },
        (forall|i: int| 0 <= i < sigs.len() ==> (#[trigger] sigs[i])@ != wanted) ==> sdt_choice(
            sigs,
            wanted,
        ) == sigs.len() - 1,
{
    lemma_first_signature_match(sigs, wanted, 0);
}

/// The number whose little-endian digits in base 256 are the `n` bytes of
/// `b` from byte `off`: `b[off] + 256 * b[off + 1] + 256^2 * b[off + 2] + ...`.
pub open spec fn le_number(b: Seq<u8>, off: int, n: nat) -> int
    decreases n,
{
    if n == 0 {
        0
    } else {
        b[off] as int + 256 * le_number(b, off + 1, (n - 1) as nat)
    }
}

/// The multi-byte fields of the tables are little-endian: a 2-, 4- or 8-byte
/// read gives the number whose base-256 digits are those bytes, lowest first.
pub proof fn lemma_le_reads(b: Seq<u8>, off: int)
    requires
        0 <= off,
    ensures
        off + 2 <= b.len() ==> le_u16(b, off) as int == le_number(b, off, 2),
        off + 4 <= b.len() ==> le_u32(b, off) as int == le_number(b, off, 4),
        off + 8 <= b.len() ==> le_u64(b, off) as int == le_number(b, off, 8),
{
    reveal_with_fuel(le_number, 9);
    if off + 2 <= b.len() {
        let x0 = b[off];
        let x1 = b[off + 1];
        assert((x0 as u16) | ((x1 as u16) << 8u16) == x0 as int + 256 * (x1 as int + 256 * 0))
            by (bit_vector);
    }
    if off + 4 <= b.len() {
        let x0 = b[off];
        let x1 = b[off + 1];
        let x2 = b[off + 2];
        let x3 = b[off + 3];
        assert((x0 as u32) | ((x1 as u32) << 8u32) | ((x2 as u32) << 16u32) | ((x3 as u32)
            << 24u32) == x0 as int + 256 * (x1 as int + 256 * (x2 as int + 256 * (x3 as int + 256
            * 0)))) by (bit_vector);
    }
    if off + 8 <= b.len() {
        let x0 = b[off];
        let x1 = b[off + 1];
        let x2 = b[off + 2];
        let x3 = b[off + 3];
        let x4 = b[off + 4];
        let x5 = b[off + 5];
        let x6 = b[off + 6];
        let x7 = b[off + 7];
        assert((x0 as u64) | ((x1 as u64) << 8u64) | ((x2 as u64) << 16u64) | ((x3 as u64)
            << 24u64) | ((x4 as u64) << 32u64) | ((x5 as u64) << 40u64) | ((x6 as u64) << 48u64)
            | ((x7 as u64) << 56u64) == x0 as int + 256 * (x1 as int + 256 * (x2 as int + 256 * (
        x3 as int + 256 * (x4 as int + 256 * (x5 as int + 256 * (x6 as int + 256 * (x7 as int
            + 256 * 0)))))))) by (bit_vector);
    }
}

/// Each MADT entry is decoded field by field from its bytes: byte 0 is the
/// type that picks the structure (0 local APIC, 1 I/O APIC, 2 interrupt
/// source override, 4 local APIC NMI, any other left undecoded), byte 1 the
/// length, and then each structure's fields at their fixed offsets,
/// multi-byte fields little-endian.
pub proof fn lemma_madt_entry_layout(b: Seq<u8>, off: int)
    requires
        0 <= off,
        off + 2 <= b.len(),
        off + madt_entry_size(b[off]) <= b.len(),
    ensures
        b[off] == 0 ==> (madt_entry_at(b, off) matches MadtEntry::Lapic(x) && x.h.typ == 0
            && x.h.length == b[off + 1] && x.acpi_processor_uid == b[off + 2] && x.apic_id == b[off
            + 3] && x.flags as int == le_number(b, off + 4, 4)),
        b[off] == 1 ==> (madt_entry_at(b, off) matches MadtEntry::IoApic(x) && x.h.typ == 1
            && x.h.length == b[off + 1] && x.ioapic_id == b[off + 2] && x.reserved == b[off + 3]
            && x.ioapic_addr as int == le_number(b, off + 4, 4) && x.gsi_base as int == le_number(
            b,
            off + 8,
            4,
        )),
        b[off] == 2 ==> (madt_entry_at(b, off) matches MadtEntry::InterruptSourceOverride(x)
            && x.h.typ == 2 && x.h.length == b[off + 1] && x.bus == b[off + 2] && x.source == b[off
            + 3] && x.gsi as int == le_number(b, off + 4, 4) && x.flags as int == le_number(
            b,
            off + 8,
            2,
        )),
        b[off] == 4 ==> (madt_entry_at(b, off) matches MadtEntry::LapicNmi(x) && x.h.typ == 4
            && x.h.length == b[off + 1] && x.acpi_processor_uid == b[off + 2] && x.flags as int
            == le_number(b, off + 3, 2) && x.lapic_lint == b[off + 5]),
        b[off] != 0 && b[off] != 1 && b[off] != 2 && b[off] != 4 ==> madt_entry_at(b, off)
            == MadtEntry::Other(MADT_HEADER { typ: b[off], length: b[off + 1] }),
{
    if b[off] == 0 {
        lemma_le_reads(b, off + 4);
    } else if b[off] == 1 {
        lemma_le_reads(b, off + 4);
        lemma_le_reads(b, off + 8);
    } else if b[off] == 2 {
        lemma_le_reads(b, off + 4);
        lemma_le_reads(b, off + 8);
    } else if b[off] == 4 {
        lemma_le_reads(b, off + 3);
    }
}

/// The MADT walk reads its first entry at byte 44 and then steps by each
/// entry's own length field: when the walk from `start` succeeds and `start`
/// is before `end`, its first entry is the one at `start`, and the rest is
/// the walk from `start` plus that entry's length.
pub proof fn lemma_madt_walk_steps(b: Seq<u8>, start: int, end: int, es: Seq<MadtEntry>)
    requires
        start < end,
        madt_walk(b, start, end) == Some(Ok::<Seq<MadtEntry>, AcpiError>(es)),
    ensures
        0 <= start,
        start + 2 <= b.len(),
        b[start + 1] > 0,
        es.len() > 0,
        es[0] == madt_entry_at(b, start),
        madt_walk(b, start + b[start + 1], end) == Some(
            Ok::<Seq<MadtEntry>, AcpiError>(es.drop_first()),
        ),
{
    let rest = madt_walk(b, start + b[start + 1], end);
    match rest {
        Some(Ok(r)) => {
            assert((seq![madt_entry_at(b, start)] + r).drop_first() =~= r);
        },
        _ => {},
    }
}

/// A system description table header is read from its bytes at fixed
/// offsets: the signature from bytes 0-3, the length (little-endian) from
/// bytes 4-7, revision byte 8, checksum byte 9, OEM ID bytes 10-15, OEM table
/// ID bytes 16-23, then the OEM revision, creator ID and creator revision
/// (little-endian) from bytes 24, 28 and 32.
pub proof fn lemma_sdt_header_layout(h: SDT_HEADER, b: Seq<u8>, off: int)
    requires
        0 <= off,
        off + 36 <= b.len(),
        sdt_header_at(h, b, off),
    ensures
        forall|k: int| 0 <= k < 4 ==> h.signature@[k] == b[off + k],
        h.length as int == le_number(b, off + 4, 4),
        h.revision == b[off + 8],
        h.checksum == b[off + 9],
        forall|k: int| 0 <= k < 6 ==> h.oem_id@[k] == b[off + 10 + k],
        forall|k: int| 0 <= k < 8 ==> h.oem_table_id@[k] == b[off + 16 + k],
        h.oem_revision as int == le_number(b, off + 24, 4),
        h.creator_id as int == le_number(b, off + 28, 4),
        h.creator_revision as int == le_number(b, off + 32, 4),
{
    lemma_le_reads(b, off + 4);
    lemma_le_reads(b, off + 24);
    lemma_le_reads(b, off + 28);
    lemma_le_reads(b, off + 32);
}

/// The XSDP is read from its bytes at fixed offsets: signature bytes 0-7,
/// checksum byte 8, OEM ID bytes 9-14, revision byte 15, the RSDT address
/// and the length (little-endian) from bytes 16 and 20, the XSDT address
/// (little-endian, 8 bytes) from byte 24, the extended checksum byte 32.
pub proof fn lemma_xsdp_layout(x: XSDP, b: Seq<u8>)
    requires
        36 <= b.len(),
        xsdp_at(x, b, 0),
    ensures
        forall|k: int| 0 <= k < 8 ==> x.signature@[k] == b[k],
        x.checksum == b[8],
        forall|k: int| 0 <= k < 6 ==> x.oemid@[k] == b[9 + k],
        x.revision == b[15],
        x.rsdt_addr as int == le_number(b, 16, 4),
        x.length as int == le_number(b, 20, 4),
        x.xsdt_addr as int == le_number(b, 24, 8),
        x.extended_checksum == b[32],
{
    lemma_le_reads(b, 16);
    lemma_le_reads(b, 20);
    lemma_le_reads(b, 24);
}

/// The XSDT lists one table address per 8 bytes after its 36-byte header,
/// as many as fit in the length the header gives, each little-endian:
/// address `i` is the number whose base-256 digits are bytes `36 + 8 * i` to
/// `43 + 8 * i`.
pub proof fn lemma_xsdt_layout(x: XSDT, b: Seq<u8>, i: int)
    requires
        xsdt_at(x, b),
        36 <= b.len(),
        le_u32(b, 4) >= 36,
        0 <= i < x.sdt_pointers@.len(),
        36 + 8 * x.sdt_pointers@.len() <= b.len(),
    ensures
        x.sdt_pointers@[i] as int == le_number(b, 36 + 8 * i, 8),
        36 + 8 * x.sdt_pointers@.len() <= x.h.length < 36 + 8 * (x.sdt_pointers@.len() + 1),
{
    assert(x.sdt_pointers@[i] == le_u64(b, 36 + 8 * i));
    lemma_le_reads(b, 36 + 8 * i);
}

} // verus!
