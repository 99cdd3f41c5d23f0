use x86_kernel::hal::acpi::{
    find_apic, hal_acpi_find_sdt, madt_walk_halts, AcpiError, MadtEntry, MADT, MADT_HEADER, MADT_INTERRUPT_SOURCE_OVERRIDE,
    MADT_IOAPIC, MADT_LAPIC, MADT_LAPIC_NMI, SDT_HEADER, XSDP, XSDT,
};

fn header(sig: &[u8; 4], length: u32) -> Vec<u8> {
    let mut h = Vec::new();
    h.extend_from_slice(sig);
    h.extend_from_slice(&length.to_le_bytes());
    h.push(1); // revision
    h.push(0x5A); // checksum
    h.extend_from_slice(b"OEMID1");
    h.extend_from_slice(b"TABLEID1");
    h.extend_from_slice(&7u32.to_le_bytes());
    h.extend_from_slice(&0x4C4E_5543u32.to_le_bytes());
    h.extend_from_slice(&9u32.to_le_bytes());
    h
}

fn madt(entries: &[u8]) -> Vec<u8> {
    let mut b = header(b"APIC", (44 + entries.len()) as u32);
    b.extend_from_slice(&0xFEE0_0000u32.to_le_bytes());
    b.extend_from_slice(&1u32.to_le_bytes());
    b.extend_from_slice(entries);
    b
}

#[test]
fn sdt_header_fields() {
    let b = header(b"FACP", 0x114);
    let h = SDT_HEADER::from_bytes(&b, 0).unwrap();
    assert_eq!(&h.signature, b"FACP");
    assert_eq!(h.length, 0x114);
    assert_eq!(h.revision, 1);
    assert_eq!(h.checksum, 0x5A);
    assert_eq!(&h.oem_id, b"OEMID1");
    assert_eq!(&h.oem_table_id, b"TABLEID1");
    assert_eq!(h.oem_revision, 7);
    assert_eq!(h.creator_id, 0x4C4E_5543);
    assert_eq!(h.creator_revision, 9);
    assert!(SDT_HEADER::from_bytes(&b[..35], 0).is_none());
    assert!(SDT_HEADER::from_bytes(&b, 1).is_none());
}

#[test]
fn xsdp_fields() {
    let mut b = Vec::new();
    b.extend_from_slice(b"RSD PTR ");
    b.push(0x11);
    b.extend_from_slice(b"BOCHS ");
    b.push(2);
    b.extend_from_slice(&0x7FE1_4000u32.to_le_bytes());
    b.extend_from_slice(&36u32.to_le_bytes());
    b.extend_from_slice(&0x0000_0000_7FE1_5000u64.to_le_bytes());
    b.push(0x22);
    b.extend_from_slice(&[0, 0, 0]);
    let x = XSDP::from_bytes(&b).unwrap();
    assert_eq!(&x.signature, b"RSD PTR ");
    assert_eq!(x.checksum, 0x11);
    assert_eq!(&x.oemid, b"BOCHS ");
    assert_eq!(x.revision, 2);
    assert_eq!(x.rsdt_addr, 0x7FE1_4000);
    assert_eq!(x.length, 36);
    assert_eq!(x.xsdt_addr, 0x7FE1_5000);
    assert_eq!(x.extended_checksum, 0x22);
    assert_eq!(x.reserved, [0, 0, 0]);
    assert!(XSDP::from_bytes(&b[..20]).is_none());
}

fn xsdt_bytes(ptrs: &[u64]) -> Vec<u8> {
    let mut b = header(b"XSDT", (36 + 8 * ptrs.len()) as u32);
    for p in ptrs {
        b.extend_from_slice(&p.to_le_bytes());
    }
    b
}

#[test]
fn xsdt_lists_table_addresses() {
    let x = XSDT::from_bytes(&xsdt_bytes(&[0x1000, 0x2000, 0x3000])).unwrap();
    assert_eq!(x.sdt_pointers, vec![0x1000, 0x2000, 0x3000]);
    assert_eq!(&x.h.signature, b"XSDT");
}

#[test]
fn xsdt_truncated() {
    let b = xsdt_bytes(&[0x1000, 0x2000]);
    assert_eq!(XSDT::from_bytes(&b[..b.len() - 1]).unwrap_err(), AcpiError::Truncated);
    assert_eq!(XSDT::from_bytes(&b[..10]).unwrap_err(), AcpiError::Truncated);
}

#[test]
fn xsdt_length_not_a_multiple_of_eight() {
    let mut b = xsdt_bytes(&[0x1000, 0x2000]);
    b[4] += 7;
    let x = XSDT::from_bytes(&b).unwrap();
    assert_eq!(x.sdt_pointers.len(), 2);
}

#[test]
fn find_sdt_first_match() {
    let x = XSDT::from_bytes(&xsdt_bytes(&[0x1000, 0x2000, 0x3000])).unwrap();
    let sigs = [*b"FACP", *b"APIC", *b"APIC"];
    assert_eq!(hal_acpi_find_sdt(&x, 0xFFFF_8000_0000_0000, &sigs, "APIC"), Some(0xFFFF_8000_0000_2000));
    assert_eq!(hal_acpi_find_sdt(&x, 0, &sigs, "FACP"), Some(0x1000));
}

#[test]
fn find_sdt_missing_gives_last_table() {
    let x = XSDT::from_bytes(&xsdt_bytes(&[0x1000, 0x2000, 0x3000])).unwrap();
    let sigs = [*b"FACP", *b"APIC", *b"HPET"];
    assert_eq!(hal_acpi_find_sdt(&x, 0x10, &sigs, "MCFG"), Some(0x3010));
    assert_eq!(hal_acpi_find_sdt(&x, 0x10, &sigs, "APICX"), Some(0x3010));
}

#[test]
fn find_sdt_no_tables() {
    let x = XSDT::from_bytes(&xsdt_bytes(&[])).unwrap();
    assert_eq!(hal_acpi_find_sdt(&x, 0x10, &[], "APIC"), None);
}

#[test]
fn madt_fixed_part() {
    let b = madt(&[]);
    let m = MADT::from_bytes(&b).unwrap();
    assert_eq!(m.local_apic_addr, 0xFEE0_0000);
    assert_eq!(m.flags, 1);
    assert_eq!(m.h.length, 44);
    assert!(MADT::from_bytes(&b[..43]).is_none());
}

#[test]
fn find_apic_decodes_every_entry_kind() {
    let entries: Vec<u8> = vec![
        0, 8, 0, 0, 1, 0, 0, 0, // LAPIC uid 0 id 0 flags 1
        0, 8, 1, 1, 1, 0, 0, 0, // LAPIC uid 1 id 1 flags 1
        1, 12, 2, 0, 0x00, 0x00, 0xC0, 0xFE, 0, 0, 0, 0, // IOAPIC id 2 at 0xFEC00000 gsi 0
        2, 10, 0, 0, 2, 0, 0, 0, 0, 0, // ISO irq0 -> gsi2 flags 0
        4, 6, 0xFF, 5, 0, 1, // NMI all processors flags 5 lint1
        9, 4, 0xAA, 0xBB, // unknown type 9
    ];
    let t = find_apic(&madt(&entries)).unwrap();
    assert_eq!(t.local_apic_addr, 0xFEE0_0000);
    assert_eq!(
        t.entries,
        vec![
            MadtEntry::Lapic(MADT_LAPIC {
                h: MADT_HEADER { typ: 0, length: 8 },
                acpi_processor_uid: 0,
                apic_id: 0,
                flags: 1
            }),
            MadtEntry::Lapic(MADT_LAPIC {
                h: MADT_HEADER { typ: 0, length: 8 },
                acpi_processor_uid: 1,
                apic_id: 1,
                flags: 1
            }),
            MadtEntry::IoApic(MADT_IOAPIC {
                h: MADT_HEADER { typ: 1, length: 12 },
                ioapic_id: 2,
                reserved: 0,
                ioapic_addr: 0xFEC0_0000,
                gsi_base: 0
            }),
            MadtEntry::InterruptSourceOverride(MADT_INTERRUPT_SOURCE_OVERRIDE {
                h: MADT_HEADER { typ: 2, length: 10 },
                bus: 0,
                source: 0,
                gsi: 2,
                flags: 0
            }),
            MadtEntry::LapicNmi(MADT_LAPIC_NMI {
                h: MADT_HEADER { typ: 4, length: 6 },
                acpi_processor_uid: 0xFF,
                flags: 5,
                lapic_lint: 1
            }),
            MadtEntry::Other(MADT_HEADER { typ: 9, length: 4 }),
        ]
    );
}

#[test]
fn find_apic_no_entries() {
    let t = find_apic(&madt(&[])).unwrap();
    assert!(t.entries.is_empty());
}

#[test]
fn madt_walk_stalls_on_zero_length_entry() {
    let entries: Vec<u8> = vec![0, 8, 0, 0, 1, 0, 0, 0, 7, 0, 0, 0];
    assert!(!madt_walk_halts(&madt(&entries)));
}

#[test]
fn madt_walk_halts_on_well_formed_tables() {
    let entries: Vec<u8> = vec![0, 8, 0, 0, 1, 0, 0, 0, 9, 4, 0, 0];
    assert!(madt_walk_halts(&madt(&entries)));
    assert!(madt_walk_halts(&madt(&[])));
    assert!(madt_walk_halts(&[0u8; 10]));
}

#[test]
fn madt_zero_length_entry_past_the_end_is_not_reached() {
    let entries: Vec<u8> = vec![0, 8, 0, 0, 1, 0, 0, 0, 7, 0, 0, 0];
    let mut b = madt(&entries);
    b[4] -= 4; // the table ends before the zero-length entry
    assert!(madt_walk_halts(&b));
    assert_eq!(find_apic(&b).unwrap().entries.len(), 1);
}

#[test]
fn find_apic_truncated() {
    let entries: Vec<u8> = vec![0, 8, 0, 0, 1, 0, 0, 0, 1, 12, 2, 0];
    let mut b = madt(&entries);
    b[4] += 8; // the table claims more than the bytes hold
    assert_eq!(find_apic(&b).unwrap_err(), AcpiError::Truncated);
    assert_eq!(find_apic(&b[..40]).unwrap_err(), AcpiError::Truncated);
}

#[test]
fn find_apic_stops_at_table_length() {
    let entries: Vec<u8> = vec![0, 8, 0, 0, 1, 0, 0, 0, 0, 8, 1, 1, 1, 0, 0, 0];
    let mut b = madt(&entries);
    b[4] -= 8; // second entry lies past the end the header gives
    let t = find_apic(&b).unwrap();
    assert_eq!(t.entries.len(), 1);
}
