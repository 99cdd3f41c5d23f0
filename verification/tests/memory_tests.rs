use x86_kernel::mm::pmm::{pmm_init, MemmapEntry, PhysRange, MEMMAP_ACPI_NVS};
use x86_kernel::shim::{memcmp, memcpy, memmove, memset, strlen};

#[test]
fn memset_fills_prefix() {
    let mut b = [9u8; 6];
    memset(&mut b, 0x1AB, 4);
    assert_eq!(b, [0xAB, 0xAB, 0xAB, 0xAB, 9, 9]);
}

#[test]
fn memcpy_copies_prefix() {
    let mut d = [0u8; 5];
    memcpy(&mut d, &[1, 2, 3, 4, 5, 6], 3);
    assert_eq!(d, [1, 2, 3, 0, 0]);
}

#[test]
fn memmove_forward_overlap() {
    let mut b = [1u8, 2, 3, 4, 5, 6, 7, 8];
    memmove(&mut b, 0, 2, 5);
    assert_eq!(b, [3, 4, 5, 6, 7, 6, 7, 8]);
}

#[test]
fn memmove_backward_overlap() {
    let mut b = [1u8, 2, 3, 4, 5, 6, 7, 8];
    memmove(&mut b, 2, 0, 5);
    assert_eq!(b, [1, 2, 1, 2, 3, 4, 5, 8]);
}

#[test]
fn memmove_same_place_and_empty() {
    let mut b = [1u8, 2, 3];
    memmove(&mut b, 1, 1, 2);
    assert_eq!(b, [1, 2, 3]);
    memmove(&mut b, 0, 2, 0);
    assert_eq!(b, [1, 2, 3]);
}

#[test]
fn memcmp_results() {
    assert_eq!(memcmp(b"abcd", b"abcd", 4), 0);
    assert_eq!(memcmp(b"abcd", b"abzd", 4), (b'c' as i32) - (b'z' as i32));
    assert_eq!(memcmp(b"abzd", b"abcd", 4), (b'z' as i32) - (b'c' as i32));
    assert_eq!(memcmp(b"abcd", b"abzd", 2), 0);
    assert_eq!(memcmp(&[0xFF], &[0x00], 1), 255);
}

#[test]
fn strlen_counts_to_first_nul() {
    assert_eq!(strlen(b"hello\0world\0"), 5);
    assert_eq!(strlen(b"\0"), 0);
}

#[test]
fn pmm_reports_acpi_nvs_ranges_in_order() {
    let map = [
        MemmapEntry { base: 0, length: 0x9F000, type_: 0 },
        MemmapEntry { base: 0x7FF0_0000, length: 0x1_0000, type_: MEMMAP_ACPI_NVS },
        MemmapEntry { base: 0x8000_0000, length: 0x1000, type_: 2 },
        MemmapEntry { base: 0xFFFF_0000, length: 0x1_0000, type_: MEMMAP_ACPI_NVS },
    ];
    assert_eq!(
        pmm_init(&map),
        vec![
            PhysRange { start: 0x7FF0_0000, end: 0x7FF1_0000 },
            PhysRange { start: 0xFFFF_0000, end: 0x1_0000_0000 },
        ]
    );
    assert!(pmm_init(&map[..1]).is_empty());
    assert_eq!(MEMMAP_ACPI_NVS, 3);
}
