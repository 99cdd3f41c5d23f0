use x86_kernel::hal::extable::{fixup_exception, handle_exception, ExtabEntry, TrapFrame};

const BASE: u64 = 0xFFFF_FFFF_8000_0000;

fn table() -> Vec<ExtabEntry> {
    vec![
        ExtabEntry { fault: 0x1000, fixup: 0x1010 },
        ExtabEntry { fault: 0x2000, fixup: 0x2020 },
        ExtabEntry { fault: 0x2000, fixup: 0x3030 },
    ]
}

fn frame(rip: u64) -> TrapFrame {
    TrapFrame {
        r15: 15,
        r14: 14,
        r13: 13,
        r12: 12,
        r11: 11,
        r10: 10,
        r9: 9,
        r8: 8,
        rdi: 7,
        rsi: 6,
        rbp: 5,
        rbx: 4,
        rdx: 3,
        rcx: 2,
        rax: 1,
        exception_number: 13,
        error_code: 0,
        rip,
        cs: 8,
        rflags: 0x202,
        rsp: 0xFFFF_8000_0000_1000,
        ss: 0x10,
    }
}

#[test]
fn fixup_found_for_registered_instruction() {
    assert_eq!(fixup_exception(BASE, &table(), BASE + 0x1000), Some(BASE + 0x1010));
}

#[test]
fn first_matching_entry_wins() {
    assert_eq!(fixup_exception(BASE, &table(), BASE + 0x2000), Some(BASE + 0x2020));
}

#[test]
fn no_fixup_for_unknown_instruction() {
    assert_eq!(fixup_exception(BASE, &table(), BASE + 0x1001), None);
    assert_eq!(fixup_exception(BASE, &[], BASE), None);
}

#[test]
fn handle_exception_redirects_rip_only() {
    let mut f = frame(BASE + 0x1000);
    assert!(handle_exception(&mut f, BASE, &table()));
    let mut expected = frame(BASE + 0x1000);
    expected.rip = BASE + 0x1010;
    assert_eq!(f, expected);
}

#[test]
fn handle_exception_leaves_genuine_fault_alone() {
    let mut f = frame(BASE + 0x4000);
    assert!(!handle_exception(&mut f, BASE, &table()));
    assert_eq!(f, frame(BASE + 0x4000));
}

#[test]
fn repeated_lookups_agree() {
    let t = table();
    let a = fixup_exception(BASE, &t, BASE + 0x2000);
    let b = fixup_exception(BASE, &t, BASE + 0x2000);
    assert_eq!(a, b);
    assert_eq!(t, table());
}
