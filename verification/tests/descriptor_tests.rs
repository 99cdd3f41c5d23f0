use x86_kernel::hal::gdt::{
    create_kernel_code_64, create_kernel_data_64, create_null, gdt_pointer, kernel_gdt,
    KERNEL_CODE_SELECTOR, KERNEL_DATA_SELECTOR,
};
use x86_kernel::hal::idt::{idt_pointer, kernel_idt, IdtEntry};

#[test]
fn kernel_code_descriptor_value() {
    assert_eq!(create_kernel_code_64(), 0x0020_9A00_0000_0000);
}

#[test]
fn kernel_data_descriptor_value() {
    assert_eq!(create_kernel_data_64(), 0x0000_9300_0000_0000);
}

#[test]
fn null_descriptor_is_zero() {
    assert_eq!(create_null(), 0);
}

#[test]
fn kernel_gdt_layout_and_selectors() {
    let gdt = kernel_gdt();
    assert_eq!(gdt[0], 0);
    assert_eq!(gdt[(KERNEL_CODE_SELECTOR / 8) as usize], create_kernel_code_64());
    assert_eq!(gdt[(KERNEL_DATA_SELECTOR / 8) as usize], create_kernel_data_64());
    assert!(gdt[3..].iter().all(|d| *d == 0));
    let p = gdt_pointer(0xFFFF_8000_0010_0000);
    assert_eq!(p.limit, 127);
    assert_eq!(p.base, 0xFFFF_8000_0010_0000);
}

#[test]
fn interrupt_gate_encoding() {
    let e = IdtEntry::new(0xFFFF_FFFF_8010_2030, 0x8, 0);
    assert_eq!(e.0, 0xffff_ffff_8010_8e00_0008_2030);
}

#[test]
fn interrupt_gate_keeps_low_three_stack_bits() {
    let e = IdtEntry::new(0xFFFF_FFFF_8010_2030, 0x10, 9);
    assert_eq!(e.0, 0xffff_ffff_8010_8e01_0010_2030);
}

#[test]
fn interrupt_gate_handler_reads_back() {
    let h = 0x0123_4567_89AB_CDEFu64;
    let g = IdtEntry::new(h, 0x28, 3).0;
    let low = (g & 0xFFFF) as u64;
    let high = ((g >> 48) & 0xFFFF) as u64;
    let upper = ((g >> 64) & 0xFFFF_FFFF) as u64;
    assert_eq!(low | (high << 16) | (upper << 32), h);
    assert_eq!(((g >> 16) & 0xFFFF) as u16, 0x28);
    assert_eq!(((g >> 32) & 7) as u8, 3);
    assert_eq!((g >> 96), 0);
}

#[test]
fn kernel_idt_has_de_and_gp_gates_only() {
    let idt = kernel_idt(0x1000, 0x2000);
    assert_eq!(idt[0], IdtEntry::new(0x1000, 0x8, 0).0);
    assert_eq!(idt[13], IdtEntry::new(0x2000, 0x8, 0).0);
    for (i, g) in idt.iter().enumerate() {
        if i != 0 && i != 13 {
            assert_eq!(*g, 0);
        }
    }
    let p = idt_pointer(0x5000);
    assert_eq!(p.limit, 4095);
    assert_eq!(p.base, 0x5000);
}
