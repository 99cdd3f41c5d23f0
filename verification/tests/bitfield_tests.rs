use x86_kernel::apic::X2APIC_ICR;
use x86_kernel::hal::gdt::{create_kernel_code_64, create_kernel_data_64, SegmentDescriptor};
use x86_kernel::hal::idt::IdtEntry;

#[test]
fn icr_fields_read_back_and_stay_apart() {
    let mut icr = X2APIC_ICR(0);
    icr.set_vector(0x1FF);
    icr.set_delivery_mode(5);
    icr.set_destination_shorthand(2);
    icr.set_destination(0xDEAD_BEEF);
    assert_eq!(icr.get_vector(), 0xFF);
    assert_eq!(icr.get_delivery_mode(), 5);
    assert_eq!(icr.get_destination_mode(), 0);
    assert_eq!(icr.get_level(), 0);
    assert_eq!(icr.get_trigger_mode(), 0);
    assert_eq!(icr.get_destination_shorthand(), 2);
    assert_eq!(icr.get_destination(), 0xDEAD_BEEF);
    assert_eq!(icr.0, 0xDEAD_BEEF_0008_05FF);
    icr.set_level(1);
    icr.set_trigger_mode(1);
    icr.set_destination_mode(1);
    assert_eq!(icr.0, 0xDEAD_BEEF_0008_CDFF);
}

#[test]
fn segment_descriptor_fields() {
    let code = SegmentDescriptor(create_kernel_code_64());
    assert_eq!(code.get_present(), 1);
    assert_eq!(code.get_long_mode(), 1);
    assert_eq!(code.get_executable(), 1);
    assert_eq!(code.get_dpl(), 0);
    assert_eq!(code.get_rw(), 1);
    let data = SegmentDescriptor(create_kernel_data_64());
    assert_eq!(data.get_executable(), 0);
    assert_eq!(data.get_access(), 1);
    let mut d = SegmentDescriptor(0);
    d.set_limit_low(0xFFFF);
    d.set_limit_high(0xF);
    d.set_base_low(0x1234);
    d.set_base_middle(0x56);
    d.set_base_high(0x78);
    d.set_granularity(1);
    d.set_default_bit(1);
    d.set_avl(1);
    d.set_dc(1);
    d.set_dpl(3);
    d.set_code_data(1);
    assert_eq!(d.0, 0x78DF_7456_1234_FFFF);
    assert_eq!(d.get_base_middle(), 0x56);
    assert_eq!(d.get_limit_high(), 0xF);
    assert_eq!(d.get_granularity(), 1);
    assert_eq!(d.get_default_bit(), 1);
    assert_eq!(d.get_avl(), 1);
    assert_eq!(d.get_dc(), 1);
    assert_eq!(d.get_code_data(), 1);
    assert_eq!(d.get_base_low(), 0x1234);
    assert_eq!(d.get_base_high(), 0x78);
    assert_eq!(d.get_limit_low(), 0xFFFF);
}

#[test]
fn idt_entry_fields() {
    let e = IdtEntry::new(0x0123_4567_89AB_CDEF, 0x08, 1);
    assert_eq!(e.get_offset_low(), 0xCDEF);
    assert_eq!(e.get_offset_high(), 0x89AB);
    assert_eq!(e.get_offset_upper(), 0x0123_4567);
    assert_eq!(e.get_selector(), 0x08);
    assert_eq!(e.get_ist(), 1);
    assert_eq!(e.get_gate_type(), 0xE);
    assert_eq!(e.get_dpl(), 0);
    assert_eq!(e.get_present(), 1);
    let mut f = e;
    f.set_dpl(3);
    f.set_present(0);
    assert_eq!(f.get_dpl(), 3);
    assert_eq!(f.get_present(), 0);
    assert_eq!(f.get_offset_low(), 0xCDEF);
    assert_eq!(f.0 ^ e.0, (3u128 << 45) | (1u128 << 47));
}
