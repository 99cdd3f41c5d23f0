use x86_kernel::apic::{
    apic_status, enable_x2apic, self_ipi, self_nmi, DeliveryMode, DestinationMode,
    DestinationShorthand, Level, TriggerMode, X2APIC_ICR,
};
use x86_kernel::arch::{msr_from_halves, msr_halves, MsrWrite};
use x86_kernel::globals::{IA32_APIC_BASE_MSR, SELF_IPI_MSR, X2APIC_ICR_MSR};

#[test]
fn icr_fixed_interrupt_to_apic_one() {
    let w = X2APIC_ICR::ICR(
        0x20,
        DeliveryMode::Fixed,
        DestinationMode::Physical,
        Level::Assert,
        TriggerMode::Edge,
        DestinationShorthand::NoShorthand,
        1,
    );
    assert_eq!(w, MsrWrite { msr: X2APIC_ICR_MSR, value: 0x1_0000_4020 });
}

#[test]
fn icr_every_field_at_its_maximum() {
    let w = X2APIC_ICR::ICR(
        0xFE,
        DeliveryMode::INIT,
        DestinationMode::Logical,
        Level::Assert,
        TriggerMode::Level,
        DestinationShorthand::AllExcludingSelf,
        0xFFFF_FFFF,
    );
    assert_eq!(w.msr, 0x830);
    assert_eq!(w.value, 0xFFFF_FFFF_000C_CDFE);
}

#[test]
fn icr_delivery_mode_codes() {
    let codes = [
        (DeliveryMode::Fixed, 0u64),
        (DeliveryMode::LowestPriority, 1),
        (DeliveryMode::SMI, 2),
        (DeliveryMode::NMI, 4),
        (DeliveryMode::INIT, 5),
        (DeliveryMode::StartUp, 6),
    ];
    for (mode, code) in codes {
        let w = X2APIC_ICR::ICR(
            0,
            mode,
            DestinationMode::Physical,
            Level::DeAssert,
            TriggerMode::Edge,
            DestinationShorthand::NoShorthand,
            0,
        );
        assert_eq!(w.value, code << 8);
        assert_eq!(mode.bits(), code);
    }
}

#[test]
fn self_nmi_is_an_nmi_icr_to_self() {
    let w = self_nmi();
    assert_eq!(w, MsrWrite { msr: X2APIC_ICR_MSR, value: 0x44400 });
    let same = X2APIC_ICR::ICR(
        0,
        DeliveryMode::NMI,
        DestinationMode::Physical,
        Level::Assert,
        TriggerMode::Edge,
        DestinationShorthand::Myself,
        0,
    );
    assert_eq!(w, same);
}

#[test]
fn apic_status_reads_enable_bits() {
    let s = apic_status(0xFEE0_0900);
    assert!(s.apic_enabled);
    assert!(!s.x2apic_enabled);
    let s = apic_status(0xFEE0_0D00);
    assert!(s.apic_enabled);
    assert!(s.x2apic_enabled);
    let s = apic_status(0);
    assert!(!s.apic_enabled);
    assert!(!s.x2apic_enabled);
}

#[test]
fn enable_x2apic_sets_both_bits_and_keeps_the_rest() {
    let w = enable_x2apic(0xFEE0_0900);
    assert_eq!(w, MsrWrite { msr: IA32_APIC_BASE_MSR, value: 0xFEE0_0D00 });
    let s = apic_status(w.value);
    assert!(s.apic_enabled && s.x2apic_enabled);
    assert_eq!(enable_x2apic(w.value).value, w.value);
}

#[test]
fn self_ipi_writes_the_vector() {
    assert_eq!(self_ipi(0x27), MsrWrite { msr: SELF_IPI_MSR, value: 0x27 });
    assert_eq!(self_ipi(0xFF).value, 0xFF);
}

#[test]
fn msr_halves_round_trip() {
    assert_eq!(msr_from_halves(0x1234, 0xABCD), 0x0000_1234_0000_ABCD);
    assert_eq!(msr_halves(0xDEAD_BEEF_0BAD_F00D), (0x0BAD_F00D, 0xDEAD_BEEF));
    let v = 0xFFFF_0000_1234_5678u64;
    let (lo, hi) = msr_halves(v);
    assert_eq!(msr_from_halves(hi, lo), v);
}
