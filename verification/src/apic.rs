//! The x2APIC: the interrupt command register's encoding, self-IPIs, and
//! the `IA32_APIC_BASE` enable bits.

use crate::arch::MsrWrite;
use crate::bits::{bits_of64, get_bits64, set_bits64, with_bits64};
use crate::globals::{
    IA32_APIC_BASE_EN, IA32_APIC_BASE_EXTD, IA32_APIC_BASE_MSR, SELF_IPI_MSR, X2APIC_ICR_MSR,
};
use vstd::prelude::*;

verus! {

/// How the target processors handle the interrupt (ICR bits 8-10).
#[derive(Clone, Copy, Debug, PartialEq, Eq)]
pub enum DeliveryMode {
    Fixed,
    LowestPriority,
    SMI,
    NMI,
    INIT,
    StartUp,
}

/// Whether the destination is an APIC ID or a logical set (ICR bit 11).
#[derive(Clone, Copy, Debug, PartialEq, Eq)]
pub enum DestinationMode {
    Physical,
    Logical,
}

/// The level bit of the ICR (bit 14).
#[derive(Clone, Copy, Debug, PartialEq, Eq)]
pub enum Level {
    DeAssert,
    Assert,
}

/// The trigger mode bit of the ICR (bit 15).
#[derive(Clone, Copy, Debug, PartialEq, Eq)]
pub enum TriggerMode {
    Edge,
    Level,
}

/// The destination shorthand of the ICR (bits 18-19).
#[derive(Clone, Copy, Debug, PartialEq, Eq)]
pub enum DestinationShorthand {
    NoShorthand,
    Myself,
    AllIncludingSelf,
    AllExcludingSelf,
}

impl DeliveryMode {
    /// The field's encoding.
    pub open spec fn value(self) -> u64 {
        match self {
            DeliveryMode::Fixed => 0b000,
            DeliveryMode::LowestPriority => 0b001,
            DeliveryMode::SMI => 0b010,
            DeliveryMode::NMI => 0b100,
            DeliveryMode::INIT => 0b101,
            DeliveryMode::StartUp => 0b110,
        }
    }

    /// The field's encoding.
    pub fn bits(&self) -> (r: u64)
        ensures
            r == self.value(),
    {
        match self {
            DeliveryMode::Fixed => 0b000,
            DeliveryMode::LowestPriority => 0b001,
            DeliveryMode::SMI => 0b010,
            DeliveryMode::NMI => 0b100,
            DeliveryMode::INIT => 0b101,
            DeliveryMode::StartUp => 0b110,
        }
    }
}

impl DestinationMode {
    /// The field's encoding.
    pub open spec fn value(self) -> u64 {
        match self {
            DestinationMode::Physical => 0,
            DestinationMode::Logical => 1,
        }
    }

    /// The field's encoding.
    pub fn bits(&self) -> (r: u64)
        ensures
            r == self.value(),
    {
        match self {
            DestinationMode::Physical => 0,
            DestinationMode::Logical => 1,
        }
    }
}

impl Level {
    /// The field's encoding.
    pub open spec fn value(self) -> u64 {
        match self {
            Level::DeAssert => 0,
            Level::Assert => 1,
        }
    }

    /// The field's encoding.
    pub fn bits(&self) -> (r: u64)
        ensures
            r == self.value(),
    {
        match self {
            Level::DeAssert => 0,
            Level::Assert => 1,
        }
    }
}

impl TriggerMode {
    /// The field's encoding.
    pub open spec fn value(self) -> u64 {
        match self {
            TriggerMode::Edge => 0,
            TriggerMode::Level => 1,
        }
    }

    /// The field's encoding.
    pub fn bits(&self) -> (r: u64)
        ensures
            r == self.value(),
    {
        match self {
            TriggerMode::Edge => 0,
            TriggerMode::Level => 1,
        }
    }
}

impl DestinationShorthand {
    /// The field's encoding.
    pub open spec fn value(self) -> u64 {
        match self {
            DestinationShorthand::NoShorthand => 0b00,
            DestinationShorthand::Myself => 0b01,
            DestinationShorthand::AllIncludingSelf => 0b10,
            DestinationShorthand::AllExcludingSelf => 0b11,
        }
    }

    /// The field's encoding.
    pub fn bits(&self) -> (r: u64)
        ensures
            r == self.value(),
    {
        match self {
            DestinationShorthand::NoShorthand => 0b00,
            DestinationShorthand::Myself => 0b01,
            DestinationShorthand::AllIncludingSelf => 0b10,
            DestinationShorthand::AllExcludingSelf => 0b11,
        }
    }
}

/// The x2APIC interrupt command register value with the given fields; every
/// other bit is zero.
pub open spec fn icr_value(
    vector: u64,
    delivery_mode: u64,
    destination_mode: u64,
    level: u64,
    trigger_mode: u64,
    destination_shorthand: u64,
    destination: u64,
) -> u64 {
    vector | (delivery_mode << 8u64) | (destination_mode << 11u64) | (level << 14u64) | (
    trigger_mode << 15u64) | (destination_shorthand << 18u64) | (destination << 32u64)
}

/// The register value of an x2APIC interrupt command.
#[allow(non_camel_case_types)]
#[derive(Clone, Copy, Debug, PartialEq, Eq)]
pub struct X2APIC_ICR(pub u64);

/// Field accessors of `X2APIC_ICR`: each `get_` reads its bit range, moved down
/// to bit 0; each `set_` writes the value's low bits into that range and
/// keeps every other bit.
impl X2APIC_ICR {
    /// The interrupt vector (bits 0..=7).
    pub fn get_vector(&self) -> (r: u64)
        ensures
            r == bits_of64(self.0, 7, 0),
    {
        get_bits64(self.0, 7, 0)
    }

    /// Writes the interrupt vector (bits 0..=7).
    pub fn set_vector(&mut self, value: u64)
        ensures
            final(self).0 == with_bits64(old(self).0, 7, 0, value),
    {
        self.0 = set_bits64(self.0, 7, 0, value);
    }

    /// The delivery mode (bits 8..=10).
    pub fn get_delivery_mode(&self) -> (r: u64)
        ensures
            r == bits_of64(self.0, 10, 8),
    {
        get_bits64(self.0, 10, 8)
    }

    /// Writes the delivery mode (bits 8..=10).
    pub fn set_delivery_mode(&mut self, value: u64)
        ensures
            final(self).0 == with_bits64(old(self).0, 10, 8, value),
    {
        self.0 = set_bits64(self.0, 10, 8, value);
    }

    /// The destination mode (bits 11..=11).
    pub fn get_destination_mode(&self) -> (r: u64)
        ensures
            r == bits_of64(self.0, 11, 11),
    {
        get_bits64(self.0, 11, 11)
    }

    /// Writes the destination mode (bits 11..=11).
    pub fn set_destination_mode(&mut self, value: u64)
        ensures
            final(self).0 == with_bits64(old(self).0, 11, 11, value),
    {
        self.0 = set_bits64(self.0, 11, 11, value);
    }

    /// The level (bits 14..=14).
    pub fn get_level(&self) -> (r: u64)
        ensures
            r == bits_of64(self.0, 14, 14),
    {
        get_bits64(self.0, 14, 14)
    }

    /// Writes the level (bits 14..=14).
    pub fn set_level(&mut self, value: u64)
        ensures
            final(self).0 == with_bits64(old(self).0, 14, 14, value),
    {
        self.0 = set_bits64(self.0, 14, 14, value);
    }

    /// The trigger mode (bits 15..=15).
    pub fn get_trigger_mode(&self) -> (r: u64)
        ensures
            r == bits_of64(self.0, 15, 15),
    {
        get_bits64(self.0, 15, 15)
    }

    /// Writes the trigger mode (bits 15..=15).
    pub fn set_trigger_mode(&mut self, value: u64)
        ensures
            final(self).0 == with_bits64(old(self).0, 15, 15, value),
    {
        self.0 = set_bits64(self.0, 15, 15, value);
    }

    /// The destination shorthand (bits 18..=19).
    pub fn get_destination_shorthand(&self) -> (r: u64)
        ensures
            r == bits_of64(self.0, 19, 18),
    {
        get_bits64(self.0, 19, 18)
    }

    /// Writes the destination shorthand (bits 18..=19).
    pub fn set_destination_shorthand(&mut self, value: u64)
        ensures
            final(self).0 == with_bits64(old(self).0, 19, 18, value),
    {
        self.0 = set_bits64(self.0, 19, 18, value);
    }

    /// The destination (bits 32..=63).
    pub fn get_destination(&self) -> (r: u64)
        ensures
            r == bits_of64(self.0, 63, 32),
    {
        get_bits64(self.0, 63, 32)
    }

    /// Writes the destination (bits 32..=63).
    pub fn set_destination(&mut self, value: u64)
        ensures
            final(self).0 == with_bits64(old(self).0, 63, 32, value),
    {
        self.0 = set_bits64(self.0, 63, 32, value);
    }

}

impl X2APIC_ICR {
    /// The write of an interrupt command to the x2APIC ICR: the register
    /// value holds each field at its place and zero elsewhere.
    #[allow(non_snake_case)]
    pub fn ICR(
        vector: u8,
        delivery_mode: DeliveryMode,
        destination_mode: DestinationMode,
        level: Level,
        trigger_mode: TriggerMode,
        destination_shorthand: DestinationShorthand,
        destination: u32,
    ) -> (w: MsrWrite)
        ensures
            w.msr == X2APIC_ICR_MSR,
            w.value == icr_value(
                vector as u64,
                delivery_mode.value(),
                destination_mode.value(),
                level.value(),
                trigger_mode.value(),
                destination_shorthand.value(),
                destination as u64,
            ),
    {
        let v = vector as u64;
        let dm = delivery_mode.bits();
        let dsm = destination_mode.bits();
        let lv = level.bits();
        let tm = trigger_mode.bits();
        let sh = destination_shorthand.bits();
        let d = destination as u64;
        let mut icr = X2APIC_ICR(0);
        let ghost w0 = icr.0;
        icr.set_vector(v);
        let ghost w1 = icr.0;
        icr.set_delivery_mode(dm);
        let ghost w2 = icr.0;
        icr.set_destination_mode(dsm);
        let ghost w3 = icr.0;
        icr.set_level(lv);
        let ghost w4 = icr.0;
        icr.set_trigger_mode(tm);
        let ghost w5 = icr.0;
        icr.set_destination_shorthand(sh);
        let ghost w6 = icr.0;
        icr.set_destination(d);
        let ghost w7 = icr.0;
        assert(w7 == v | (dm << 8u64) | (dsm << 11u64) | (lv << 14u64) | (tm << 15u64) | (sh
            << 18u64) | (d << 32u64)) by (bit_vector)
            requires
                w0 == 0,
                w1 == with_bits64(w0, 7, 0, v),
                w2 == with_bits64(w1, 10, 8, dm),
                w3 == with_bits64(w2, 11, 11, dsm),
                w4 == with_bits64(w3, 14, 14, lv),
                w5 == with_bits64(w4, 15, 15, tm),
                w6 == with_bits64(w5, 19, 18, sh),
                w7 == with_bits64(w6, 63, 32, d),
                v < 0x100,
                dm < 8,
                dsm < 2,
                lv < 2,
                tm < 2,
                sh < 4,
                d < 0x1_0000_0000,
        ;
        MsrWrite { msr: X2APIC_ICR_MSR, value: icr.0 }
    }
}

/// Whether the local APIC and its x2APIC mode are enabled, as read from
/// `IA32_APIC_BASE`.
#[derive(Clone, Copy, Debug, PartialEq, Eq)]
pub struct ApicStatus {
    pub apic_enabled: bool,
    pub x2apic_enabled: bool,
}

/// The write that sends a non-maskable interrupt to this processor: an NMI
/// with physical destination mode, level asserted, edge triggered, to
/// "self"; vector and destination stay zero.
pub fn self_nmi() -> (w: MsrWrite)
    ensures
        w.msr == X2APIC_ICR_MSR,
        w.value == icr_value(
            0,
            DeliveryMode::NMI.value(),
            DestinationMode::Physical.value(),
            Level::Assert.value(),
            TriggerMode::Edge.value(),
            DestinationShorthand::Myself.value(),
            0,
        ),
{
    let mut icr = X2APIC_ICR(0);
    let ghost w0 = icr.0;
    icr.set_delivery_mode(DeliveryMode::NMI.bits());
    let ghost w1 = icr.0;
    icr.set_destination_mode(DestinationMode::Physical.bits());
    let ghost w2 = icr.0;
    icr.set_level(Level::Assert.bits());
    let ghost w3 = icr.0;
    icr.set_trigger_mode(TriggerMode::Edge.bits());
    let ghost w4 = icr.0;
    icr.set_destination_shorthand(DestinationShorthand::Myself.bits());
    let ghost w5 = icr.0;
    assert(w5 == 0 | (4u64 << 8u64) | (0u64 << 11u64) | (1u64 << 14u64) | (0u64 << 15u64) | (1u64
        << 18u64) | (0u64 << 32u64)) by (bit_vector)
        requires
            w0 == 0,
            w1 == with_bits64(w0, 10, 8, 4),
            w2 == with_bits64(w1, 11, 11, 0),
            w3 == with_bits64(w2, 14, 14, 1),
            w4 == with_bits64(w3, 15, 15, 0),
            w5 == with_bits64(w4, 19, 18, 1),
    ;
    MsrWrite { msr: X2APIC_ICR_MSR, value: icr.0 }
}

/// The state of the APIC read from an `IA32_APIC_BASE` value: enabled when
/// bit 11 is set, in x2APIC mode when bit 10 is set.
pub fn apic_status(value: u64) -> (s: ApicStatus)
    ensures
        s.apic_enabled == (value & IA32_APIC_BASE_EN != 0),
        s.x2apic_enabled == (value & IA32_APIC_BASE_EXTD != 0),
{
    ApicStatus {
        apic_enabled: value & IA32_APIC_BASE_EN != 0,
        x2apic_enabled: value & IA32_APIC_BASE_EXTD != 0,
    }
}

/// The `IA32_APIC_BASE` write that turns on the APIC and x2APIC mode, given
/// the register's current value: both enable bits set, every other bit kept.
pub fn enable_x2apic(current: u64) -> (w: MsrWrite)
    ensures
        w.msr == IA32_APIC_BASE_MSR,
        w.value == current | (IA32_APIC_BASE_EN | IA32_APIC_BASE_EXTD),
{
    MsrWrite { msr: IA32_APIC_BASE_MSR, value: current | (IA32_APIC_BASE_EN | IA32_APIC_BASE_EXTD) }
}

/// The write that sends the interrupt `vector` to this processor through the
/// x2APIC self-IPI register.
pub fn self_ipi(vector: u8) -> (w: MsrWrite)
    ensures
        w.msr == SELF_IPI_MSR,
        w.value == vector as u64,
{
    MsrWrite { msr: SELF_IPI_MSR, value: vector as u64 }
}

/// Each field of an encoded interrupt command reads back, from its bit
/// range, as the value it was given.
pub proof fn lemma_icr_fields_read_back(
    vector: u8,
    delivery_mode: DeliveryMode,
    destination_mode: DestinationMode,
    level: Level,
    trigger_mode: TriggerMode,
    destination_shorthand: DestinationShorthand,
    destination: u32,
)
    ensures
        ({
            let icr = icr_value(
                vector as u64,
                delivery_mode.value(),
                destination_mode.value(),
                level.value(),
                trigger_mode.value(),
                destination_shorthand.value(),
                destination as u64,
            );
            &&& bits_of64(icr, 7, 0) == vector as u64
            &&& bits_of64(icr, 10, 8) == delivery_mode.value()
            &&& bits_of64(icr, 11, 11) == destination_mode.value()
            &&& bits_of64(icr, 14, 14) == level.value()
            &&& bits_of64(icr, 15, 15) == trigger_mode.value()
            &&& bits_of64(icr, 19, 18) == destination_shorthand.value()
            &&& bits_of64(icr, 63, 32) == destination as u64
            &&& icr & 0x0000_0000_FFF3_3000u64 == 0
        }),
{
    let v = vector as u64;
    let dm = delivery_mode.value();
    let dsm = destination_mode.value();
    let lv = level.value();
    let tm = trigger_mode.value();
    let sh = destination_shorthand.value();
    let d = destination as u64;
    let icr = icr_value(v, dm, dsm, lv, tm, sh, d);
    assert({
        &&& bits_of64(icr, 7, 0) == v
        &&& bits_of64(icr, 10, 8) == dm
        &&& bits_of64(icr, 11, 11) == dsm
        &&& bits_of64(icr, 14, 14) == lv
        &&& bits_of64(icr, 15, 15) == tm
        &&& bits_of64(icr, 19, 18) == sh
        &&& bits_of64(icr, 63, 32) == d
        &&& icr & 0x0000_0000_FFF3_3000u64 == 0
    }) by (bit_vector)
        requires
            icr == v | (dm << 8u64) | (dsm << 11u64) | (lv << 14u64) | (tm << 15u64) | (sh
                << 18u64) | (d << 32u64),
            v < 0x100,
            dm < 8,
            dsm < 2,
            lv < 2,
            tm < 2,
            sh < 4,
            d < 0x1_0000_0000,
    ;
}

/// After `enable_x2apic`, the register reads as APIC enabled and x2APIC
/// enabled, enabling again changes nothing, and the other bits (such as the
/// APIC base address and the bootstrap-processor flag) are unchanged.
pub proof fn lemma_enable_x2apic_enables(current: u64)
    ensures
        ({
            let v = current | (IA32_APIC_BASE_EN | IA32_APIC_BASE_EXTD);
            &&& v & IA32_APIC_BASE_EN != 0
            &&& v & IA32_APIC_BASE_EXTD != 0
            &&& v | (IA32_APIC_BASE_EN | IA32_APIC_BASE_EXTD) == v
            &&& v & !(IA32_APIC_BASE_EN | IA32_APIC_BASE_EXTD) == current & !(IA32_APIC_BASE_EN
                | IA32_APIC_BASE_EXTD)
        }),
{
    let v = current | (IA32_APIC_BASE_EN | IA32_APIC_BASE_EXTD);
    assert({
        &&& v & (1u64 << 11u64) != 0
        &&& v & (1u64 << 10u64) != 0
        &&& v | ((1u64 << 11u64) | (1u64 << 10u64)) == v
        &&& v & !((1u64 << 11u64) | (1u64 << 10u64)) == current & !((1u64 << 11u64) | (1u64
            << 10u64))
    }) by (bit_vector)
        requires
            v == current | ((1u64 << 11u64) | (1u64 << 10u64)),
    ;
}

/// The ICR field encodings of the x2APIC: delivery modes fixed 0, lowest
/// priority 1, SMI 2, NMI 4, INIT 5, start-up 6; destination modes physical
/// 0, logical 1; level de-assert 0, assert 1; trigger modes edge 0, level 1;
/// destination shorthands none 0, self 1, all including self 2, all
/// excluding self 3.
pub proof fn lemma_field_encodings()
    ensures
        DeliveryMode::Fixed.value() == 0,
        DeliveryMode::LowestPriority.value() == 1,
        DeliveryMode::SMI.value() == 2,
        DeliveryMode::NMI.value() == 4,
        DeliveryMode::INIT.value() == 5,
        DeliveryMode::StartUp.value() == 6,
        DestinationMode::Physical.value() == 0,
        DestinationMode::Logical.value() == 1,
        Level::DeAssert.value() == 0,
        Level::Assert.value() == 1,
        TriggerMode::Edge.value() == 0,
        TriggerMode::Level.value() == 1,
        DestinationShorthand::NoShorthand.value() == 0,
        DestinationShorthand::Myself.value() == 1,
        DestinationShorthand::AllIncludingSelf.value() == 2,
        DestinationShorthand::AllExcludingSelf.value() == 3,
{
}

/// Distinct choices of a field encode differently, so the command register
/// tells them apart.
pub proof fn lemma_field_encodings_distinct(
    d1: DeliveryMode,
    d2: DeliveryMode,
    s1: DestinationShorthand,
    s2: DestinationShorthand,
    m1: DestinationMode,
    m2: DestinationMode,
    l1: Level,
    l2: Level,
    t1: TriggerMode,
    t2: TriggerMode,
)
    ensures
        d1.value() == d2.value() ==> d1 == d2,
        s1.value() == s2.value() ==> s1 == s2,
        m1.value() == m2.value() ==> m1 == m2,
        l1.value() == l2.value() ==> l1 == l2,
        t1.value() == t2.value() ==> t1 == t2,
{
}

} // verus!
