//! Radio front-end registers, shared by the sub-GHz and the 2.4 GHz transceiver.

use vstd::prelude::*;
use vstd::std_specs::convert::FromSpecImpl;
use crate::bits::{
    extract, extract_u8, extract_u16, insert, insert_u8, insert_u16, lemma_extract_bound,
    lemma_low_mask_values, signed8, to_signed8,
};
use crate::registers::fields::{EnergyDetectionMode, TransceiverCmd, TransceiverState};

verus! {

/// RFn_IRQS - Radio IRQ Status (Read to Clear)
///
/// Interrupt status register. Reading this register clears all status bits.
#[derive(Debug, Clone, Copy, PartialEq, Eq)]
pub struct RfnIrqs(pub u8);

impl View for RfnIrqs {
    type V = u8;

    open spec fn view(&self) -> u8 {
        self.0
    }
}

impl RfnIrqs {
    /// The register with every field at its reset value.
    pub fn new() -> (reg: Self)
        ensures
            reg@ == 0,
    {
        Self(0)
    }

    /// The register that holds `bits`.
    pub fn from_bits(bits: u8) -> (reg: Self)
        ensures
            reg@ == bits,
    {
        Self(bits)
    }

    /// The bits that the register holds.
    pub fn into_bits(self) -> (bits: u8)
        ensures
            bits == self@,
    {
        self.0
    }

    /// Wake-up / Reset Interrupt
    /// Set to 1 when wake-up from SLEEP/DEEP_SLEEP or reset procedure is completed.
    ///
    /// Bits: 0..1
    pub fn wakeup(&self) -> (value: bool)
        ensures
            value == (extract(self@ as u64, 0, 1) != 0),
    {
        extract_u8(self.0, 0, 1) != 0
    }

    /// Transceiver Ready Interrupt
    /// Set to 1 when TXPREP state is reached or PLL settles after frequency change.
    ///
    /// Bits: 1..2
    pub fn trxrdy(&self) -> (value: bool)
        ensures
            value == (extract(self@ as u64, 1, 1) != 0),
    {
        extract_u8(self.0, 1, 1) != 0
    }

    /// Energy Detection Completion Interrupt
    /// Set to 1 when energy measurement is completed.
    ///
    /// Bits: 2..3
    pub fn edc(&self) -> (value: bool)
        ensures
            value == (extract(self@ as u64, 2, 1) != 0),
    {
        extract_u8(self.0, 2, 1) != 0
    }

    /// Battery Low Interrupt
    /// Set to 1 when battery monitor detects voltage below threshold.
    ///
    /// Bits: 3..4
    pub fn batlow(&self) -> (value: bool)
        ensures
            value == (extract(self@ as u64, 3, 1) != 0),
    {
        extract_u8(self.0, 3, 1) != 0
    }

    /// Transceiver Error Interrupt
    /// Set to 1 when PLL lock error occurs.
    ///
    /// Bits: 4..5
    pub fn trxerr(&self) -> (value: bool)
        ensures
            value == (extract(self@ as u64, 4, 1) != 0),
    {
        extract_u8(self.0, 4, 1) != 0
    }

    /// I/Q IF Synchronization Failure Interrupt
    /// Set to 1 when I/Q data interface synchronization fails.
    ///
    /// Bits: 5..6
    pub fn iqifsf(&self) -> (value: bool)
        ensures
            value == (extract(self@ as u64, 5, 1) != 0),
    {
        extract_u8(self.0, 5, 1) != 0
    }
}

impl Default for RfnIrqs {
    fn default() -> (reg: Self)
        ensures
            reg@ == 0,
    {
        Self::new()
    }
}

impl From<u8> for RfnIrqs {
    fn from(v: u8) -> (reg: Self) {
        Self(v)
    }
}

impl FromSpecImpl<u8> for RfnIrqs {
    open spec fn obeys_from_spec() -> bool {
        true
    }

    open spec fn from_spec(v: u8) -> Self {
        RfnIrqs(v)
    }
}

impl From<RfnIrqs> for u8 {
    fn from(v: RfnIrqs) -> (bits: u8) {
        v.0
    }
}

impl FromSpecImpl<RfnIrqs> for u8 {
    open spec fn obeys_from_spec() -> bool {
        true
    }

    open spec fn from_spec(v: RfnIrqs) -> u8 {
        v.0
    }
}

/// RFn_IRQM - Radio IRQ Mask
///
/// IRQ mask register. A bit set to 1 enables the corresponding IRQ.
#[derive(Debug, Clone, Copy, PartialEq, Eq)]
pub struct RfnIrqm(pub u8);

impl View for RfnIrqm {
    type V = u8;

    open spec fn view(&self) -> u8 {
        self.0
    }
}

impl RfnIrqm {
    /// The register with every field at its reset value.
    pub fn new() -> (reg: Self)
        ensures
            reg@ == 0,
    {
        Self(0)
    }

    /// The register that holds `bits`.
    pub fn from_bits(bits: u8) -> (reg: Self)
        ensures
            reg@ == bits,
    {
        Self(bits)
    }

    /// The bits that the register holds.
    pub fn into_bits(self) -> (bits: u8)
        ensures
            bits == self@,
    {
        self.0
    }

    /// Wake-up / Reset Interrupt Mask
    ///
    /// Bits: 0..1
    pub fn wakeup(&self) -> (value: bool)
        ensures
            value == (extract(self@ as u64, 0, 1) != 0),
    {
        extract_u8(self.0, 0, 1) != 0
    }

    /// Returns the register with `wakeup` set to `value`.
    pub fn with_wakeup(self, value: bool) -> (reg: Self)
        ensures
            reg@ == insert(self@ as u64, 0, 1, value as u64),
            (extract(reg@ as u64, 0, 1) != 0) == value,
    {
        proof {
            lemma_low_mask_values();
        }
        Self(insert_u8(self.0, 0, 1, value as u8))
    }

    /// Returns the register with `wakeup` set to `value`. Every value fits the
    /// field, so the result is always `Ok`.
    pub fn with_wakeup_checked(self, value: bool) -> (reg: Result<Self, ()>)
        ensures
            reg is Ok,
            reg.unwrap()@ == insert(self@ as u64, 0, 1, value as u64),
    {
        Ok(self.with_wakeup(value))
    }

    /// Sets `wakeup` to `value`.
    pub fn set_wakeup(&mut self, value: bool)
        ensures
            final(self)@ == insert(old(self)@ as u64, 0, 1, value as u64),
            (extract(final(self)@ as u64, 0, 1) != 0) == value,
    {
        proof {
            lemma_low_mask_values();
        }
        self.0 = insert_u8(self.0, 0, 1, value as u8);
    }

    /// Sets `wakeup` to `value`. Every value fits the field, so the result is
    /// always `Ok`.
    pub fn set_wakeup_checked(&mut self, value: bool) -> (done: Result<(), ()>)
        ensures
            done is Ok,
            final(self)@ == insert(old(self)@ as u64, 0, 1, value as u64),
    {
        self.set_wakeup(value);
        Ok(())
    }

    /// Transceiver Ready Interrupt Mask
    ///
    /// Bits: 1..2
    pub fn trxrdy(&self) -> (value: bool)
        ensures
            value == (extract(self@ as u64, 1, 1) != 0),
    {
        extract_u8(self.0, 1, 1) != 0
    }

    /// Returns the register with `trxrdy` set to `value`.
    pub fn with_trxrdy(self, value: bool) -> (reg: Self)
        ensures
            reg@ == insert(self@ as u64, 1, 1, value as u64),
            (extract(reg@ as u64, 1, 1) != 0) == value,
    {
        proof {
            lemma_low_mask_values();
        }
        Self(insert_u8(self.0, 1, 1, value as u8))
    }

    /// Returns the register with `trxrdy` set to `value`. Every value fits the
    /// field, so the result is always `Ok`.
    pub fn with_trxrdy_checked(self, value: bool) -> (reg: Result<Self, ()>)
        ensures
            reg is Ok,
            reg.unwrap()@ == insert(self@ as u64, 1, 1, value as u64),
    {
        Ok(self.with_trxrdy(value))
    }

    /// Sets `trxrdy` to `value`.
    pub fn set_trxrdy(&mut self, value: bool)
        ensures
            final(self)@ == insert(old(self)@ as u64, 1, 1, value as u64),
            (extract(final(self)@ as u64, 1, 1) != 0) == value,
    {
        proof {
            lemma_low_mask_values();
        }
        self.0 = insert_u8(self.0, 1, 1, value as u8);
    }

    /// Sets `trxrdy` to `value`. Every value fits the field, so the result is
    /// always `Ok`.
    pub fn set_trxrdy_checked(&mut self, value: bool) -> (done: Result<(), ()>)
        ensures
            done is Ok,
            final(self)@ == insert(old(self)@ as u64, 1, 1, value as u64),
    {
        self.set_trxrdy(value);
        Ok(())
    }

    /// Energy Detection Completion Interrupt Mask
    ///
    /// Bits: 2..3
    pub fn edc(&self) -> (value: bool)
        ensures
            value == (extract(self@ as u64, 2, 1) != 0),
    {
        extract_u8(self.0, 2, 1) != 0
    }

    /// Returns the register with `edc` set to `value`.
    pub fn with_edc(self, value: bool) -> (reg: Self)
        ensures
            reg@ == insert(self@ as u64, 2, 1, value as u64),
            (extract(reg@ as u64, 2, 1) != 0) == value,
    {
        proof {
            lemma_low_mask_values();
        }
        Self(insert_u8(self.0, 2, 1, value as u8))
    }

    /// Returns the register with `edc` set to `value`. Every value fits the
    /// field, so the result is always `Ok`.
    pub fn with_edc_checked(self, value: bool) -> (reg: Result<Self, ()>)
        ensures
            reg is Ok,
            reg.unwrap()@ == insert(self@ as u64, 2, 1, value as u64),
    {
        Ok(self.with_edc(value))
    }

    /// Sets `edc` to `value`.
    pub fn set_edc(&mut self, value: bool)
        ensures
            final(self)@ == insert(old(self)@ as u64, 2, 1, value as u64),
            (extract(final(self)@ as u64, 2, 1) != 0) == value,
    {
        proof {
            lemma_low_mask_values();
        }
        self.0 = insert_u8(self.0, 2, 1, value as u8);
    }

    /// Sets `edc` to `value`. Every value fits the field, so the result is
    /// always `Ok`.
    pub fn set_edc_checked(&mut self, value: bool) -> (done: Result<(), ()>)
        ensures
            done is Ok,
            final(self)@ == insert(old(self)@ as u64, 2, 1, value as u64),
    {
        self.set_edc(value);
        Ok(())
    }

    /// Battery Low Interrupt Mask
    ///
    /// Bits: 3..4
    pub fn batlow(&self) -> (value: bool)
        ensures
            value == (extract(self@ as u64, 3, 1) != 0),
    {
        extract_u8(self.0, 3, 1) != 0
    }

    /// Returns the register with `batlow` set to `value`.
    pub fn with_batlow(self, value: bool) -> (reg: Self)
        ensures
            reg@ == insert(self@ as u64, 3, 1, value as u64),
            (extract(reg@ as u64, 3, 1) != 0) == value,
    {
        proof {
            lemma_low_mask_values();
        }
        Self(insert_u8(self.0, 3, 1, value as u8))
    }

    /// Returns the register with `batlow` set to `value`. Every value fits the
    /// field, so the result is always `Ok`.
    pub fn with_batlow_checked(self, value: bool) -> (reg: Result<Self, ()>)
        ensures
            reg is Ok,
            reg.unwrap()@ == insert(self@ as u64, 3, 1, value as u64),
    {
        Ok(self.with_batlow(value))
    }

    /// Sets `batlow` to `value`.
    pub fn set_batlow(&mut self, value: bool)
        ensures
            final(self)@ == insert(old(self)@ as u64, 3, 1, value as u64),
            (extract(final(self)@ as u64, 3, 1) != 0) == value,
    {
        proof {
            lemma_low_mask_values();
        }
        self.0 = insert_u8(self.0, 3, 1, value as u8);
    }

    /// Sets `batlow` to `value`. Every value fits the field, so the result is
    /// always `Ok`.
    pub fn set_batlow_checked(&mut self, value: bool) -> (done: Result<(), ()>)
        ensures
            done is Ok,
            final(self)@ == insert(old(self)@ as u64, 3, 1, value as u64),
    {
        self.set_batlow(value);
        Ok(())
    }

    /// Transceiver Error Interrupt Mask
    ///
    /// Bits: 4..5
    pub fn trxerr(&self) -> (value: bool)
        ensures
            value == (extract(self@ as u64, 4, 1) != 0),
    {
        extract_u8(self.0, 4, 1) != 0
    }

    /// Returns the register with `trxerr` set to `value`.
    pub fn with_trxerr(self, value: bool) -> (reg: Self)
        ensures
            reg@ == insert(self@ as u64, 4, 1, value as u64),
            (extract(reg@ as u64, 4, 1) != 0) == value,
    {
        proof {
            lemma_low_mask_values();
        }
        Self(insert_u8(self.0, 4, 1, value as u8))
    }

    /// Returns the register with `trxerr` set to `value`. Every value fits the
    /// field, so the result is always `Ok`.
    pub fn with_trxerr_checked(self, value: bool) -> (reg: Result<Self, ()>)
        ensures
            reg is Ok,
            reg.unwrap()@ == insert(self@ as u64, 4, 1, value as u64),
    {
        Ok(self.with_trxerr(value))
    }

    /// Sets `trxerr` to `value`.
    pub fn set_trxerr(&mut self, value: bool)
        ensures
            final(self)@ == insert(old(self)@ as u64, 4, 1, value as u64),
            (extract(final(self)@ as u64, 4, 1) != 0) == value,
    {
        proof {
            lemma_low_mask_values();
        }
        self.0 = insert_u8(self.0, 4, 1, value as u8);
    }

    /// Sets `trxerr` to `value`. Every value fits the field, so the result is
    /// always `Ok`.
    pub fn set_trxerr_checked(&mut self, value: bool) -> (done: Result<(), ()>)
        ensures
            done is Ok,
            final(self)@ == insert(old(self)@ as u64, 4, 1, value as u64),
    {
        self.set_trxerr(value);
        Ok(())
    }

    /// I/Q IF Synchronization Failure Interrupt Mask
    ///
    /// Bits: 5..6
    pub fn iqifsf(&self) -> (value: bool)
        ensures
            value == (extract(self@ as u64, 5, 1) != 0),
    {
        extract_u8(self.0, 5, 1) != 0
    }

    /// Returns the register with `iqifsf` set to `value`.
    pub fn with_iqifsf(self, value: bool) -> (reg: Self)
        ensures
            reg@ == insert(self@ as u64, 5, 1, value as u64),
            (extract(reg@ as u64, 5, 1) != 0) == value,
    {
        proof {
            lemma_low_mask_values();
        }
        Self(insert_u8(self.0, 5, 1, value as u8))
    }

    /// Returns the register with `iqifsf` set to `value`. Every value fits the
    /// field, so the result is always `Ok`.
    pub fn with_iqifsf_checked(self, value: bool) -> (reg: Result<Self, ()>)
        ensures
            reg is Ok,
            reg.unwrap()@ == insert(self@ as u64, 5, 1, value as u64),
    {
        Ok(self.with_iqifsf(value))
    }

    /// Sets `iqifsf` to `value`.
    pub fn set_iqifsf(&mut self, value: bool)
        ensures
            final(self)@ == insert(old(self)@ as u64, 5, 1, value as u64),
            (extract(final(self)@ as u64, 5, 1) != 0) == value,
    {
        proof {
            lemma_low_mask_values();
        }
        self.0 = insert_u8(self.0, 5, 1, value as u8);
    }

    /// Sets `iqifsf` to `value`. Every value fits the field, so the result is
    /// always `Ok`.
    pub fn set_iqifsf_checked(&mut self, value: bool) -> (done: Result<(), ()>)
        ensures
            done is Ok,
            final(self)@ == insert(old(self)@ as u64, 5, 1, value as u64),
    {
        self.set_iqifsf(value);
        Ok(())
    }
}

impl Default for RfnIrqm {
    fn default() -> (reg: Self)
        ensures
            reg@ == 0,
    {
        Self::new()
    }
}

impl From<u8> for RfnIrqm {
    fn from(v: u8) -> (reg: Self) {
        Self(v)
    }
}

impl FromSpecImpl<u8> for RfnIrqm {
    open spec fn obeys_from_spec() -> bool {
        true
    }

    open spec fn from_spec(v: u8) -> Self {
        RfnIrqm(v)
    }
}

impl From<RfnIrqm> for u8 {
    fn from(v: RfnIrqm) -> (bits: u8) {
        v.0
    }
}

impl FromSpecImpl<RfnIrqm> for u8 {
    open spec fn obeys_from_spec() -> bool {
        true
    }

    open spec fn from_spec(v: RfnIrqm) -> u8 {
        v.0
    }
}

/// RFn_AUXS - Transceiver Auxiliary Settings
///
/// Controls auxiliary transceiver settings including PA voltage and external LNA.
#[derive(Debug, Clone, Copy, PartialEq, Eq)]
pub struct RfnAuxs(pub u8);

impl View for RfnAuxs {
    type V = u8;

    open spec fn view(&self) -> u8 {
        self.0
    }
}

impl RfnAuxs {
    /// The register with every field at its reset value.
    pub fn new() -> (reg: Self)
        ensures
            reg@ == 0,
    {
        Self(0)
    }

    /// The register that holds `bits`.
    pub fn from_bits(bits: u8) -> (reg: Self)
        ensures
            reg@ == bits,
    {
        Self(bits)
    }

    /// The bits that the register holds.
    pub fn into_bits(self) -> (bits: u8)
        ensures
            bits == self@,
    {
        self.0
    }

    /// Power Amplifier Voltage Control
    /// - 0: 2.0V
    /// - 1: 2.2V
    /// - 2: 2.4V (default)
    ///
    /// Bits: 0..2
    pub fn pavc(&self) -> (value: u8)
        ensures
            value == extract(self@ as u64, 0, 2),
    {
        extract_u8(self.0, 0, 2)
    }

    /// Returns the register with `pavc` set to `value`.
    pub fn with_pavc(self, value: u8) -> (reg: Self)
        requires
            value <= 0x3,
        ensures
            reg@ == insert(self@ as u64, 0, 2, value as u64),
            extract(reg@ as u64, 0, 2) == value,
    {
        proof {
            lemma_low_mask_values();
        }
        Self(insert_u8(self.0, 0, 2, value))
    }

    /// Returns the register with `pavc` set to `value`, or `Err` where `value`
    /// exceeds `0x3`.
    pub fn with_pavc_checked(self, value: u8) -> (reg: Result<Self, ()>)
        ensures
            value <= 0x3 ==> reg is Ok && reg.unwrap()@ == insert(self@ as u64, 0, 2, value as u64),
            value > 0x3 ==> reg is Err,
    {
        if value > 0x3 {
            return Err(());
        }
        Ok(self.with_pavc(value))
    }

    /// Sets `pavc` to `value`.
    pub fn set_pavc(&mut self, value: u8)
        requires
            value <= 0x3,
        ensures
            final(self)@ == insert(old(self)@ as u64, 0, 2, value as u64),
            extract(final(self)@ as u64, 0, 2) == value,
    {
        proof {
            lemma_low_mask_values();
        }
        self.0 = insert_u8(self.0, 0, 2, value);
    }

    /// Sets `pavc` to `value`, or returns `Err` and leaves the register as it
    /// is where `value` exceeds `0x3`.
    pub fn set_pavc_checked(&mut self, value: u8) -> (done: Result<(), ()>)
        ensures
            value <= 0x3 ==> done is Ok && final(self)@ == insert(
                old(self)@ as u64,
                0,
                2,
                value as u64,
            ),
            value > 0x3 ==> done is Err && final(self)@ == old(self)@,
    {
        if value > 0x3 {
            return Err(());
        }
        self.set_pavc(value);
        Ok(())
    }

    /// Analog Voltage External
    /// - 0: Internal analog supply from regulator
    /// - 1: External analog supply
    ///
    /// Bits: 2..3
    pub fn ave(&self) -> (value: bool)
        ensures
            value == (extract(self@ as u64, 2, 1) != 0),
    {
        extract_u8(self.0, 2, 1) != 0
    }

    /// Returns the register with `ave` set to `value`.
    pub fn with_ave(self, value: bool) -> (reg: Self)
        ensures
            reg@ == insert(self@ as u64, 2, 1, value as u64),
            (extract(reg@ as u64, 2, 1) != 0) == value,
    {
        proof {
            lemma_low_mask_values();
        }
        Self(insert_u8(self.0, 2, 1, value as u8))
    }

    /// Returns the register with `ave` set to `value`. Every value fits the
    /// field, so the result is always `Ok`.
    pub fn with_ave_checked(self, value: bool) -> (reg: Result<Self, ()>)
        ensures
            reg is Ok,
            reg.unwrap()@ == insert(self@ as u64, 2, 1, value as u64),
    {
        Ok(self.with_ave(value))
    }

    /// Sets `ave` to `value`.
    pub fn set_ave(&mut self, value: bool)
        ensures
            final(self)@ == insert(old(self)@ as u64, 2, 1, value as u64),
            (extract(final(self)@ as u64, 2, 1) != 0) == value,
    {
        proof {
            lemma_low_mask_values();
        }
        self.0 = insert_u8(self.0, 2, 1, value as u8);
    }

    /// Sets `ave` to `value`. Every value fits the field, so the result is
    /// always `Ok`.
    pub fn set_ave_checked(&mut self, value: bool) -> (done: Result<(), ()>)
        ensures
            done is Ok,
            final(self)@ == insert(old(self)@ as u64, 2, 1, value as u64),
    {
        self.set_ave(value);
        Ok(())
    }

    /// Analog Voltage Enable in TRXOFF
    /// - 0: AVDD powered off in TRXOFF (default)
    /// - 1: AVDD remains on in TRXOFF
    ///
    /// Bits: 3..4
    pub fn aven(&self) -> (value: bool)
        ensures
            value == (extract(self@ as u64, 3, 1) != 0),
    {
        extract_u8(self.0, 3, 1) != 0
    }

    /// Returns the register with `aven` set to `value`.
    pub fn with_aven(self, value: bool) -> (reg: Self)
        ensures
            reg@ == insert(self@ as u64, 3, 1, value as u64),
            (extract(reg@ as u64, 3, 1) != 0) == value,
    {
        proof {
            lemma_low_mask_values();
        }
        Self(insert_u8(self.0, 3, 1, value as u8))
    }

    /// Returns the register with `aven` set to `value`. Every value fits the
    /// field, so the result is always `Ok`.
    pub fn with_aven_checked(self, value: bool) -> (reg: Result<Self, ()>)
        ensures
            reg is Ok,
            reg.unwrap()@ == insert(self@ as u64, 3, 1, value as u64),
    {
        Ok(self.with_aven(value))
    }

    /// Sets `aven` to `value`.
    pub fn set_aven(&mut self, value: bool)
        ensures
            final(self)@ == insert(old(self)@ as u64, 3, 1, value as u64),
            (extract(final(self)@ as u64, 3, 1) != 0) == value,
    {
        proof {
            lemma_low_mask_values();
        }
        self.0 = insert_u8(self.0, 3, 1, value as u8);
    }

    /// Sets `aven` to `value`. Every value fits the field, so the result is
    /// always `Ok`.
    pub fn set_aven_checked(&mut self, value: bool) -> (done: Result<(), ()>)
        ensures
            done is Ok,
            final(self)@ == insert(old(self)@ as u64, 3, 1, value as u64),
    {
        self.set_aven(value);
        Ok(())
    }

    /// AGC Input Freeze
    /// - 0: Use current AGC input
    /// - 1: Freeze AGC input
    ///
    /// Bits: 4..5
    pub fn agcmap(&self) -> (value: bool)
        ensures
            value == (extract(self@ as u64, 4, 1) != 0),
    {
        extract_u8(self.0, 4, 1) != 0
    }

    /// Returns the register with `agcmap` set to `value`.
    pub fn with_agcmap(self, value: bool) -> (reg: Self)
        ensures
            reg@ == insert(self@ as u64, 4, 1, value as u64),
            (extract(reg@ as u64, 4, 1) != 0) == value,
    {
        proof {
            lemma_low_mask_values();
        }
        Self(insert_u8(self.0, 4, 1, value as u8))
    }

    /// Returns the register with `agcmap` set to `value`. Every value fits the
    /// field, so the result is always `Ok`.
    pub fn with_agcmap_checked(self, value: bool) -> (reg: Result<Self, ()>)
        ensures
            reg is Ok,
            reg.unwrap()@ == insert(self@ as u64, 4, 1, value as u64),
    {
        Ok(self.with_agcmap(value))
    }

    /// Sets `agcmap` to `value`.
    pub fn set_agcmap(&mut self, value: bool)
        ensures
            final(self)@ == insert(old(self)@ as u64, 4, 1, value as u64),
            (extract(final(self)@ as u64, 4, 1) != 0) == value,
    {
        proof {
            lemma_low_mask_values();
        }
        self.0 = insert_u8(self.0, 4, 1, value as u8);
    }

    /// Sets `agcmap` to `value`. Every value fits the field, so the result is
    /// always `Ok`.
    pub fn set_agcmap_checked(&mut self, value: bool) -> (done: Result<(), ()>)
        ensures
            done is Ok,
            final(self)@ == insert(old(self)@ as u64, 4, 1, value as u64),
    {
        self.set_agcmap(value);
        Ok(())
    }

    /// External LNA Bypass Available
    /// - 0: External LNA cannot be bypassed
    /// - 1: External LNA can be bypassed
    ///
    /// Bits: 5..6
    pub fn extlnabyp(&self) -> (value: bool)
        ensures
            value == (extract(self@ as u64, 5, 1) != 0),
    {
        extract_u8(self.0, 5, 1) != 0
    }

    /// Returns the register with `extlnabyp` set to `value`.
    pub fn with_extlnabyp(self, value: bool) -> (reg: Self)
        ensures
            reg@ == insert(self@ as u64, 5, 1, value as u64),
            (extract(reg@ as u64, 5, 1) != 0) == value,
    {
        proof {
            lemma_low_mask_values();
        }
        Self(insert_u8(self.0, 5, 1, value as u8))
    }

    /// Returns the register with `extlnabyp` set to `value`. Every value fits the
    /// field, so the result is always `Ok`.
    pub fn with_extlnabyp_checked(self, value: bool) -> (reg: Result<Self, ()>)
        ensures
            reg is Ok,
            reg.unwrap()@ == insert(self@ as u64, 5, 1, value as u64),
    {
        Ok(self.with_extlnabyp(value))
    }

    /// Sets `extlnabyp` to `value`.
    pub fn set_extlnabyp(&mut self, value: bool)
        ensures
            final(self)@ == insert(old(self)@ as u64, 5, 1, value as u64),
            (extract(final(self)@ as u64, 5, 1) != 0) == value,
    {
        proof {
            lemma_low_mask_values();
        }
        self.0 = insert_u8(self.0, 5, 1, value as u8);
    }

    /// Sets `extlnabyp` to `value`. Every value fits the field, so the result is
    /// always `Ok`.
    pub fn set_extlnabyp_checked(&mut self, value: bool) -> (done: Result<(), ()>)
        ensures
            done is Ok,
            final(self)@ == insert(old(self)@ as u64, 5, 1, value as u64),
    {
        self.set_extlnabyp(value);
        Ok(())
    }
}

impl Default for RfnAuxs {
    fn default() -> (reg: Self)
        ensures
            reg@ == 0,
    {
        Self::new()
    }
}

impl From<u8> for RfnAuxs {
    fn from(v: u8) -> (reg: Self) {
        Self(v)
    }
}

impl FromSpecImpl<u8> for RfnAuxs {
    open spec fn obeys_from_spec() -> bool {
        true
    }

    open spec fn from_spec(v: u8) -> Self {
        RfnAuxs(v)
    }
}

impl From<RfnAuxs> for u8 {
    fn from(v: RfnAuxs) -> (bits: u8) {
        v.0
    }
}

impl FromSpecImpl<RfnAuxs> for u8 {
    open spec fn obeys_from_spec() -> bool {
        true
    }

    open spec fn from_spec(v: RfnAuxs) -> u8 {
        v.0
    }
}

/// RFn_STATE - Transceiver State (Read Only)
///
/// Indicates the current transceiver state.
#[derive(Debug, Clone, Copy, PartialEq, Eq)]
pub struct RfnState(pub u8);

impl View for RfnState {
    type V = u8;

    open spec fn view(&self) -> u8 {
        self.0
    }
}

impl RfnState {
    /// The register with every field at its reset value.
    pub fn new() -> (reg: Self)
        ensures
            reg@ == 0x2,
    {
        Self(0x2)
    }

    /// The register that holds `bits`.
    pub fn from_bits(bits: u8) -> (reg: Self)
        ensures
            reg@ == bits,
    {
        Self(bits)
    }

    /// The bits that the register holds.
    pub fn into_bits(self) -> (bits: u8)
        ensures
            bits == self@,
    {
        self.0
    }

    /// Transceiver State
    /// - 2: TRXOFF (Transceiver off, SPI active)
    /// - 3: TXPREP (Transmit preparation)
    /// - 4: TX (Transmit)
    /// - 5: RX (Receive)
    /// - 6: TRANSITION (State transition in progress)
    /// - 7: RESET (Transceiver in RESET or SLEEP)
    ///
    /// Bits: 0..3
    pub fn state(&self) -> (value: TransceiverState)
        ensures
            value == TransceiverState::decode(extract(self@ as u64, 0, 3) as u8),
    {
        TransceiverState::from_bits(extract_u8(self.0, 0, 3))
    }
}

impl Default for RfnState {
    fn default() -> (reg: Self)
        ensures
            reg@ == 0x2,
    {
        Self::new()
    }
}

impl From<u8> for RfnState {
    fn from(v: u8) -> (reg: Self) {
        Self(v)
    }
}

impl FromSpecImpl<u8> for RfnState {
    open spec fn obeys_from_spec() -> bool {
        true
    }

    open spec fn from_spec(v: u8) -> Self {
        RfnState(v)
    }
}

impl From<RfnState> for u8 {
    fn from(v: RfnState) -> (bits: u8) {
        v.0
    }
}

impl FromSpecImpl<RfnState> for u8 {
    open spec fn obeys_from_spec() -> bool {
        true
    }

    open spec fn from_spec(v: RfnState) -> u8 {
        v.0
    }
}

/// RFn_CMD - Transceiver Command
///
/// Writing to this register triggers a state transition.
#[derive(Debug, Clone, Copy, PartialEq, Eq)]
pub struct RfnCmd(pub u8);

impl View for RfnCmd {
    type V = u8;

    open spec fn view(&self) -> u8 {
        self.0
    }
}

impl RfnCmd {
    /// The register with every field at its reset value.
    pub fn new() -> (reg: Self)
        ensures
            reg@ == 0,
    {
        Self(0)
    }

    /// The register that holds `bits`.
    pub fn from_bits(bits: u8) -> (reg: Self)
        ensures
            reg@ == bits,
    {
        Self(bits)
    }

    /// The bits that the register holds.
    pub fn into_bits(self) -> (bits: u8)
        ensures
            bits == self@,
    {
        self.0
    }

    /// Transceiver Command
    /// - 0: NOP (No operation)
    /// - 1: SLEEP
    /// - 2: TRXOFF
    /// - 3: TXPREP
    /// - 4: TX
    /// - 5: RX
    /// - 7: RESET (Transceiver reset, ends in TRXOFF state)
    ///
    /// Bits: 0..3
    pub fn cmd(&self) -> (value: TransceiverCmd)
        ensures
            value == TransceiverCmd::decode(extract(self@ as u64, 0, 3) as u8),
    {
        TransceiverCmd::from_bits(extract_u8(self.0, 0, 3))
    }

    /// Returns the register with `cmd` set to `value`.
    pub fn with_cmd(self, value: TransceiverCmd) -> (reg: Self)
        ensures
            reg@ == insert(self@ as u64, 0, 3, value.code() as u64),
            TransceiverCmd::decode(extract(reg@ as u64, 0, 3) as u8) == value,
    {
        proof {
            lemma_low_mask_values();
            value.lemma_decode_code();
        }
        Self(insert_u8(self.0, 0, 3, value.into_bits()))
    }

    /// Returns the register with `cmd` set to `value`. Every value fits the
    /// field, so the result is always `Ok`.
    pub fn with_cmd_checked(self, value: TransceiverCmd) -> (reg: Result<Self, ()>)
        ensures
            reg is Ok,
            reg.unwrap()@ == insert(self@ as u64, 0, 3, value.code() as u64),
    {
        Ok(self.with_cmd(value))
    }

    /// Sets `cmd` to `value`.
    pub fn set_cmd(&mut self, value: TransceiverCmd)
        ensures
            final(self)@ == insert(old(self)@ as u64, 0, 3, value.code() as u64),
            TransceiverCmd::decode(extract(final(self)@ as u64, 0, 3) as u8) == value,
    {
        proof {
            lemma_low_mask_values();
            value.lemma_decode_code();
        }
        self.0 = insert_u8(self.0, 0, 3, value.into_bits());
    }

    /// Sets `cmd` to `value`. Every value fits the field, so the result is
    /// always `Ok`.
    pub fn set_cmd_checked(&mut self, value: TransceiverCmd) -> (done: Result<(), ()>)
        ensures
            done is Ok,
            final(self)@ == insert(old(self)@ as u64, 0, 3, value.code() as u64),
    {
        self.set_cmd(value);
        Ok(())
    }
}

impl Default for RfnCmd {
    fn default() -> (reg: Self)
        ensures
            reg@ == 0,
    {
        Self::new()
    }
}

impl From<u8> for RfnCmd {
    fn from(v: u8) -> (reg: Self) {
        Self(v)
    }
}

impl FromSpecImpl<u8> for RfnCmd {
    open spec fn obeys_from_spec() -> bool {
        true
    }

    open spec fn from_spec(v: u8) -> Self {
        RfnCmd(v)
    }
}

impl From<RfnCmd> for u8 {
    fn from(v: RfnCmd) -> (bits: u8) {
        v.0
    }
}

impl FromSpecImpl<RfnCmd> for u8 {
    open spec fn obeys_from_spec() -> bool {
        true
    }

    open spec fn from_spec(v: RfnCmd) -> u8 {
        v.0
    }
}

/// RFn_CS - Channel Spacing
///
/// Channel spacing with 25kHz resolution. Must write CNM last to apply.
#[derive(Debug, Clone, Copy, PartialEq, Eq)]
pub struct RfnCs(pub u8);

impl View for RfnCs {
    type V = u8;

    open spec fn view(&self) -> u8 {
        self.0
    }
}

impl RfnCs {
    /// The register with every field at its reset value.
    pub fn new() -> (reg: Self)
        ensures
            reg@ == 0,
    {
        Self(0)
    }

    /// The register that holds `bits`.
    pub fn from_bits(bits: u8) -> (reg: Self)
        ensures
            reg@ == bits,
    {
        Self(bits)
    }

    /// The bits that the register holds.
    pub fn into_bits(self) -> (bits: u8)
        ensures
            bits == self@,
    {
        self.0
    }

    /// Channel Spacing (units of 25kHz)
    /// Example: 0x08 = 8 × 25kHz = 200kHz spacing
    ///
    /// Bits: 0..8
    pub fn cs(&self) -> (value: u8)
        ensures
            value == extract(self@ as u64, 0, 8),
    {
        extract_u8(self.0, 0, 8)
    }

    /// Returns the register with `cs` set to `value`.
    pub fn with_cs(self, value: u8) -> (reg: Self)
        ensures
            reg@ == insert(self@ as u64, 0, 8, value as u64),
            extract(reg@ as u64, 0, 8) == value,
    {
        proof {
            lemma_low_mask_values();
        }
        Self(insert_u8(self.0, 0, 8, value))
    }

    /// Returns the register with `cs` set to `value`. Every value fits the
    /// field, so the result is always `Ok`.
    pub fn with_cs_checked(self, value: u8) -> (reg: Result<Self, ()>)
        ensures
            reg is Ok,
            reg.unwrap()@ == insert(self@ as u64, 0, 8, value as u64),
    {
        Ok(self.with_cs(value))
    }

    /// Sets `cs` to `value`.
    pub fn set_cs(&mut self, value: u8)
        ensures
            final(self)@ == insert(old(self)@ as u64, 0, 8, value as u64),
            extract(final(self)@ as u64, 0, 8) == value,
    {
        proof {
            lemma_low_mask_values();
        }
        self.0 = insert_u8(self.0, 0, 8, value);
    }

    /// Sets `cs` to `value`. Every value fits the field, so the result is
    /// always `Ok`.
    pub fn set_cs_checked(&mut self, value: u8) -> (done: Result<(), ()>)
        ensures
            done is Ok,
            final(self)@ == insert(old(self)@ as u64, 0, 8, value as u64),
    {
        self.set_cs(value);
        Ok(())
    }
}

impl Default for RfnCs {
    fn default() -> (reg: Self)
        ensures
            reg@ == 0,
    {
        Self::new()
    }
}

impl From<u8> for RfnCs {
    fn from(v: u8) -> (reg: Self) {
        Self(v)
    }
}

impl FromSpecImpl<u8> for RfnCs {
    open spec fn obeys_from_spec() -> bool {
        true
    }

    open spec fn from_spec(v: u8) -> Self {
        RfnCs(v)
    }
}

impl From<RfnCs> for u8 {
    fn from(v: RfnCs) -> (bits: u8) {
        v.0
    }
}

impl FromSpecImpl<RfnCs> for u8 {
    open spec fn obeys_from_spec() -> bool {
        true
    }

    open spec fn from_spec(v: RfnCs) -> u8 {
        v.0
    }
}

/// RFn_CCF0 - Channel Center Frequency F0
///
/// 16-bit channel center frequency with 25kHz resolution.
#[derive(Debug, Clone, Copy, PartialEq, Eq)]
pub struct RfnCcf0(pub u16);

impl View for RfnCcf0 {
    type V = u16;

    open spec fn view(&self) -> u16 {
        self.0
    }
}

impl RfnCcf0 {
    /// The register with every field at its reset value.
    pub fn new() -> (reg: Self)
        ensures
            reg@ == 0,
    {
        Self(0)
    }

    /// The register that holds `bits`.
    pub fn from_bits(bits: u16) -> (reg: Self)
        ensures
            reg@ == bits,
    {
        Self(bits)
    }

    /// The bits that the register holds.
    pub fn into_bits(self) -> (bits: u16)
        ensures
            bits == self@,
    {
        self.0
    }

    /// Channel Center Frequency F0 (16-bit)
    ///
    /// Bits: 0..16
    pub fn ccf0(&self) -> (value: u16)
        ensures
            value == extract(self@ as u64, 0, 16),
    {
        extract_u16(self.0, 0, 16)
    }

    /// Returns the register with `ccf0` set to `value`.
    pub fn with_ccf0(self, value: u16) -> (reg: Self)
        ensures
            reg@ == insert(self@ as u64, 0, 16, value as u64),
            extract(reg@ as u64, 0, 16) == value,
    {
        proof {
            lemma_low_mask_values();
        }
        Self(insert_u16(self.0, 0, 16, value))
    }

    /// Returns the register with `ccf0` set to `value`. Every value fits the
    /// field, so the result is always `Ok`.
    pub fn with_ccf0_checked(self, value: u16) -> (reg: Result<Self, ()>)
        ensures
            reg is Ok,
            reg.unwrap()@ == insert(self@ as u64, 0, 16, value as u64),
    {
        Ok(self.with_ccf0(value))
    }

    /// Sets `ccf0` to `value`.
    pub fn set_ccf0(&mut self, value: u16)
        ensures
            final(self)@ == insert(old(self)@ as u64, 0, 16, value as u64),
            extract(final(self)@ as u64, 0, 16) == value,
    {
        proof {
            lemma_low_mask_values();
        }
        self.0 = insert_u16(self.0, 0, 16, value);
    }

    /// Sets `ccf0` to `value`. Every value fits the field, so the result is
    /// always `Ok`.
    pub fn set_ccf0_checked(&mut self, value: u16) -> (done: Result<(), ()>)
        ensures
            done is Ok,
            final(self)@ == insert(old(self)@ as u64, 0, 16, value as u64),
    {
        self.set_ccf0(value);
        Ok(())
    }
}

impl Default for RfnCcf0 {
    fn default() -> (reg: Self)
        ensures
            reg@ == 0,
    {
        Self::new()
    }
}

impl From<u16> for RfnCcf0 {
    fn from(v: u16) -> (reg: Self) {
        Self(v)
    }
}

impl FromSpecImpl<u16> for RfnCcf0 {
    open spec fn obeys_from_spec() -> bool {
        true
    }

    open spec fn from_spec(v: u16) -> Self {
        RfnCcf0(v)
    }
}

impl From<RfnCcf0> for u16 {
    fn from(v: RfnCcf0) -> (bits: u16) {
        v.0
    }
}

impl FromSpecImpl<RfnCcf0> for u16 {
    open spec fn obeys_from_spec() -> bool {
        true
    }

    open spec fn from_spec(v: RfnCcf0) -> u16 {
        v.0
    }
}

/// RFn_CN - Channel Number and Mode
///
/// 16-bit channel number (9-bit) and mode configuration.
#[derive(Debug, Clone, Copy, PartialEq, Eq)]
pub struct RfnCn(pub u16);

impl View for RfnCn {
    type V = u16;

    open spec fn view(&self) -> u16 {
        self.0
    }
}

impl RfnCn {
    /// The register with every field at its reset value.
    pub fn new() -> (reg: Self)
        ensures
            reg@ == 0,
    {
        Self(0)
    }

    /// The register that holds `bits`.
    pub fn from_bits(bits: u16) -> (reg: Self)
        ensures
            reg@ == bits,
    {
        Self(bits)
    }

    /// The bits that the register holds.
    pub fn into_bits(self) -> (bits: u16)
        ensures
            bits == self@,
    {
        self.0
    }

    /// Channel Number (9-bit: 0-511)
    ///
    /// Bits: 0..9
    pub fn cn(&self) -> (value: u16)
        ensures
            value == extract(self@ as u64, 0, 9),
    {
        extract_u16(self.0, 0, 9)
    }

    /// Returns the register with `cn` set to `value`.
    pub fn with_cn(self, value: u16) -> (reg: Self)
        requires
            value <= 0x1FF,
        ensures
            reg@ == insert(self@ as u64, 0, 9, value as u64),
            extract(reg@ as u64, 0, 9) == value,
    {
        proof {
            lemma_low_mask_values();
        }
        Self(insert_u16(self.0, 0, 9, value))
    }

    /// Returns the register with `cn` set to `value`, or `Err` where `value`
    /// exceeds `0x1FF`.
    pub fn with_cn_checked(self, value: u16) -> (reg: Result<Self, ()>)
        ensures
            value <= 0x1FF ==> reg is Ok && reg.unwrap()@ == insert(
                self@ as u64,
                0,
                9,
                value as u64,
            ),
            value > 0x1FF ==> reg is Err,
    {
        if value > 0x1FF {
            return Err(());
        }
        Ok(self.with_cn(value))
    }

    /// Sets `cn` to `value`.
    pub fn set_cn(&mut self, value: u16)
        requires
            value <= 0x1FF,
        ensures
            final(self)@ == insert(old(self)@ as u64, 0, 9, value as u64),
            extract(final(self)@ as u64, 0, 9) == value,
    {
        proof {
            lemma_low_mask_values();
        }
        self.0 = insert_u16(self.0, 0, 9, value);
    }

    /// Sets `cn` to `value`, or returns `Err` and leaves the register as it
    /// is where `value` exceeds `0x1FF`.
    pub fn set_cn_checked(&mut self, value: u16) -> (done: Result<(), ()>)
        ensures
            value <= 0x1FF ==> done is Ok && final(self)@ == insert(
                old(self)@ as u64,
                0,
                9,
                value as u64,
            ),
            value > 0x1FF ==> done is Err && final(self)@ == old(self)@,
    {
        if value > 0x1FF {
            return Err(());
        }
        self.set_cn(value);
        Ok(())
    }

    /// Channel Setting Mode
    /// - 0: IEEE compliant (CCF0+CN*CS)*25kHz + offset
    /// - 1: Fine resolution 389.5-510MHz with ~99Hz stepping
    /// - 2: Fine resolution 779-1020MHz with ~198Hz stepping
    /// - 3: Fine resolution 2400-2483.5MHz with ~397Hz stepping
    ///
    /// Bits: 14..16
    pub fn cm(&self) -> (value: u8)
        ensures
            value == extract(self@ as u64, 14, 2),
    {
        let field = extract_u16(self.0, 14, 2);
        proof {
            lemma_extract_bound(self@ as u64, 14, 2);
            lemma_low_mask_values();
        }
        field as u8
    }

    /// Returns the register with `cm` set to `value`.
    pub fn with_cm(self, value: u8) -> (reg: Self)
        requires
            value <= 0x3,
        ensures
            reg@ == insert(self@ as u64, 14, 2, value as u64),
            extract(reg@ as u64, 14, 2) == value,
    {
        proof {
            lemma_low_mask_values();
        }
        Self(insert_u16(self.0, 14, 2, value as u16))
    }

    /// Returns the register with `cm` set to `value`, or `Err` where `value`
    /// exceeds `0x3`.
    pub fn with_cm_checked(self, value: u8) -> (reg: Result<Self, ()>)
        ensures
            value <= 0x3 ==> reg is Ok && reg.unwrap()@ == insert(
                self@ as u64,
                14,
                2,
                value as u64,
            ),
            value > 0x3 ==> reg is Err,
    {
        if value > 0x3 {
            return Err(());
        }
        Ok(self.with_cm(value))
    }

    /// Sets `cm` to `value`.
    pub fn set_cm(&mut self, value: u8)
        requires
            value <= 0x3,
        ensures
            final(self)@ == insert(old(self)@ as u64, 14, 2, value as u64),
            extract(final(self)@ as u64, 14, 2) == value,
    {
        proof {
            lemma_low_mask_values();
        }
        self.0 = insert_u16(self.0, 14, 2, value as u16);
    }

    /// Sets `cm` to `value`, or returns `Err` and leaves the register as it
    /// is where `value` exceeds `0x3`.
    pub fn set_cm_checked(&mut self, value: u8) -> (done: Result<(), ()>)
        ensures
            value <= 0x3 ==> done is Ok && final(self)@ == insert(
                old(self)@ as u64,
                14,
                2,
                value as u64,
            ),
            value > 0x3 ==> done is Err && final(self)@ == old(self)@,
    {
        if value > 0x3 {
            return Err(());
        }
        self.set_cm(value);
        Ok(())
    }
}

impl Default for RfnCn {
    fn default() -> (reg: Self)
        ensures
            reg@ == 0,
    {
        Self::new()
    }
}

impl From<u16> for RfnCn {
    fn from(v: u16) -> (reg: Self) {
        Self(v)
    }
}

impl FromSpecImpl<u16> for RfnCn {
    open spec fn obeys_from_spec() -> bool {
        true
    }

    open spec fn from_spec(v: u16) -> Self {
        RfnCn(v)
    }
}

impl From<RfnCn> for u16 {
    fn from(v: RfnCn) -> (bits: u16) {
        v.0
    }
}

impl FromSpecImpl<RfnCn> for u16 {
    open spec fn obeys_from_spec() -> bool {
        true
    }

    open spec fn from_spec(v: RfnCn) -> u16 {
        v.0
    }
}

/// RFn_RXBWC - Receiver Filter Bandwidth Control
///
/// Configures receiver filter bandwidth and IF settings.
#[derive(Debug, Clone, Copy, PartialEq, Eq)]
pub struct RfnRxbwc(pub u8);

impl View for RfnRxbwc {
    type V = u8;

    open spec fn view(&self) -> u8 {
        self.0
    }
}

impl RfnRxbwc {
    /// The register with every field at its reset value.
    pub fn new() -> (reg: Self)
        ensures
            reg@ == 0,
    {
        Self(0)
    }

    /// The register that holds `bits`.
    pub fn from_bits(bits: u8) -> (reg: Self)
        ensures
            reg@ == bits,
    {
        Self(bits)
    }

    /// The bits that the register holds.
    pub fn into_bits(self) -> (bits: u8)
        ensures
            bits == self@,
    {
        self.0
    }

    /// Receiver Bandwidth
    /// - 0: 160kHz @ 250kHz IF
    /// - 1: 200kHz @ 250kHz IF
    /// - 2: 250kHz @ 250kHz IF
    /// - 3: 320kHz @ 500kHz IF
    /// - 4: 400kHz @ 500kHz IF
    /// - 5: 500kHz @ 500kHz IF
    /// - 6: 630kHz @ 1000kHz IF
    /// - 7: 800kHz @ 1000kHz IF
    /// - 8: 1000kHz @ 1000kHz IF
    /// - 9: 1250kHz @ 2000kHz IF
    /// - 10: 1600kHz @ 2000kHz IF
    /// - 11: 2000kHz @ 2000kHz IF
    ///
    /// Bits: 0..4
    pub fn bw(&self) -> (value: u8)
        ensures
            value == extract(self@ as u64, 0, 4),
    {
        extract_u8(self.0, 0, 4)
    }

    /// Returns the register with `bw` set to `value`.
    pub fn with_bw(self, value: u8) -> (reg: Self)
        requires
            value <= 0xF,
        ensures
            reg@ == insert(self@ as u64, 0, 4, value as u64),
            extract(reg@ as u64, 0, 4) == value,
    {
        proof {
            lemma_low_mask_values();
        }
        Self(insert_u8(self.0, 0, 4, value))
    }

    /// Returns the register with `bw` set to `value`, or `Err` where `value`
    /// exceeds `0xF`.
    pub fn with_bw_checked(self, value: u8) -> (reg: Result<Self, ()>)
        ensures
            value <= 0xF ==> reg is Ok && reg.unwrap()@ == insert(self@ as u64, 0, 4, value as u64),
            value > 0xF ==> reg is Err,
    {
        if value > 0xF {
            return Err(());
        }
        Ok(self.with_bw(value))
    }

    /// Sets `bw` to `value`.
    pub fn set_bw(&mut self, value: u8)
        requires
            value <= 0xF,
        ensures
            final(self)@ == insert(old(self)@ as u64, 0, 4, value as u64),
            extract(final(self)@ as u64, 0, 4) == value,
    {
        proof {
            lemma_low_mask_values();
        }
        self.0 = insert_u8(self.0, 0, 4, value);
    }

    /// Sets `bw` to `value`, or returns `Err` and leaves the register as it
    /// is where `value` exceeds `0xF`.
    pub fn set_bw_checked(&mut self, value: u8) -> (done: Result<(), ()>)
        ensures
            value <= 0xF ==> done is Ok && final(self)@ == insert(
                old(self)@ as u64,
                0,
                4,
                value as u64,
            ),
            value > 0xF ==> done is Err && final(self)@ == old(self)@,
    {
        if value > 0xF {
            return Err(());
        }
        self.set_bw(value);
        Ok(())
    }

    /// IF Shift - Multiplies IF by 1.25
    /// - 0: Normal IF
    /// - 1: IF shifted by factor 1.25
    ///
    /// Bits: 4..5
    pub fn ifs(&self) -> (value: bool)
        ensures
            value == (extract(self@ as u64, 4, 1) != 0),
    {
        extract_u8(self.0, 4, 1) != 0
    }

    /// Returns the register with `ifs` set to `value`.
    pub fn with_ifs(self, value: bool) -> (reg: Self)
        ensures
            reg@ == insert(self@ as u64, 4, 1, value as u64),
            (extract(reg@ as u64, 4, 1) != 0) == value,
    {
        proof {
            lemma_low_mask_values();
        }
        Self(insert_u8(self.0, 4, 1, value as u8))
    }

    /// Returns the register with `ifs` set to `value`. Every value fits the
    /// field, so the result is always `Ok`.
    pub fn with_ifs_checked(self, value: bool) -> (reg: Result<Self, ()>)
        ensures
            reg is Ok,
            reg.unwrap()@ == insert(self@ as u64, 4, 1, value as u64),
    {
        Ok(self.with_ifs(value))
    }

    /// Sets `ifs` to `value`.
    pub fn set_ifs(&mut self, value: bool)
        ensures
            final(self)@ == insert(old(self)@ as u64, 4, 1, value as u64),
            (extract(final(self)@ as u64, 4, 1) != 0) == value,
    {
        proof {
            lemma_low_mask_values();
        }
        self.0 = insert_u8(self.0, 4, 1, value as u8);
    }

    /// Sets `ifs` to `value`. Every value fits the field, so the result is
    /// always `Ok`.
    pub fn set_ifs_checked(&mut self, value: bool) -> (done: Result<(), ()>)
        ensures
            done is Ok,
            final(self)@ == insert(old(self)@ as u64, 4, 1, value as u64),
    {
        self.set_ifs(value);
        Ok(())
    }

    /// IF Inversion
    /// - 0: Normal (default)
    /// - 1: Inverted sign IF frequency
    ///
    /// Bits: 5..6
    pub fn ifi(&self) -> (value: bool)
        ensures
            value == (extract(self@ as u64, 5, 1) != 0),
    {
        extract_u8(self.0, 5, 1) != 0
    }

    /// Returns the register with `ifi` set to `value`.
    pub fn with_ifi(self, value: bool) -> (reg: Self)
        ensures
            reg@ == insert(self@ as u64, 5, 1, value as u64),
            (extract(reg@ as u64, 5, 1) != 0) == value,
    {
        proof {
            lemma_low_mask_values();
        }
        Self(insert_u8(self.0, 5, 1, value as u8))
    }

    /// Returns the register with `ifi` set to `value`. Every value fits the
    /// field, so the result is always `Ok`.
    pub fn with_ifi_checked(self, value: bool) -> (reg: Result<Self, ()>)
        ensures
            reg is Ok,
            reg.unwrap()@ == insert(self@ as u64, 5, 1, value as u64),
    {
        Ok(self.with_ifi(value))
    }

    /// Sets `ifi` to `value`.
    pub fn set_ifi(&mut self, value: bool)
        ensures
            final(self)@ == insert(old(self)@ as u64, 5, 1, value as u64),
            (extract(final(self)@ as u64, 5, 1) != 0) == value,
    {
        proof {
            lemma_low_mask_values();
        }
        self.0 = insert_u8(self.0, 5, 1, value as u8);
    }

    /// Sets `ifi` to `value`. Every value fits the field, so the result is
    /// always `Ok`.
    pub fn set_ifi_checked(&mut self, value: bool) -> (done: Result<(), ()>)
        ensures
            done is Ok,
            final(self)@ == insert(old(self)@ as u64, 5, 1, value as u64),
    {
        self.set_ifi(value);
        Ok(())
    }
}

impl Default for RfnRxbwc {
    fn default() -> (reg: Self)
        ensures
            reg@ == 0,
    {
        Self::new()
    }
}

impl From<u8> for RfnRxbwc {
    fn from(v: u8) -> (reg: Self) {
        Self(v)
    }
}

impl FromSpecImpl<u8> for RfnRxbwc {
    open spec fn obeys_from_spec() -> bool {
        true
    }

    open spec fn from_spec(v: u8) -> Self {
        RfnRxbwc(v)
    }
}

impl From<RfnRxbwc> for u8 {
    fn from(v: RfnRxbwc) -> (bits: u8) {
        v.0
    }
}

impl FromSpecImpl<RfnRxbwc> for u8 {
    open spec fn obeys_from_spec() -> bool {
        true
    }

    open spec fn from_spec(v: RfnRxbwc) -> u8 {
        v.0
    }
}

/// RFn_RXDFE - Receiver Digital Frontend
///
/// Configures receiver sampling rate and filter.
#[derive(Debug, Clone, Copy, PartialEq, Eq)]
pub struct RfnRxdfe(pub u8);

impl View for RfnRxdfe {
    type V = u8;

    open spec fn view(&self) -> u8 {
        self.0
    }
}

impl RfnRxdfe {
    /// The register with every field at its reset value.
    pub fn new() -> (reg: Self)
        ensures
            reg@ == 0,
    {
        Self(0)
    }

    /// The register that holds `bits`.
    pub fn from_bits(bits: u8) -> (reg: Self)
        ensures
            reg@ == bits,
    {
        Self(bits)
    }

    /// The bits that the register holds.
    pub fn into_bits(self) -> (bits: u8)
        ensures
            bits == self@,
    {
        self.0
    }

    /// RX Sample Rate
    /// - 1: 4000kHz
    /// - 2: 2000kHz
    /// - 3: 4000/3 kHz
    /// - 4: 1000kHz
    /// - 5: 800kHz
    /// - 6: 2000/3 kHz
    /// - 8: 500kHz
    /// - 10: 400kHz
    ///
    /// Bits: 0..4
    pub fn sr(&self) -> (value: u8)
        ensures
            value == extract(self@ as u64, 0, 4),
    {
        extract_u8(self.0, 0, 4)
    }

    /// Returns the register with `sr` set to `value`.
    pub fn with_sr(self, value: u8) -> (reg: Self)
        requires
            value <= 0xF,
        ensures
            reg@ == insert(self@ as u64, 0, 4, value as u64),
            extract(reg@ as u64, 0, 4) == value,
    {
        proof {
            lemma_low_mask_values();
        }
        Self(insert_u8(self.0, 0, 4, value))
    }

    /// Returns the register with `sr` set to `value`, or `Err` where `value`
    /// exceeds `0xF`.
    pub fn with_sr_checked(self, value: u8) -> (reg: Result<Self, ()>)
        ensures
            value <= 0xF ==> reg is Ok && reg.unwrap()@ == insert(self@ as u64, 0, 4, value as u64),
            value > 0xF ==> reg is Err,
    {
        if value > 0xF {
            return Err(());
        }
        Ok(self.with_sr(value))
    }

    /// Sets `sr` to `value`.
    pub fn set_sr(&mut self, value: u8)
        requires
            value <= 0xF,
        ensures
            final(self)@ == insert(old(self)@ as u64, 0, 4, value as u64),
            extract(final(self)@ as u64, 0, 4) == value,
    {
        proof {
            lemma_low_mask_values();
        }
        self.0 = insert_u8(self.0, 0, 4, value);
    }

    /// Sets `sr` to `value`, or returns `Err` and leaves the register as it
    /// is where `value` exceeds `0xF`.
    pub fn set_sr_checked(&mut self, value: u8) -> (done: Result<(), ()>)
        ensures
            value <= 0xF ==> done is Ok && final(self)@ == insert(
                old(self)@ as u64,
                0,
                4,
                value as u64,
            ),
            value > 0xF ==> done is Err && final(self)@ == old(self)@,
    {
        if value > 0xF {
            return Err(());
        }
        self.set_sr(value);
        Ok(())
    }

    /// RX Filter Relative Cut-off Frequency
    /// - 0: 0.25 × fS/2
    /// - 1: 0.375 × fS/2
    /// - 2: 0.5 × fS/2
    /// - 3: 0.75 × fS/2
    /// - 4: 1.0 × fS/2 (bypass)
    ///
    /// Bits: 5..8
    pub fn rcut(&self) -> (value: u8)
        ensures
            value == extract(self@ as u64, 5, 3),
    {
        extract_u8(self.0, 5, 3)
    }

    /// Returns the register with `rcut` set to `value`.
    pub fn with_rcut(self, value: u8) -> (reg: Self)
        requires
            value <= 0x7,
        ensures
            reg@ == insert(self@ as u64, 5, 3, value as u64),
            extract(reg@ as u64, 5, 3) == value,
    {
        proof {
            lemma_low_mask_values();
        }
        Self(insert_u8(self.0, 5, 3, value))
    }

    /// Returns the register with `rcut` set to `value`, or `Err` where `value`
    /// exceeds `0x7`.
    pub fn with_rcut_checked(self, value: u8) -> (reg: Result<Self, ()>)
        ensures
            value <= 0x7 ==> reg is Ok && reg.unwrap()@ == insert(self@ as u64, 5, 3, value as u64),
            value > 0x7 ==> reg is Err,
    {
        if value > 0x7 {
            return Err(());
        }
        Ok(self.with_rcut(value))
    }

    /// Sets `rcut` to `value`.
    pub fn set_rcut(&mut self, value: u8)
        requires
            value <= 0x7,
        ensures
            final(self)@ == insert(old(self)@ as u64, 5, 3, value as u64),
            extract(final(self)@ as u64, 5, 3) == value,
    {
        proof {
            lemma_low_mask_values();
        }
        self.0 = insert_u8(self.0, 5, 3, value);
    }

    /// Sets `rcut` to `value`, or returns `Err` and leaves the register as it
    /// is where `value` exceeds `0x7`.
    pub fn set_rcut_checked(&mut self, value: u8) -> (done: Result<(), ()>)
        ensures
            value <= 0x7 ==> done is Ok && final(self)@ == insert(
                old(self)@ as u64,
                5,
                3,
                value as u64,
            ),
            value > 0x7 ==> done is Err && final(self)@ == old(self)@,
    {
        if value > 0x7 {
            return Err(());
        }
        self.set_rcut(value);
        Ok(())
    }
}

impl Default for RfnRxdfe {
    fn default() -> (reg: Self)
        ensures
            reg@ == 0,
    {
        Self::new()
    }
}

impl From<u8> for RfnRxdfe {
    fn from(v: u8) -> (reg: Self) {
        Self(v)
    }
}

impl FromSpecImpl<u8> for RfnRxdfe {
    open spec fn obeys_from_spec() -> bool {
        true
    }

    open spec fn from_spec(v: u8) -> Self {
        RfnRxdfe(v)
    }
}

impl From<RfnRxdfe> for u8 {
    fn from(v: RfnRxdfe) -> (bits: u8) {
        v.0
    }
}

impl FromSpecImpl<RfnRxdfe> for u8 {
    open spec fn obeys_from_spec() -> bool {
        true
    }

    open spec fn from_spec(v: RfnRxdfe) -> u8 {
        v.0
    }
}

/// RFn_AGCC - AGC Control
///
/// Configures automatic gain control behavior.
#[derive(Debug, Clone, Copy, PartialEq, Eq)]
pub struct RfnAgcc(pub u8);

impl View for RfnAgcc {
    type V = u8;

    open spec fn view(&self) -> u8 {
        self.0
    }
}

impl RfnAgcc {
    /// The register with every field at its reset value.
    pub fn new() -> (reg: Self)
        ensures
            reg@ == 0,
    {
        Self(0)
    }

    /// The register that holds `bits`.
    pub fn from_bits(bits: u8) -> (reg: Self)
        ensures
            reg@ == bits,
    {
        Self(bits)
    }

    /// The bits that the register holds.
    pub fn into_bits(self) -> (bits: u8)
        ensures
            bits == self@,
    {
        self.0
    }

    /// AGC Enable
    /// - 0: Manual gain control via AGCS.GCW
    /// - 1: Automatic gain control enabled
    ///
    /// Bits: 0..1
    pub fn en(&self) -> (value: bool)
        ensures
            value == (extract(self@ as u64, 0, 1) != 0),
    {
        extract_u8(self.0, 0, 1) != 0
    }

    /// Returns the register with `en` set to `value`.
    pub fn with_en(self, value: bool) -> (reg: Self)
        ensures
            reg@ == insert(self@ as u64, 0, 1, value as u64),
            (extract(reg@ as u64, 0, 1) != 0) == value,
    {
        proof {
            lemma_low_mask_values();
        }
        Self(insert_u8(self.0, 0, 1, value as u8))
    }

    /// Returns the register with `en` set to `value`. Every value fits the
    /// field, so the result is always `Ok`.
    pub fn with_en_checked(self, value: bool) -> (reg: Result<Self, ()>)
        ensures
            reg is Ok,
            reg.unwrap()@ == insert(self@ as u64, 0, 1, value as u64),
    {
        Ok(self.with_en(value))
    }

    /// Sets `en` to `value`.
    pub fn set_en(&mut self, value: bool)
        ensures
            final(self)@ == insert(old(self)@ as u64, 0, 1, value as u64),
            (extract(final(self)@ as u64, 0, 1) != 0) == value,
    {
        proof {
            lemma_low_mask_values();
        }
        self.0 = insert_u8(self.0, 0, 1, value as u8);
    }

    /// Sets `en` to `value`. Every value fits the field, so the result is
    /// always `Ok`.
    pub fn set_en_checked(&mut self, value: bool) -> (done: Result<(), ()>)
        ensures
            done is Ok,
            final(self)@ == insert(old(self)@ as u64, 0, 1, value as u64),
    {
        self.set_en(value);
        Ok(())
    }

    /// AGC Freeze Control
    /// - 0: AGC released
    /// - 1: AGC frozen to current value
    ///
    /// Bits: 1..2
    pub fn frzc(&self) -> (value: bool)
        ensures
            value == (extract(self@ as u64, 1, 1) != 0),
    {
        extract_u8(self.0, 1, 1) != 0
    }

    /// Returns the register with `frzc` set to `value`.
    pub fn with_frzc(self, value: bool) -> (reg: Self)
        ensures
            reg@ == insert(self@ as u64, 1, 1, value as u64),
            (extract(reg@ as u64, 1, 1) != 0) == value,
    {
        proof {
            lemma_low_mask_values();
        }
        Self(insert_u8(self.0, 1, 1, value as u8))
    }

    /// Returns the register with `frzc` set to `value`. Every value fits the
    /// field, so the result is always `Ok`.
    pub fn with_frzc_checked(self, value: bool) -> (reg: Result<Self, ()>)
        ensures
            reg is Ok,
            reg.unwrap()@ == insert(self@ as u64, 1, 1, value as u64),
    {
        Ok(self.with_frzc(value))
    }

    /// Sets `frzc` to `value`.
    pub fn set_frzc(&mut self, value: bool)
        ensures
            final(self)@ == insert(old(self)@ as u64, 1, 1, value as u64),
            (extract(final(self)@ as u64, 1, 1) != 0) == value,
    {
        proof {
            lemma_low_mask_values();
        }
        self.0 = insert_u8(self.0, 1, 1, value as u8);
    }

    /// Sets `frzc` to `value`. Every value fits the field, so the result is
    /// always `Ok`.
    pub fn set_frzc_checked(&mut self, value: bool) -> (done: Result<(), ()>)
        ensures
            done is Ok,
            final(self)@ == insert(old(self)@ as u64, 1, 1, value as u64),
    {
        self.set_frzc(value);
        Ok(())
    }

    /// AGC Freeze Status (Read Only)
    /// - 0: AGC not frozen
    /// - 1: AGC is frozen
    ///
    /// Bits: 2..3
    pub fn frzs(&self) -> (value: bool)
        ensures
            value == (extract(self@ as u64, 2, 1) != 0),
    {
        extract_u8(self.0, 2, 1) != 0
    }

    /// AGC Reset
    /// - 1: Reset AGC and set maximum receiver gain (auto-clears)
    ///
    /// Bits: 3..4
    pub fn rst(&self) -> (value: bool)
        ensures
            value == (extract(self@ as u64, 3, 1) != 0),
    {
        extract_u8(self.0, 3, 1) != 0
    }

    /// Returns the register with `rst` set to `value`.
    pub fn with_rst(self, value: bool) -> (reg: Self)
        ensures
            reg@ == insert(self@ as u64, 3, 1, value as u64),
            (extract(reg@ as u64, 3, 1) != 0) == value,
    {
        proof {
            lemma_low_mask_values();
        }
        Self(insert_u8(self.0, 3, 1, value as u8))
    }

    /// Returns the register with `rst` set to `value`. Every value fits the
    /// field, so the result is always `Ok`.
    pub fn with_rst_checked(self, value: bool) -> (reg: Result<Self, ()>)
        ensures
            reg is Ok,
            reg.unwrap()@ == insert(self@ as u64, 3, 1, value as u64),
    {
        Ok(self.with_rst(value))
    }

    /// Sets `rst` to `value`.
    pub fn set_rst(&mut self, value: bool)
        ensures
            final(self)@ == insert(old(self)@ as u64, 3, 1, value as u64),
            (extract(final(self)@ as u64, 3, 1) != 0) == value,
    {
        proof {
            lemma_low_mask_values();
        }
        self.0 = insert_u8(self.0, 3, 1, value as u8);
    }

    /// Sets `rst` to `value`. Every value fits the field, so the result is
    /// always `Ok`.
    pub fn set_rst_checked(&mut self, value: bool) -> (done: Result<(), ()>)
        ensures
            done is Ok,
            final(self)@ == insert(old(self)@ as u64, 3, 1, value as u64),
    {
        self.set_rst(value);
        Ok(())
    }

    /// AGC Average Time in Number of Samples
    /// - 0: 8 samples
    /// - 1: 16 samples
    /// - 2: 32 samples
    /// - 3: 64 samples
    ///
    /// Bits: 4..6
    pub fn avgs(&self) -> (value: u8)
        ensures
            value == extract(self@ as u64, 4, 2),
    {
        extract_u8(self.0, 4, 2)
    }

    /// Returns the register with `avgs` set to `value`.
    pub fn with_avgs(self, value: u8) -> (reg: Self)
        requires
            value <= 0x3,
        ensures
            reg@ == insert(self@ as u64, 4, 2, value as u64),
            extract(reg@ as u64, 4, 2) == value,
    {
        proof {
            lemma_low_mask_values();
        }
        Self(insert_u8(self.0, 4, 2, value))
    }

    /// Returns the register with `avgs` set to `value`, or `Err` where `value`
    /// exceeds `0x3`.
    pub fn with_avgs_checked(self, value: u8) -> (reg: Result<Self, ()>)
        ensures
            value <= 0x3 ==> reg is Ok && reg.unwrap()@ == insert(self@ as u64, 4, 2, value as u64),
            value > 0x3 ==> reg is Err,
    {
        if value > 0x3 {
            return Err(());
        }
        Ok(self.with_avgs(value))
    }

    /// Sets `avgs` to `value`.
    pub fn set_avgs(&mut self, value: u8)
        requires
            value <= 0x3,
        ensures
            final(self)@ == insert(old(self)@ as u64, 4, 2, value as u64),
            extract(final(self)@ as u64, 4, 2) == value,
    {
        proof {
            lemma_low_mask_values();
        }
        self.0 = insert_u8(self.0, 4, 2, value);
    }

    /// Sets `avgs` to `value`, or returns `Err` and leaves the register as it
    /// is where `value` exceeds `0x3`.
    pub fn set_avgs_checked(&mut self, value: u8) -> (done: Result<(), ()>)
        ensures
            value <= 0x3 ==> done is Ok && final(self)@ == insert(
                old(self)@ as u64,
                4,
                2,
                value as u64,
            ),
            value > 0x3 ==> done is Err && final(self)@ == old(self)@,
    {
        if value > 0x3 {
            return Err(());
        }
        self.set_avgs(value);
        Ok(())
    }

    /// AGC Input
    /// - 0: Use filtered signal (after channel filter)
    /// - 1: Use unfiltered signal (faster settling)
    ///
    /// Bits: 6..7
    pub fn agci(&self) -> (value: bool)
        ensures
            value == (extract(self@ as u64, 6, 1) != 0),
    {
        extract_u8(self.0, 6, 1) != 0
    }

    /// Returns the register with `agci` set to `value`.
    pub fn with_agci(self, value: bool) -> (reg: Self)
        ensures
            reg@ == insert(self@ as u64, 6, 1, value as u64),
            (extract(reg@ as u64, 6, 1) != 0) == value,
    {
        proof {
            lemma_low_mask_values();
        }
        Self(insert_u8(self.0, 6, 1, value as u8))
    }

    /// Returns the register with `agci` set to `value`. Every value fits the
    /// field, so the result is always `Ok`.
    pub fn with_agci_checked(self, value: bool) -> (reg: Result<Self, ()>)
        ensures
            reg is Ok,
            reg.unwrap()@ == insert(self@ as u64, 6, 1, value as u64),
    {
        Ok(self.with_agci(value))
    }

    /// Sets `agci` to `value`.
    pub fn set_agci(&mut self, value: bool)
        ensures
            final(self)@ == insert(old(self)@ as u64, 6, 1, value as u64),
            (extract(final(self)@ as u64, 6, 1) != 0) == value,
    {
        proof {
            lemma_low_mask_values();
        }
        self.0 = insert_u8(self.0, 6, 1, value as u8);
    }

    /// Sets `agci` to `value`. Every value fits the field, so the result is
    /// always `Ok`.
    pub fn set_agci_checked(&mut self, value: bool) -> (done: Result<(), ()>)
        ensures
            done is Ok,
            final(self)@ == insert(old(self)@ as u64, 6, 1, value as u64),
    {
        self.set_agci(value);
        Ok(())
    }
}

impl Default for RfnAgcc {
    fn default() -> (reg: Self)
        ensures
            reg@ == 0,
    {
        Self::new()
    }
}

impl From<u8> for RfnAgcc {
    fn from(v: u8) -> (reg: Self) {
        Self(v)
    }
}

impl FromSpecImpl<u8> for RfnAgcc {
    open spec fn obeys_from_spec() -> bool {
        true
    }

    open spec fn from_spec(v: u8) -> Self {
        RfnAgcc(v)
    }
}

impl From<RfnAgcc> for u8 {
    fn from(v: RfnAgcc) -> (bits: u8) {
        v.0
    }
}

impl FromSpecImpl<RfnAgcc> for u8 {
    open spec fn obeys_from_spec() -> bool {
        true
    }

    open spec fn from_spec(v: RfnAgcc) -> u8 {
        v.0
    }
}

/// RFn_AGCS - AGC Settings
///
/// AGC target level and gain control word.
#[derive(Debug, Clone, Copy, PartialEq, Eq)]
pub struct RfnAgcs(pub u8);

impl View for RfnAgcs {
    type V = u8;

    open spec fn view(&self) -> u8 {
        self.0
    }
}

impl RfnAgcs {
    /// The register with every field at its reset value.
    pub fn new() -> (reg: Self)
        ensures
            reg@ == 0,
    {
        Self(0)
    }

    /// The register that holds `bits`.
    pub fn from_bits(bits: u8) -> (reg: Self)
        ensures
            reg@ == bits,
    {
        Self(bits)
    }

    /// The bits that the register holds.
    pub fn into_bits(self) -> (bits: u8)
        ensures
            bits == self@,
    {
        self.0
    }

    /// RX Gain Control Word
    /// If AGCC.EN=1: Read-only, indicates current receiver gain
    /// If AGCC.EN=0: Read-write, manually set receiver gain
    /// Value 23 = max gain, each step = 3dB
    ///
    /// Bits: 0..5
    pub fn gcw(&self) -> (value: u8)
        ensures
            value == extract(self@ as u64, 0, 5),
    {
        extract_u8(self.0, 0, 5)
    }

    /// Returns the register with `gcw` set to `value`.
    pub fn with_gcw(self, value: u8) -> (reg: Self)
        requires
            value <= 0x1F,
        ensures
            reg@ == insert(self@ as u64, 0, 5, value as u64),
            extract(reg@ as u64, 0, 5) == value,
    {
        proof {
            lemma_low_mask_values();
        }
        Self(insert_u8(self.0, 0, 5, value))
    }

    /// Returns the register with `gcw` set to `value`, or `Err` where `value`
    /// exceeds `0x1F`.
    pub fn with_gcw_checked(self, value: u8) -> (reg: Result<Self, ()>)
        ensures
            value <= 0x1F ==> reg is Ok && reg.unwrap()@ == insert(
                self@ as u64,
                0,
                5,
                value as u64,
            ),
            value > 0x1F ==> reg is Err,
    {
        if value > 0x1F {
            return Err(());
        }
        Ok(self.with_gcw(value))
    }

    /// Sets `gcw` to `value`.
    pub fn set_gcw(&mut self, value: u8)
        requires
            value <= 0x1F,
        ensures
            final(self)@ == insert(old(self)@ as u64, 0, 5, value as u64),
            extract(final(self)@ as u64, 0, 5) == value,
    {
        proof {
            lemma_low_mask_values();
        }
        self.0 = insert_u8(self.0, 0, 5, value);
    }

    /// Sets `gcw` to `value`, or returns `Err` and leaves the register as it
    /// is where `value` exceeds `0x1F`.
    pub fn set_gcw_checked(&mut self, value: u8) -> (done: Result<(), ()>)
        ensures
            value <= 0x1F ==> done is Ok && final(self)@ == insert(
                old(self)@ as u64,
                0,
                5,
                value as u64,
            ),
            value > 0x1F ==> done is Err && final(self)@ == old(self)@,
    {
        if value > 0x1F {
            return Err(());
        }
        self.set_gcw(value);
        Ok(())
    }

    /// AGC Target Level (relative to ADC full scale)
    /// - 0: -21dB
    /// - 1: -24dB
    /// - 2: -27dB
    /// - 3: -30dB
    /// - 4: -33dB
    /// - 5: -36dB
    /// - 6: -39dB
    /// - 7: -42dB
    ///
    /// Bits: 5..8
    pub fn tgt(&self) -> (value: u8)
        ensures
            value == extract(self@ as u64, 5, 3),
    {
        extract_u8(self.0, 5, 3)
    }

    /// Returns the register with `tgt` set to `value`.
    pub fn with_tgt(self, value: u8) -> (reg: Self)
        requires
            value <= 0x7,
        ensures
            reg@ == insert(self@ as u64, 5, 3, value as u64),
            extract(reg@ as u64, 5, 3) == value,
    {
        proof {
            lemma_low_mask_values();
        }
        Self(insert_u8(self.0, 5, 3, value))
    }

    /// Returns the register with `tgt` set to `value`, or `Err` where `value`
    /// exceeds `0x7`.
    pub fn with_tgt_checked(self, value: u8) -> (reg: Result<Self, ()>)
        ensures
            value <= 0x7 ==> reg is Ok && reg.unwrap()@ == insert(self@ as u64, 5, 3, value as u64),
            value > 0x7 ==> reg is Err,
    {
        if value > 0x7 {
            return Err(());
        }
        Ok(self.with_tgt(value))
    }

    /// Sets `tgt` to `value`.
    pub fn set_tgt(&mut self, value: u8)
        requires
            value <= 0x7,
        ensures
            final(self)@ == insert(old(self)@ as u64, 5, 3, value as u64),
            extract(final(self)@ as u64, 5, 3) == value,
    {
        proof {
            lemma_low_mask_values();
        }
        self.0 = insert_u8(self.0, 5, 3, value);
    }

    /// Sets `tgt` to `value`, or returns `Err` and leaves the register as it
    /// is where `value` exceeds `0x7`.
    pub fn set_tgt_checked(&mut self, value: u8) -> (done: Result<(), ()>)
        ensures
            value <= 0x7 ==> done is Ok && final(self)@ == insert(
                old(self)@ as u64,
                5,
                3,
                value as u64,
            ),
            value > 0x7 ==> done is Err && final(self)@ == old(self)@,
    {
        if value > 0x7 {
            return Err(());
        }
        self.set_tgt(value);
        Ok(())
    }
}

impl Default for RfnAgcs {
    fn default() -> (reg: Self)
        ensures
            reg@ == 0,
    {
        Self::new()
    }
}

impl From<u8> for RfnAgcs {
    fn from(v: u8) -> (reg: Self) {
        Self(v)
    }
}

impl FromSpecImpl<u8> for RfnAgcs {
    open spec fn obeys_from_spec() -> bool {
        true
    }

    open spec fn from_spec(v: u8) -> Self {
        RfnAgcs(v)
    }
}

impl From<RfnAgcs> for u8 {
    fn from(v: RfnAgcs) -> (bits: u8) {
        v.0
    }
}

impl FromSpecImpl<RfnAgcs> for u8 {
    open spec fn obeys_from_spec() -> bool {
        true
    }

    open spec fn from_spec(v: RfnAgcs) -> u8 {
        v.0
    }
}

/// RFn_RSSI - Received Signal Strength Indicator (Read Only)
///
/// Current RSSI value in dBm. Valid range: -127 to +4 dBm.
/// Value 127 indicates invalid RSSI.
#[derive(Debug, Clone, Copy, PartialEq, Eq)]
pub struct RfnRssi(pub u8);

impl View for RfnRssi {
    type V = u8;

    open spec fn view(&self) -> u8 {
        self.0
    }
}

impl RfnRssi {
    /// The register with every field at its reset value.
    pub fn new() -> (reg: Self)
        ensures
            reg@ == 0,
    {
        Self(0)
    }

    /// The register that holds `bits`.
    pub fn from_bits(bits: u8) -> (reg: Self)
        ensures
            reg@ == bits,
    {
        Self(bits)
    }

    /// The bits that the register holds.
    pub fn into_bits(self) -> (bits: u8)
        ensures
            bits == self@,
    {
        self.0
    }

    /// RSSI Value (signed, two's complement)
    ///
    /// Bits: 0..8
    pub fn rssi(&self) -> (value: i8)
        ensures
            value == signed8(extract(self@ as u64, 0, 8)),
    {
        to_signed8(extract_u8(self.0, 0, 8))
    }
}

impl Default for RfnRssi {
    fn default() -> (reg: Self)
        ensures
            reg@ == 0,
    {
        Self::new()
    }
}

impl From<u8> for RfnRssi {
    fn from(v: u8) -> (reg: Self) {
        Self(v)
    }
}

impl FromSpecImpl<u8> for RfnRssi {
    open spec fn obeys_from_spec() -> bool {
        true
    }

    open spec fn from_spec(v: u8) -> Self {
        RfnRssi(v)
    }
}

impl From<RfnRssi> for u8 {
    fn from(v: RfnRssi) -> (bits: u8) {
        v.0
    }
}

impl FromSpecImpl<RfnRssi> for u8 {
    open spec fn obeys_from_spec() -> bool {
        true
    }

    open spec fn from_spec(v: RfnRssi) -> u8 {
        v.0
    }
}

/// RFn_EDC - Energy Detection Configuration
///
/// Configures energy detection measurement mode.
#[derive(Debug, Clone, Copy, PartialEq, Eq)]
pub struct RfnEdc(pub u8);

impl View for RfnEdc {
    type V = u8;

    open spec fn view(&self) -> u8 {
        self.0
    }
}

impl RfnEdc {
    /// The register with every field at its reset value.
    pub fn new() -> (reg: Self)
        ensures
            reg@ == 0,
    {
        Self(0)
    }

    /// The register that holds `bits`.
    pub fn from_bits(bits: u8) -> (reg: Self)
        ensures
            reg@ == bits,
    {
        Self(bits)
    }

    /// The bits that the register holds.
    pub fn into_bits(self) -> (bits: u8)
        ensures
            bits == self@,
    {
        self.0
    }

    /// Energy Detection Mode
    /// - 0: EDAUTO - Automatic trigger when AGC held
    /// - 1: EDSINGLE - Single measurement
    /// - 2: EDCONT - Continuous measurements
    /// - 3: EDOFF - Disabled
    ///
    /// Bits: 0..2
    pub fn edm(&self) -> (value: EnergyDetectionMode)
        ensures
            value == EnergyDetectionMode::decode(extract(self@ as u64, 0, 2) as u8),
    {
        EnergyDetectionMode::from_bits(extract_u8(self.0, 0, 2))
    }

    /// Returns the register with `edm` set to `value`.
    pub fn with_edm(self, value: EnergyDetectionMode) -> (reg: Self)
        ensures
            reg@ == insert(self@ as u64, 0, 2, value.code() as u64),
            EnergyDetectionMode::decode(extract(reg@ as u64, 0, 2) as u8) == value,
    {
        proof {
            lemma_low_mask_values();
            value.lemma_decode_code();
        }
        Self(insert_u8(self.0, 0, 2, value.into_bits()))
    }

    /// Returns the register with `edm` set to `value`. Every value fits the
    /// field, so the result is always `Ok`.
    pub fn with_edm_checked(self, value: EnergyDetectionMode) -> (reg: Result<Self, ()>)
        ensures
            reg is Ok,
            reg.unwrap()@ == insert(self@ as u64, 0, 2, value.code() as u64),
    {
        Ok(self.with_edm(value))
    }

    /// Sets `edm` to `value`.
    pub fn set_edm(&mut self, value: EnergyDetectionMode)
        ensures
            final(self)@ == insert(old(self)@ as u64, 0, 2, value.code() as u64),
            EnergyDetectionMode::decode(extract(final(self)@ as u64, 0, 2) as u8) == value,
    {
        proof {
            lemma_low_mask_values();
            value.lemma_decode_code();
        }
        self.0 = insert_u8(self.0, 0, 2, value.into_bits());
    }

    /// Sets `edm` to `value`. Every value fits the field, so the result is
    /// always `Ok`.
    pub fn set_edm_checked(&mut self, value: EnergyDetectionMode) -> (done: Result<(), ()>)
        ensures
            done is Ok,
            final(self)@ == insert(old(self)@ as u64, 0, 2, value.code() as u64),
    {
        self.set_edm(value);
        Ok(())
    }
}

impl Default for RfnEdc {
    fn default() -> (reg: Self)
        ensures
            reg@ == 0,
    {
        Self::new()
    }
}

impl From<u8> for RfnEdc {
    fn from(v: u8) -> (reg: Self) {
        Self(v)
    }
}

impl FromSpecImpl<u8> for RfnEdc {
    open spec fn obeys_from_spec() -> bool {
        true
    }

    open spec fn from_spec(v: u8) -> Self {
        RfnEdc(v)
    }
}

impl From<RfnEdc> for u8 {
    fn from(v: RfnEdc) -> (bits: u8) {
        v.0
    }
}

impl FromSpecImpl<RfnEdc> for u8 {
    open spec fn obeys_from_spec() -> bool {
        true
    }

    open spec fn from_spec(v: RfnEdc) -> u8 {
        v.0
    }
}

/// RFn_EDD - Energy Detection Duration
///
/// Configures averaging duration for energy detection.
#[derive(Debug, Clone, Copy, PartialEq, Eq)]
pub struct RfnEdd(pub u8);

impl View for RfnEdd {
    type V = u8;

    open spec fn view(&self) -> u8 {
        self.0
    }
}

impl RfnEdd {
    /// The register with every field at its reset value.
    pub fn new() -> (reg: Self)
        ensures
            reg@ == 0,
    {
        Self(0)
    }

    /// The register that holds `bits`.
    pub fn from_bits(bits: u8) -> (reg: Self)
        ensures
            reg@ == bits,
    {
        Self(bits)
    }

    /// The bits that the register holds.
    pub fn into_bits(self) -> (bits: u8)
        ensures
            bits == self@,
    {
        self.0
    }

    /// Duration Time Basis
    /// - 0: 2µs
    /// - 1: 8µs
    /// - 2: 32µs
    /// - 3: 128µs
    ///
    /// Bits: 0..2
    pub fn dtb(&self) -> (value: u8)
        ensures
            value == extract(self@ as u64, 0, 2),
    {
        extract_u8(self.0, 0, 2)
    }

    /// Returns the register with `dtb` set to `value`.
    pub fn with_dtb(self, value: u8) -> (reg: Self)
        requires
            value <= 0x3,
        ensures
            reg@ == insert(self@ as u64, 0, 2, value as u64),
            extract(reg@ as u64, 0, 2) == value,
    {
        proof {
            lemma_low_mask_values();
        }
        Self(insert_u8(self.0, 0, 2, value))
    }

    /// Returns the register with `dtb` set to `value`, or `Err` where `value`
    /// exceeds `0x3`.
    pub fn with_dtb_checked(self, value: u8) -> (reg: Result<Self, ()>)
        ensures
            value <= 0x3 ==> reg is Ok && reg.unwrap()@ == insert(self@ as u64, 0, 2, value as u64),
            value > 0x3 ==> reg is Err,
    {
        if value > 0x3 {
            return Err(());
        }
        Ok(self.with_dtb(value))
    }

    /// Sets `dtb` to `value`.
    pub fn set_dtb(&mut self, value: u8)
        requires
            value <= 0x3,
        ensures
            final(self)@ == insert(old(self)@ as u64, 0, 2, value as u64),
            extract(final(self)@ as u64, 0, 2) == value,
    {
        proof {
            lemma_low_mask_values();
        }
        self.0 = insert_u8(self.0, 0, 2, value);
    }

    /// Sets `dtb` to `value`, or returns `Err` and leaves the register as it
    /// is where `value` exceeds `0x3`.
    pub fn set_dtb_checked(&mut self, value: u8) -> (done: Result<(), ()>)
        ensures
            value <= 0x3 ==> done is Ok && final(self)@ == insert(
                old(self)@ as u64,
                0,
                2,
                value as u64,
            ),
            value > 0x3 ==> done is Err && final(self)@ == old(self)@,
    {
        if value > 0x3 {
            return Err(());
        }
        self.set_dtb(value);
        Ok(())
    }

    /// Duration Factor
    /// Averaging time = DF × DTB
    ///
    /// Bits: 2..8
    pub fn df(&self) -> (value: u8)
        ensures
            value == extract(self@ as u64, 2, 6),
    {
        extract_u8(self.0, 2, 6)
    }

    /// Returns the register with `df` set to `value`.
    pub fn with_df(self, value: u8) -> (reg: Self)
        requires
            value <= 0x3F,
        ensures
            reg@ == insert(self@ as u64, 2, 6, value as u64),
            extract(reg@ as u64, 2, 6) == value,
    {
        proof {
            lemma_low_mask_values();
        }
        Self(insert_u8(self.0, 2, 6, value))
    }

    /// Returns the register with `df` set to `value`, or `Err` where `value`
    /// exceeds `0x3F`.
    pub fn with_df_checked(self, value: u8) -> (reg: Result<Self, ()>)
        ensures
            value <= 0x3F ==> reg is Ok && reg.unwrap()@ == insert(
                self@ as u64,
                2,
                6,
                value as u64,
            ),
            value > 0x3F ==> reg is Err,
    {
        if value > 0x3F {
            return Err(());
        }
        Ok(self.with_df(value))
    }

    /// Sets `df` to `value`.
    pub fn set_df(&mut self, value: u8)
        requires
            value <= 0x3F,
        ensures
            final(self)@ == insert(old(self)@ as u64, 2, 6, value as u64),
            extract(final(self)@ as u64, 2, 6) == value,
    {
        proof {
            lemma_low_mask_values();
        }
        self.0 = insert_u8(self.0, 2, 6, value);
    }

    /// Sets `df` to `value`, or returns `Err` and leaves the register as it
    /// is where `value` exceeds `0x3F`.
    pub fn set_df_checked(&mut self, value: u8) -> (done: Result<(), ()>)
        ensures
            value <= 0x3F ==> done is Ok && final(self)@ == insert(
                old(self)@ as u64,
                2,
                6,
                value as u64,
            ),
            value > 0x3F ==> done is Err && final(self)@ == old(self)@,
    {
        if value > 0x3F {
            return Err(());
        }
        self.set_df(value);
        Ok(())
    }
}

impl Default for RfnEdd {
    fn default() -> (reg: Self)
        ensures
            reg@ == 0,
    {
        Self::new()
    }
}

impl From<u8> for RfnEdd {
    fn from(v: u8) -> (reg: Self) {
        Self(v)
    }
}

impl FromSpecImpl<u8> for RfnEdd {
    open spec fn obeys_from_spec() -> bool {
        true
    }

    open spec fn from_spec(v: u8) -> Self {
        RfnEdd(v)
    }
}

impl From<RfnEdd> for u8 {
    fn from(v: RfnEdd) -> (bits: u8) {
        v.0
    }
}

impl FromSpecImpl<RfnEdd> for u8 {
    open spec fn obeys_from_spec() -> bool {
        true
    }

    open spec fn from_spec(v: RfnEdd) -> u8 {
        v.0
    }
}

/// RFn_EDV - Energy Detection Value (Read Only)
///
/// Averaged energy detection result in dBm.
#[derive(Debug, Clone, Copy, PartialEq, Eq)]
pub struct RfnEdv(pub u8);

impl View for RfnEdv {
    type V = u8;

    open spec fn view(&self) -> u8 {
        self.0
    }
}

impl RfnEdv {
    /// The register with every field at its reset value.
    pub fn new() -> (reg: Self)
        ensures
            reg@ == 0,
    {
        Self(0)
    }

    /// The register that holds `bits`.
    pub fn from_bits(bits: u8) -> (reg: Self)
        ensures
            reg@ == bits,
    {
        Self(bits)
    }

    /// The bits that the register holds.
    pub fn into_bits(self) -> (bits: u8)
        ensures
            bits == self@,
    {
        self.0
    }

    /// Energy Detection Value (signed, two's complement)
    /// Valid range: -127 to +4 dBm
    ///
    /// Bits: 0..8
    pub fn edv(&self) -> (value: i8)
        ensures
            value == signed8(extract(self@ as u64, 0, 8)),
    {
        to_signed8(extract_u8(self.0, 0, 8))
    }
}

impl Default for RfnEdv {
    fn default() -> (reg: Self)
        ensures
            reg@ == 0,
    {
        Self::new()
    }
}

impl From<u8> for RfnEdv {
    fn from(v: u8) -> (reg: Self) {
        Self(v)
    }
}

impl FromSpecImpl<u8> for RfnEdv {
    open spec fn obeys_from_spec() -> bool {
        true
    }

    open spec fn from_spec(v: u8) -> Self {
        RfnEdv(v)
    }
}

impl From<RfnEdv> for u8 {
    fn from(v: RfnEdv) -> (bits: u8) {
        v.0
    }
}

impl FromSpecImpl<RfnEdv> for u8 {
    open spec fn obeys_from_spec() -> bool {
        true
    }

    open spec fn from_spec(v: RfnEdv) -> u8 {
        v.0
    }
}

/// RFn_PLL - PLL Control
///
/// PLL configuration and status.
#[derive(Debug, Clone, Copy, PartialEq, Eq)]
pub struct RfnPll(pub u8);

impl View for RfnPll {
    type V = u8;

    open spec fn view(&self) -> u8 {
        self.0
    }
}

impl RfnPll {
    /// The register with every field at its reset value.
    pub fn new() -> (reg: Self)
        ensures
            reg@ == 0,
    {
        Self(0)
    }

    /// The register that holds `bits`.
    pub fn from_bits(bits: u8) -> (reg: Self)
        ensures
            reg@ == bits,
    {
        Self(bits)
    }

    /// The bits that the register holds.
    pub fn into_bits(self) -> (bits: u8)
        ensures
            bits == self@,
    {
        self.0
    }

    /// PLL Lock Status (Read Only)
    /// - 0: PLL not locked
    /// - 1: PLL locked
    ///
    /// Bits: 1..2
    pub fn ls(&self) -> (value: bool)
        ensures
            value == (extract(self@ as u64, 1, 1) != 0),
    {
        extract_u8(self.0, 1, 1) != 0
    }

    /// Loop Bandwidth (Sub-1GHz only)
    /// - 0: Default
    /// - 1: 15% smaller
    /// - 2: 15% larger
    ///
    /// Bits: 4..6
    pub fn lbw(&self) -> (value: u8)
        ensures
            value == extract(self@ as u64, 4, 2),
    {
        extract_u8(self.0, 4, 2)
    }

    /// Returns the register with `lbw` set to `value`.
    pub fn with_lbw(self, value: u8) -> (reg: Self)
        requires
            value <= 0x3,
        ensures
            reg@ == insert(self@ as u64, 4, 2, value as u64),
            extract(reg@ as u64, 4, 2) == value,
    {
        proof {
            lemma_low_mask_values();
        }
        Self(insert_u8(self.0, 4, 2, value))
    }

    /// Returns the register with `lbw` set to `value`, or `Err` where `value`
    /// exceeds `0x3`.
    pub fn with_lbw_checked(self, value: u8) -> (reg: Result<Self, ()>)
        ensures
            value <= 0x3 ==> reg is Ok && reg.unwrap()@ == insert(self@ as u64, 4, 2, value as u64),
            value > 0x3 ==> reg is Err,
    {
        if value > 0x3 {
            return Err(());
        }
        Ok(self.with_lbw(value))
    }

    /// Sets `lbw` to `value`.
    pub fn set_lbw(&mut self, value: u8)
        requires
            value <= 0x3,
        ensures
            final(self)@ == insert(old(self)@ as u64, 4, 2, value as u64),
            extract(final(self)@ as u64, 4, 2) == value,
    {
        proof {
            lemma_low_mask_values();
        }
        self.0 = insert_u8(self.0, 4, 2, value);
    }

    /// Sets `lbw` to `value`, or returns `Err` and leaves the register as it
    /// is where `value` exceeds `0x3`.
    pub fn set_lbw_checked(&mut self, value: u8) -> (done: Result<(), ()>)
        ensures
            value <= 0x3 ==> done is Ok && final(self)@ == insert(
                old(self)@ as u64,
                4,
                2,
                value as u64,
            ),
            value > 0x3 ==> done is Err && final(self)@ == old(self)@,
    {
        if value > 0x3 {
            return Err(());
        }
        self.set_lbw(value);
        Ok(())
    }
}

impl Default for RfnPll {
    fn default() -> (reg: Self)
        ensures
            reg@ == 0,
    {
        Self::new()
    }
}

impl From<u8> for RfnPll {
    fn from(v: u8) -> (reg: Self) {
        Self(v)
    }
}

impl FromSpecImpl<u8> for RfnPll {
    open spec fn obeys_from_spec() -> bool {
        true
    }

    open spec fn from_spec(v: u8) -> Self {
        RfnPll(v)
    }
}

impl From<RfnPll> for u8 {
    fn from(v: RfnPll) -> (bits: u8) {
        v.0
    }
}

impl FromSpecImpl<RfnPll> for u8 {
    open spec fn obeys_from_spec() -> bool {
        true
    }

    open spec fn from_spec(v: RfnPll) -> u8 {
        v.0
    }
}

/// RFn_PLLCF - PLL Center Frequency Value (Read Only)
///
/// Center frequency calibration value for current channel.
#[derive(Debug, Clone, Copy, PartialEq, Eq)]
pub struct RfnPllcf(pub u8);

impl View for RfnPllcf {
    type V = u8;

    open spec fn view(&self) -> u8 {
        self.0
    }
}

impl RfnPllcf {
    /// The register with every field at its reset value.
    pub fn new() -> (reg: Self)
        ensures
            reg@ == 0,
    {
        Self(0)
    }

    /// The register that holds `bits`.
    pub fn from_bits(bits: u8) -> (reg: Self)
        ensures
            reg@ == bits,
    {
        Self(bits)
    }

    /// The bits that the register holds.
    pub fn into_bits(self) -> (bits: u8)
        ensures
            bits == self@,
    {
        self.0
    }

    /// PLL Center Frequency Value
    ///
    /// Bits: 0..6
    pub fn cf(&self) -> (value: u8)
        ensures
            value == extract(self@ as u64, 0, 6),
    {
        extract_u8(self.0, 0, 6)
    }
}

impl Default for RfnPllcf {
    fn default() -> (reg: Self)
        ensures
            reg@ == 0,
    {
        Self::new()
    }
}

impl From<u8> for RfnPllcf {
    fn from(v: u8) -> (reg: Self) {
        Self(v)
    }
}

impl FromSpecImpl<u8> for RfnPllcf {
    open spec fn obeys_from_spec() -> bool {
        true
    }

    open spec fn from_spec(v: u8) -> Self {
        RfnPllcf(v)
    }
}

impl From<RfnPllcf> for u8 {
    fn from(v: RfnPllcf) -> (bits: u8) {
        v.0
    }
}

impl FromSpecImpl<RfnPllcf> for u8 {
    open spec fn obeys_from_spec() -> bool {
        true
    }

    open spec fn from_spec(v: RfnPllcf) -> u8 {
        v.0
    }
}

/// RFn_TXCUTC - Transmitter Filter Cutoff Control and PA Ramp Time
///
/// Configures TX filter and power amplifier ramp.
#[derive(Debug, Clone, Copy, PartialEq, Eq)]
pub struct RfnTxcutc(pub u8);

impl View for RfnTxcutc {
    type V = u8;

    open spec fn view(&self) -> u8 {
        self.0
    }
}

impl RfnTxcutc {
    /// The register with every field at its reset value.
    pub fn new() -> (reg: Self)
        ensures
            reg@ == 0,
    {
        Self(0)
    }

    /// The register that holds `bits`.
    pub fn from_bits(bits: u8) -> (reg: Self)
        ensures
            reg@ == bits,
    {
        Self(bits)
    }

    /// The bits that the register holds.
    pub fn into_bits(self) -> (bits: u8)
        ensures
            bits == self@,
    {
        self.0
    }

    /// Transmitter Cut-off Frequency
    /// - 0: 80kHz
    /// - 1: 100kHz
    /// - 2: 125kHz
    /// - 3: 160kHz
    /// - 4: 200kHz
    /// - 5: 250kHz
    /// - 6: 315kHz
    /// - 7: 400kHz
    /// - 8: 500kHz
    /// - 9: 625kHz
    /// - 10: 800kHz
    /// - 11: 1000kHz
    ///
    /// Bits: 0..4
    pub fn lpfcut(&self) -> (value: u8)
        ensures
            value == extract(self@ as u64, 0, 4),
    {
        extract_u8(self.0, 0, 4)
    }

    /// Returns the register with `lpfcut` set to `value`.
    pub fn with_lpfcut(self, value: u8) -> (reg: Self)
        requires
            value <= 0xF,
        ensures
            reg@ == insert(self@ as u64, 0, 4, value as u64),
            extract(reg@ as u64, 0, 4) == value,
    {
        proof {
            lemma_low_mask_values();
        }
        Self(insert_u8(self.0, 0, 4, value))
    }

    /// Returns the register with `lpfcut` set to `value`, or `Err` where `value`
    /// exceeds `0xF`.
    pub fn with_lpfcut_checked(self, value: u8) -> (reg: Result<Self, ()>)
        ensures
            value <= 0xF ==> reg is Ok && reg.unwrap()@ == insert(self@ as u64, 0, 4, value as u64),
            value > 0xF ==> reg is Err,
    {
        if value > 0xF {
            return Err(());
        }
        Ok(self.with_lpfcut(value))
    }

    /// Sets `lpfcut` to `value`.
    pub fn set_lpfcut(&mut self, value: u8)
        requires
            value <= 0xF,
        ensures
            final(self)@ == insert(old(self)@ as u64, 0, 4, value as u64),
            extract(final(self)@ as u64, 0, 4) == value,
    {
        proof {
            lemma_low_mask_values();
        }
        self.0 = insert_u8(self.0, 0, 4, value);
    }

    /// Sets `lpfcut` to `value`, or returns `Err` and leaves the register as it
    /// is where `value` exceeds `0xF`.
    pub fn set_lpfcut_checked(&mut self, value: u8) -> (done: Result<(), ()>)
        ensures
            value <= 0xF ==> done is Ok && final(self)@ == insert(
                old(self)@ as u64,
                0,
                4,
                value as u64,
            ),
            value > 0xF ==> done is Err && final(self)@ == old(self)@,
    {
        if value > 0xF {
            return Err(());
        }
        self.set_lpfcut(value);
        Ok(())
    }

    /// Power Amplifier Ramp Time
    /// - 0: 4µs
    /// - 1: 8µs
    /// - 2: 16µs
    /// - 3: 32µs
    ///
    /// Bits: 6..8
    pub fn paramp(&self) -> (value: u8)
        ensures
            value == extract(self@ as u64, 6, 2),
    {
        extract_u8(self.0, 6, 2)
    }

    /// Returns the register with `paramp` set to `value`.
    pub fn with_paramp(self, value: u8) -> (reg: Self)
        requires
            value <= 0x3,
        ensures
            reg@ == insert(self@ as u64, 6, 2, value as u64),
            extract(reg@ as u64, 6, 2) == value,
    {
        proof {
            lemma_low_mask_values();
        }
        Self(insert_u8(self.0, 6, 2, value))
    }

    /// Returns the register with `paramp` set to `value`, or `Err` where `value`
    /// exceeds `0x3`.
    pub fn with_paramp_checked(self, value: u8) -> (reg: Result<Self, ()>)
        ensures
            value <= 0x3 ==> reg is Ok && reg.unwrap()@ == insert(self@ as u64, 6, 2, value as u64),
            value > 0x3 ==> reg is Err,
    {
        if value > 0x3 {
            return Err(());
        }
        Ok(self.with_paramp(value))
    }

    /// Sets `paramp` to `value`.
    pub fn set_paramp(&mut self, value: u8)
        requires
            value <= 0x3,
        ensures
            final(self)@ == insert(old(self)@ as u64, 6, 2, value as u64),
            extract(final(self)@ as u64, 6, 2) == value,
    {
        proof {
            lemma_low_mask_values();
        }
        self.0 = insert_u8(self.0, 6, 2, value);
    }

    /// Sets `paramp` to `value`, or returns `Err` and leaves the register as it
    /// is where `value` exceeds `0x3`.
    pub fn set_paramp_checked(&mut self, value: u8) -> (done: Result<(), ()>)
        ensures
            value <= 0x3 ==> done is Ok && final(self)@ == insert(
                old(self)@ as u64,
                6,
                2,
                value as u64,
            ),
            value > 0x3 ==> done is Err && final(self)@ == old(self)@,
    {
        if value > 0x3 {
            return Err(());
        }
        self.set_paramp(value);
        Ok(())
    }
}

impl Default for RfnTxcutc {
    fn default() -> (reg: Self)
        ensures
            reg@ == 0,
    {
        Self::new()
    }
}

impl From<u8> for RfnTxcutc {
    fn from(v: u8) -> (reg: Self) {
        Self(v)
    }
}

impl FromSpecImpl<u8> for RfnTxcutc {
    open spec fn obeys_from_spec() -> bool {
        true
    }

    open spec fn from_spec(v: u8) -> Self {
        RfnTxcutc(v)
    }
}

impl From<RfnTxcutc> for u8 {
    fn from(v: RfnTxcutc) -> (bits: u8) {
        v.0
    }
}

impl FromSpecImpl<RfnTxcutc> for u8 {
    open spec fn obeys_from_spec() -> bool {
        true
    }

    open spec fn from_spec(v: RfnTxcutc) -> u8 {
        v.0
    }
}

/// RFn_TXDFE - Transmitter Digital Frontend
///
/// Configures transmitter sampling rate and filter.
#[derive(Debug, Clone, Copy, PartialEq, Eq)]
pub struct RfnTxdfe(pub u8);

impl View for RfnTxdfe {
    type V = u8;

    open spec fn view(&self) -> u8 {
        self.0
    }
}

impl RfnTxdfe {
    /// The register with every field at its reset value.
    pub fn new() -> (reg: Self)
        ensures
            reg@ == 0,
    {
        Self(0)
    }

    /// The register that holds `bits`.
    pub fn from_bits(bits: u8) -> (reg: Self)
        ensures
            reg@ == bits,
    {
        Self(bits)
    }

    /// The bits that the register holds.
    pub fn into_bits(self) -> (bits: u8)
        ensures
            bits == self@,
    {
        self.0
    }

    /// TX Sample Rate
    /// - 1: 4000kHz
    /// - 2: 2000kHz
    /// - 3: 4000/3 kHz
    /// - 4: 1000kHz
    /// - 5: 800kHz
    /// - 6: 2000/3 kHz
    /// - 8: 500kHz
    /// - 10: 400kHz
    ///
    /// Bits: 0..4
    pub fn sr(&self) -> (value: u8)
        ensures
            value == extract(self@ as u64, 0, 4),
    {
        extract_u8(self.0, 0, 4)
    }

    /// Returns the register with `sr` set to `value`.
    pub fn with_sr(self, value: u8) -> (reg: Self)
        requires
            value <= 0xF,
        ensures
            reg@ == insert(self@ as u64, 0, 4, value as u64),
            extract(reg@ as u64, 0, 4) == value,
    {
        proof {
            lemma_low_mask_values();
        }
        Self(insert_u8(self.0, 0, 4, value))
    }

    /// Returns the register with `sr` set to `value`, or `Err` where `value`
    /// exceeds `0xF`.
    pub fn with_sr_checked(self, value: u8) -> (reg: Result<Self, ()>)
        ensures
            value <= 0xF ==> reg is Ok && reg.unwrap()@ == insert(self@ as u64, 0, 4, value as u64),
            value > 0xF ==> reg is Err,
    {
        if value > 0xF {
            return Err(());
        }
        Ok(self.with_sr(value))
    }

    /// Sets `sr` to `value`.
    pub fn set_sr(&mut self, value: u8)
        requires
            value <= 0xF,
        ensures
            final(self)@ == insert(old(self)@ as u64, 0, 4, value as u64),
            extract(final(self)@ as u64, 0, 4) == value,
    {
        proof {
            lemma_low_mask_values();
        }
        self.0 = insert_u8(self.0, 0, 4, value);
    }

    /// Sets `sr` to `value`, or returns `Err` and leaves the register as it
    /// is where `value` exceeds `0xF`.
    pub fn set_sr_checked(&mut self, value: u8) -> (done: Result<(), ()>)
        ensures
            value <= 0xF ==> done is Ok && final(self)@ == insert(
                old(self)@ as u64,
                0,
                4,
                value as u64,
            ),
            value > 0xF ==> done is Err && final(self)@ == old(self)@,
    {
        if value > 0xF {
            return Err(());
        }
        self.set_sr(value);
        Ok(())
    }

    /// Direct Modulation
    /// - 0: Direct modulation disabled
    /// - 1: Direct modulation enabled (for FSK/OQPSK)
    ///
    /// Bits: 4..5
    pub fn dm(&self) -> (value: bool)
        ensures
            value == (extract(self@ as u64, 4, 1) != 0),
    {
        extract_u8(self.0, 4, 1) != 0
    }

    /// Returns the register with `dm` set to `value`.
    pub fn with_dm(self, value: bool) -> (reg: Self)
        ensures
            reg@ == insert(self@ as u64, 4, 1, value as u64),
            (extract(reg@ as u64, 4, 1) != 0) == value,
    {
        proof {
            lemma_low_mask_values();
        }
        Self(insert_u8(self.0, 4, 1, value as u8))
    }

    /// Returns the register with `dm` set to `value`. Every value fits the
    /// field, so the result is always `Ok`.
    pub fn with_dm_checked(self, value: bool) -> (reg: Result<Self, ()>)
        ensures
            reg is Ok,
            reg.unwrap()@ == insert(self@ as u64, 4, 1, value as u64),
    {
        Ok(self.with_dm(value))
    }

    /// Sets `dm` to `value`.
    pub fn set_dm(&mut self, value: bool)
        ensures
            final(self)@ == insert(old(self)@ as u64, 4, 1, value as u64),
            (extract(final(self)@ as u64, 4, 1) != 0) == value,
    {
        proof {
            lemma_low_mask_values();
        }
        self.0 = insert_u8(self.0, 4, 1, value as u8);
    }

    /// Sets `dm` to `value`. Every value fits the field, so the result is
    /// always `Ok`.
    pub fn set_dm_checked(&mut self, value: bool) -> (done: Result<(), ()>)
        ensures
            done is Ok,
            final(self)@ == insert(old(self)@ as u64, 4, 1, value as u64),
    {
        self.set_dm(value);
        Ok(())
    }

    /// TX Filter Relative Cut-off Frequency
    /// - 0: 0.25 × fS/2
    /// - 1: 0.375 × fS/2
    /// - 2: 0.5 × fS/2
    /// - 3: 0.75 × fS/2
    /// - 4: 1.0 × fS/2 (bypass)
    ///
    /// Bits: 5..8
    pub fn rcut(&self) -> (value: u8)
        ensures
            value == extract(self@ as u64, 5, 3),
    {
        extract_u8(self.0, 5, 3)
    }

    /// Returns the register with `rcut` set to `value`.
    pub fn with_rcut(self, value: u8) -> (reg: Self)
        requires
            value <= 0x7,
        ensures
            reg@ == insert(self@ as u64, 5, 3, value as u64),
            extract(reg@ as u64, 5, 3) == value,
    {
        proof {
            lemma_low_mask_values();
        }
        Self(insert_u8(self.0, 5, 3, value))
    }

    /// Returns the register with `rcut` set to `value`, or `Err` where `value`
    /// exceeds `0x7`.
    pub fn with_rcut_checked(self, value: u8) -> (reg: Result<Self, ()>)
        ensures
            value <= 0x7 ==> reg is Ok && reg.unwrap()@ == insert(self@ as u64, 5, 3, value as u64),
            value > 0x7 ==> reg is Err,
    {
        if value > 0x7 {
            return Err(());
        }
        Ok(self.with_rcut(value))
    }

    /// Sets `rcut` to `value`.
    pub fn set_rcut(&mut self, value: u8)
        requires
            value <= 0x7,
        ensures
            final(self)@ == insert(old(self)@ as u64, 5, 3, value as u64),
            extract(final(self)@ as u64, 5, 3) == value,
    {
        proof {
            lemma_low_mask_values();
        }
        self.0 = insert_u8(self.0, 5, 3, value);
    }

    /// Sets `rcut` to `value`, or returns `Err` and leaves the register as it
    /// is where `value` exceeds `0x7`.
    pub fn set_rcut_checked(&mut self, value: u8) -> (done: Result<(), ()>)
        ensures
            value <= 0x7 ==> done is Ok && final(self)@ == insert(
                old(self)@ as u64,
                5,
                3,
                value as u64,
            ),
            value > 0x7 ==> done is Err && final(self)@ == old(self)@,
    {
        if value > 0x7 {
            return Err(());
        }
        self.set_rcut(value);
        Ok(())
    }
}

impl Default for RfnTxdfe {
    fn default() -> (reg: Self)
        ensures
            reg@ == 0,
    {
        Self::new()
    }
}

impl From<u8> for RfnTxdfe {
    fn from(v: u8) -> (reg: Self) {
        Self(v)
    }
}

impl FromSpecImpl<u8> for RfnTxdfe {
    open spec fn obeys_from_spec() -> bool {
        true
    }

    open spec fn from_spec(v: u8) -> Self {
        RfnTxdfe(v)
    }
}

impl From<RfnTxdfe> for u8 {
    fn from(v: RfnTxdfe) -> (bits: u8) {
        v.0
    }
}

impl FromSpecImpl<RfnTxdfe> for u8 {
    open spec fn obeys_from_spec() -> bool {
        true
    }

    open spec fn from_spec(v: RfnTxdfe) -> u8 {
        v.0
    }
}

/// RFn_PAC - Power Amplifier Control
///
/// Controls transmit power and PA bias current.
#[derive(Debug, Clone, Copy, PartialEq, Eq)]
pub struct RfnPac(pub u8);

impl View for RfnPac {
    type V = u8;

    open spec fn view(&self) -> u8 {
        self.0
    }
}

impl RfnPac {
    /// The register with every field at its reset value.
    pub fn new() -> (reg: Self)
        ensures
            reg@ == 0,
    {
        Self(0)
    }

    /// The register that holds `bits`.
    pub fn from_bits(bits: u8) -> (reg: Self)
        ensures
            reg@ == bits,
    {
        Self(bits)
    }

    /// The bits that the register holds.
    pub fn into_bits(self) -> (bits: u8)
        ensures
            bits == self@,
    {
        self.0
    }

    /// Transmitter Output Power
    /// - 0: Minimum output power
    /// - 31: Maximum output power
    /// Approximately 1dB steps
    ///
    /// Bits: 0..5
    pub fn txpwr(&self) -> (value: u8)
        ensures
            value == extract(self@ as u64, 0, 5),
    {
        extract_u8(self.0, 0, 5)
    }

    /// Returns the register with `txpwr` set to `value`.
    pub fn with_txpwr(self, value: u8) -> (reg: Self)
        requires
            value <= 0x1F,
        ensures
            reg@ == insert(self@ as u64, 0, 5, value as u64),
            extract(reg@ as u64, 0, 5) == value,
    {
        proof {
            lemma_low_mask_values();
        }
        Self(insert_u8(self.0, 0, 5, value))
    }

    /// Returns the register with `txpwr` set to `value`, or `Err` where `value`
    /// exceeds `0x1F`.
    pub fn with_txpwr_checked(self, value: u8) -> (reg: Result<Self, ()>)
        ensures
            value <= 0x1F ==> reg is Ok && reg.unwrap()@ == insert(
                self@ as u64,
                0,
                5,
                value as u64,
            ),
            value > 0x1F ==> reg is Err,
    {
        if value > 0x1F {
            return Err(());
        }
        Ok(self.with_txpwr(value))
    }

    /// Sets `txpwr` to `value`.
    pub fn set_txpwr(&mut self, value: u8)
        requires
            value <= 0x1F,
        ensures
            final(self)@ == insert(old(self)@ as u64, 0, 5, value as u64),
            extract(final(self)@ as u64, 0, 5) == value,
    {
        proof {
            lemma_low_mask_values();
        }
        self.0 = insert_u8(self.0, 0, 5, value);
    }

    /// Sets `txpwr` to `value`, or returns `Err` and leaves the register as it
    /// is where `value` exceeds `0x1F`.
    pub fn set_txpwr_checked(&mut self, value: u8) -> (done: Result<(), ()>)
        ensures
            value <= 0x1F ==> done is Ok && final(self)@ == insert(
                old(self)@ as u64,
                0,
                5,
                value as u64,
            ),
            value > 0x1F ==> done is Err && final(self)@ == old(self)@,
    {
        if value > 0x1F {
            return Err(());
        }
        self.set_txpwr(value);
        Ok(())
    }

    /// Power Amplifier Current Control
    /// - 0: ~22mA reduction (3dB gain reduction)
    /// - 1: ~18mA reduction (2dB gain reduction)
    /// - 2: ~11mA reduction (1dB gain reduction)
    /// - 3: No reduction (max gain)
    ///
    /// Bits: 5..7
    pub fn pacur(&self) -> (value: u8)
        ensures
            value == extract(self@ as u64, 5, 2),
    {
        extract_u8(self.0, 5, 2)
    }

    /// Returns the register with `pacur` set to `value`.
    pub fn with_pacur(self, value: u8) -> (reg: Self)
        requires
            value <= 0x3,
        ensures
            reg@ == insert(self@ as u64, 5, 2, value as u64),
            extract(reg@ as u64, 5, 2) == value,
    {
        proof {
            lemma_low_mask_values();
        }
        Self(insert_u8(self.0, 5, 2, value))
    }

    /// Returns the register with `pacur` set to `value`, or `Err` where `value`
    /// exceeds `0x3`.
    pub fn with_pacur_checked(self, value: u8) -> (reg: Result<Self, ()>)
        ensures
            value <= 0x3 ==> reg is Ok && reg.unwrap()@ == insert(self@ as u64, 5, 2, value as u64),
            value > 0x3 ==> reg is Err,
    {
        if value > 0x3 {
            return Err(());
        }
        Ok(self.with_pacur(value))
    }

    /// Sets `pacur` to `value`.
    pub fn set_pacur(&mut self, value: u8)
        requires
            value <= 0x3,
        ensures
            final(self)@ == insert(old(self)@ as u64, 5, 2, value as u64),
            extract(final(self)@ as u64, 5, 2) == value,
    {
        proof {
            lemma_low_mask_values();
        }
        self.0 = insert_u8(self.0, 5, 2, value);
    }

    /// Sets `pacur` to `value`, or returns `Err` and leaves the register as it
    /// is where `value` exceeds `0x3`.
    pub fn set_pacur_checked(&mut self, value: u8) -> (done: Result<(), ()>)
        ensures
            value <= 0x3 ==> done is Ok && final(self)@ == insert(
                old(self)@ as u64,
                5,
                2,
                value as u64,
            ),
            value > 0x3 ==> done is Err && final(self)@ == old(self)@,
    {
        if value > 0x3 {
            return Err(());
        }
        self.set_pacur(value);
        Ok(())
    }
}

impl Default for RfnPac {
    fn default() -> (reg: Self)
        ensures
            reg@ == 0,
    {
        Self::new()
    }
}

impl From<u8> for RfnPac {
    fn from(v: u8) -> (reg: Self) {
        Self(v)
    }
}

impl FromSpecImpl<u8> for RfnPac {
    open spec fn obeys_from_spec() -> bool {
        true
    }

    open spec fn from_spec(v: u8) -> Self {
        RfnPac(v)
    }
}

impl From<RfnPac> for u8 {
    fn from(v: RfnPac) -> (bits: u8) {
        v.0
    }
}

impl FromSpecImpl<RfnPac> for u8 {
    open spec fn obeys_from_spec() -> bool {
        true
    }

    open spec fn from_spec(v: RfnPac) -> u8 {
        v.0
    }
}

/// RFn_RNDV - Random Value (Read Only)
///
/// Random number value for random number generation.
#[derive(Debug, Clone, Copy, PartialEq, Eq)]
pub struct RfnRndv(pub u8);

impl View for RfnRndv {
    type V = u8;

    open spec fn view(&self) -> u8 {
        self.0
    }
}

impl RfnRndv {
    /// The register with every field at its reset value.
    pub fn new() -> (reg: Self)
        ensures
            reg@ == 0,
    {
        Self(0)
    }

    /// The register that holds `bits`.
    pub fn from_bits(bits: u8) -> (reg: Self)
        ensures
            reg@ == bits,
    {
        Self(bits)
    }

    /// The bits that the register holds.
    pub fn into_bits(self) -> (bits: u8)
        ensures
            bits == self@,
    {
        self.0
    }

    /// Random Value
    ///
    /// Bits: 0..8
    pub fn rndv(&self) -> (value: u8)
        ensures
            value == extract(self@ as u64, 0, 8),
    {
        extract_u8(self.0, 0, 8)
    }
}

impl Default for RfnRndv {
    fn default() -> (reg: Self)
        ensures
            reg@ == 0,
    {
        Self::new()
    }
}

impl From<u8> for RfnRndv {
    fn from(v: u8) -> (reg: Self) {
        Self(v)
    }
}

impl FromSpecImpl<u8> for RfnRndv {
    open spec fn obeys_from_spec() -> bool {
        true
    }

    open spec fn from_spec(v: u8) -> Self {
        RfnRndv(v)
    }
}

impl From<RfnRndv> for u8 {
    fn from(v: RfnRndv) -> (bits: u8) {
        v.0
    }
}

impl FromSpecImpl<RfnRndv> for u8 {
    open spec fn obeys_from_spec() -> bool {
        true
    }

    open spec fn from_spec(v: RfnRndv) -> u8 {
        v.0
    }
}

/// RFn_PADFE - Power Amplifier Digital Frontend Enhancement
///
/// PA frontend enhancement configuration.
#[derive(Debug, Clone, Copy, PartialEq, Eq)]
pub struct RfnPadfe(pub u8);

impl View for RfnPadfe {
    type V = u8;

    open spec fn view(&self) -> u8 {
        self.0
    }
}

impl RfnPadfe {
    /// The register with every field at its reset value.
    pub fn new() -> (reg: Self)
        ensures
            reg@ == 0,
    {
        Self(0)
    }

    /// The register that holds `bits`.
    pub fn from_bits(bits: u8) -> (reg: Self)
        ensures
            reg@ == bits,
    {
        Self(bits)
    }

    /// The bits that the register holds.
    pub fn into_bits(self) -> (bits: u8)
        ensures
            bits == self@,
    {
        self.0
    }

    /// PA Digital Frontend Enhancement
    ///
    /// Bits: 7..8
    pub fn padfe(&self) -> (value: bool)
        ensures
            value == (extract(self@ as u64, 7, 1) != 0),
    {
        extract_u8(self.0, 7, 1) != 0
    }

    /// Returns the register with `padfe` set to `value`.
    pub fn with_padfe(self, value: bool) -> (reg: Self)
        ensures
            reg@ == insert(self@ as u64, 7, 1, value as u64),
            (extract(reg@ as u64, 7, 1) != 0) == value,
    {
        proof {
            lemma_low_mask_values();
        }
        Self(insert_u8(self.0, 7, 1, value as u8))
    }

    /// Returns the register with `padfe` set to `value`. Every value fits the
    /// field, so the result is always `Ok`.
    pub fn with_padfe_checked(self, value: bool) -> (reg: Result<Self, ()>)
        ensures
            reg is Ok,
            reg.unwrap()@ == insert(self@ as u64, 7, 1, value as u64),
    {
        Ok(self.with_padfe(value))
    }

    /// Sets `padfe` to `value`.
    pub fn set_padfe(&mut self, value: bool)
        ensures
            final(self)@ == insert(old(self)@ as u64, 7, 1, value as u64),
            (extract(final(self)@ as u64, 7, 1) != 0) == value,
    {
        proof {
            lemma_low_mask_values();
        }
        self.0 = insert_u8(self.0, 7, 1, value as u8);
    }

    /// Sets `padfe` to `value`. Every value fits the field, so the result is
    /// always `Ok`.
    pub fn set_padfe_checked(&mut self, value: bool) -> (done: Result<(), ()>)
        ensures
            done is Ok,
            final(self)@ == insert(old(self)@ as u64, 7, 1, value as u64),
    {
        self.set_padfe(value);
        Ok(())
    }
}

impl Default for RfnPadfe {
    fn default() -> (reg: Self)
        ensures
            reg@ == 0,
    {
        Self::new()
    }
}

impl From<u8> for RfnPadfe {
    fn from(v: u8) -> (reg: Self) {
        Self(v)
    }
}

impl FromSpecImpl<u8> for RfnPadfe {
    open spec fn obeys_from_spec() -> bool {
        true
    }

    open spec fn from_spec(v: u8) -> Self {
        RfnPadfe(v)
    }
}

impl From<RfnPadfe> for u8 {
    fn from(v: RfnPadfe) -> (bits: u8) {
        v.0
    }
}

impl FromSpecImpl<RfnPadfe> for u8 {
    open spec fn obeys_from_spec() -> bool {
        true
    }

    open spec fn from_spec(v: RfnPadfe) -> u8 {
        v.0
    }
}

/// RFn_TXCI - Transmitter I DC Offset Calibration
///
/// DC offset calibration for I channel.
#[derive(Debug, Clone, Copy, PartialEq, Eq)]
pub struct RfnTxci(pub u8);

impl View for RfnTxci {
    type V = u8;

    open spec fn view(&self) -> u8 {
        self.0
    }
}

impl RfnTxci {
    /// The register with every field at its reset value.
    pub fn new() -> (reg: Self)
        ensures
            reg@ == 0,
    {
        Self(0)
    }

    /// The register that holds `bits`.
    pub fn from_bits(bits: u8) -> (reg: Self)
        ensures
            reg@ == bits,
    {
        Self(bits)
    }

    /// The bits that the register holds.
    pub fn into_bits(self) -> (bits: u8)
        ensures
            bits == self@,
    {
        self.0
    }

    /// DC Offset I
    ///
    /// Bits: 0..6
    pub fn dcoi(&self) -> (value: u8)
        ensures
            value == extract(self@ as u64, 0, 6),
    {
        extract_u8(self.0, 0, 6)
    }

    /// Returns the register with `dcoi` set to `value`.
    pub fn with_dcoi(self, value: u8) -> (reg: Self)
        requires
            value <= 0x3F,
        ensures
            reg@ == insert(self@ as u64, 0, 6, value as u64),
            extract(reg@ as u64, 0, 6) == value,
    {
        proof {
            lemma_low_mask_values();
        }
        Self(insert_u8(self.0, 0, 6, value))
    }

    /// Returns the register with `dcoi` set to `value`, or `Err` where `value`
    /// exceeds `0x3F`.
    pub fn with_dcoi_checked(self, value: u8) -> (reg: Result<Self, ()>)
        ensures
            value <= 0x3F ==> reg is Ok && reg.unwrap()@ == insert(
                self@ as u64,
                0,
                6,
                value as u64,
            ),
            value > 0x3F ==> reg is Err,
    {
        if value > 0x3F {
            return Err(());
        }
        Ok(self.with_dcoi(value))
    }

    /// Sets `dcoi` to `value`.
    pub fn set_dcoi(&mut self, value: u8)
        requires
            value <= 0x3F,
        ensures
            final(self)@ == insert(old(self)@ as u64, 0, 6, value as u64),
            extract(final(self)@ as u64, 0, 6) == value,
    {
        proof {
            lemma_low_mask_values();
        }
        self.0 = insert_u8(self.0, 0, 6, value);
    }

    /// Sets `dcoi` to `value`, or returns `Err` and leaves the register as it
    /// is where `value` exceeds `0x3F`.
    pub fn set_dcoi_checked(&mut self, value: u8) -> (done: Result<(), ()>)
        ensures
            value <= 0x3F ==> done is Ok && final(self)@ == insert(
                old(self)@ as u64,
                0,
                6,
                value as u64,
            ),
            value > 0x3F ==> done is Err && final(self)@ == old(self)@,
    {
        if value > 0x3F {
            return Err(());
        }
        self.set_dcoi(value);
        Ok(())
    }
}

impl Default for RfnTxci {
    fn default() -> (reg: Self)
        ensures
            reg@ == 0,
    {
        Self::new()
    }
}

impl From<u8> for RfnTxci {
    fn from(v: u8) -> (reg: Self) {
        Self(v)
    }
}

impl FromSpecImpl<u8> for RfnTxci {
    open spec fn obeys_from_spec() -> bool {
        true
    }

    open spec fn from_spec(v: u8) -> Self {
        RfnTxci(v)
    }
}

impl From<RfnTxci> for u8 {
    fn from(v: RfnTxci) -> (bits: u8) {
        v.0
    }
}

impl FromSpecImpl<RfnTxci> for u8 {
    open spec fn obeys_from_spec() -> bool {
        true
    }

    open spec fn from_spec(v: RfnTxci) -> u8 {
        v.0
    }
}

/// RFn_TXCQ - Transmitter Q DC Offset Calibration
///
/// DC offset calibration for Q channel.
#[derive(Debug, Clone, Copy, PartialEq, Eq)]
pub struct RfnTxcq(pub u8);

impl View for RfnTxcq {
    type V = u8;

    open spec fn view(&self) -> u8 {
        self.0
    }
}

impl RfnTxcq {
    /// The register with every field at its reset value.
    pub fn new() -> (reg: Self)
        ensures
            reg@ == 0,
    {
        Self(0)
    }

    /// The register that holds `bits`.
    pub fn from_bits(bits: u8) -> (reg: Self)
        ensures
            reg@ == bits,
    {
        Self(bits)
    }

    /// The bits that the register holds.
    pub fn into_bits(self) -> (bits: u8)
        ensures
            bits == self@,
    {
        self.0
    }

    /// DC Offset Q
    ///
    /// Bits: 0..6
    pub fn dcoq(&self) -> (value: u8)
        ensures
            value == extract(self@ as u64, 0, 6),
    {
        extract_u8(self.0, 0, 6)
    }

    /// Returns the register with `dcoq` set to `value`.
    pub fn with_dcoq(self, value: u8) -> (reg: Self)
        requires
            value <= 0x3F,
        ensures
            reg@ == insert(self@ as u64, 0, 6, value as u64),
            extract(reg@ as u64, 0, 6) == value,
    {
        proof {
            lemma_low_mask_values();
        }
        Self(insert_u8(self.0, 0, 6, value))
    }

    /// Returns the register with `dcoq` set to `value`, or `Err` where `value`
    /// exceeds `0x3F`.
    pub fn with_dcoq_checked(self, value: u8) -> (reg: Result<Self, ()>)
        ensures
            value <= 0x3F ==> reg is Ok && reg.unwrap()@ == insert(
                self@ as u64,
                0,
                6,
                value as u64,
            ),
            value > 0x3F ==> reg is Err,
    {
        if value > 0x3F {
            return Err(());
        }
        Ok(self.with_dcoq(value))
    }

    /// Sets `dcoq` to `value`.
    pub fn set_dcoq(&mut self, value: u8)
        requires
            value <= 0x3F,
        ensures
            final(self)@ == insert(old(self)@ as u64, 0, 6, value as u64),
            extract(final(self)@ as u64, 0, 6) == value,
    {
        proof {
            lemma_low_mask_values();
        }
        self.0 = insert_u8(self.0, 0, 6, value);
    }

    /// Sets `dcoq` to `value`, or returns `Err` and leaves the register as it
    /// is where `value` exceeds `0x3F`.
    pub fn set_dcoq_checked(&mut self, value: u8) -> (done: Result<(), ()>)
        ensures
            value <= 0x3F ==> done is Ok && final(self)@ == insert(
                old(self)@ as u64,
                0,
                6,
                value as u64,
            ),
            value > 0x3F ==> done is Err && final(self)@ == old(self)@,
    {
        if value > 0x3F {
            return Err(());
        }
        self.set_dcoq(value);
        Ok(())
    }
}

impl Default for RfnTxcq {
    fn default() -> (reg: Self)
        ensures
            reg@ == 0,
    {
        Self::new()
    }
}

impl From<u8> for RfnTxcq {
    fn from(v: u8) -> (reg: Self) {
        Self(v)
    }
}

impl FromSpecImpl<u8> for RfnTxcq {
    open spec fn obeys_from_spec() -> bool {
        true
    }

    open spec fn from_spec(v: u8) -> Self {
        RfnTxcq(v)
    }
}

impl From<RfnTxcq> for u8 {
    fn from(v: RfnTxcq) -> (bits: u8) {
        v.0
    }
}

impl FromSpecImpl<RfnTxcq> for u8 {
    open spec fn obeys_from_spec() -> bool {
        true
    }

    open spec fn from_spec(v: RfnTxcq) -> u8 {
        v.0
    }
}

/// RFn_TXDACI - Transmitter I DAC Value
///
/// DAC value for I channel with enable bit.
#[derive(Debug, Clone, Copy, PartialEq, Eq)]
pub struct RfnTxdaci(pub u8);

impl View for RfnTxdaci {
    type V = u8;

    open spec fn view(&self) -> u8 {
        self.0
    }
}

impl RfnTxdaci {
    /// The register with every field at its reset value.
    pub fn new() -> (reg: Self)
        ensures
            reg@ == 0,
    {
        Self(0)
    }

    /// The register that holds `bits`.
    pub fn from_bits(bits: u8) -> (reg: Self)
        ensures
            reg@ == bits,
    {
        Self(bits)
    }

    /// The bits that the register holds.
    pub fn into_bits(self) -> (bits: u8)
        ensures
            bits == self@,
    {
        self.0
    }

    /// TX DAC I Value
    ///
    /// Bits: 0..7
    pub fn txdacid(&self) -> (value: u8)
        ensures
            value == extract(self@ as u64, 0, 7),
    {
        extract_u8(self.0, 0, 7)
    }

    /// Returns the register with `txdacid` set to `value`.
    pub fn with_txdacid(self, value: u8) -> (reg: Self)
        requires
            value <= 0x7F,
        ensures
            reg@ == insert(self@ as u64, 0, 7, value as u64),
            extract(reg@ as u64, 0, 7) == value,
    {
        proof {
            lemma_low_mask_values();
        }
        Self(insert_u8(self.0, 0, 7, value))
    }

    /// Returns the register with `txdacid` set to `value`, or `Err` where `value`
    /// exceeds `0x7F`.
    pub fn with_txdacid_checked(self, value: u8) -> (reg: Result<Self, ()>)
        ensures
            value <= 0x7F ==> reg is Ok && reg.unwrap()@ == insert(
                self@ as u64,
                0,
                7,
                value as u64,
            ),
            value > 0x7F ==> reg is Err,
    {
        if value > 0x7F {
            return Err(());
        }
        Ok(self.with_txdacid(value))
    }

    /// Sets `txdacid` to `value`.
    pub fn set_txdacid(&mut self, value: u8)
        requires
            value <= 0x7F,
        ensures
            final(self)@ == insert(old(self)@ as u64, 0, 7, value as u64),
            extract(final(self)@ as u64, 0, 7) == value,
    {
        proof {
            lemma_low_mask_values();
        }
        self.0 = insert_u8(self.0, 0, 7, value);
    }

    /// Sets `txdacid` to `value`, or returns `Err` and leaves the register as it
    /// is where `value` exceeds `0x7F`.
    pub fn set_txdacid_checked(&mut self, value: u8) -> (done: Result<(), ()>)
        ensures
            value <= 0x7F ==> done is Ok && final(self)@ == insert(
                old(self)@ as u64,
                0,
                7,
                value as u64,
            ),
            value > 0x7F ==> done is Err && final(self)@ == old(self)@,
    {
        if value > 0x7F {
            return Err(());
        }
        self.set_txdacid(value);
        Ok(())
    }

    /// Enable TX DAC I Direct Mode
    ///
    /// Bits: 7..8
    pub fn entxdacid(&self) -> (value: bool)
        ensures
            value == (extract(self@ as u64, 7, 1) != 0),
    {
        extract_u8(self.0, 7, 1) != 0
    }

    /// Returns the register with `entxdacid` set to `value`.
    pub fn with_entxdacid(self, value: bool) -> (reg: Self)
        ensures
            reg@ == insert(self@ as u64, 7, 1, value as u64),
            (extract(reg@ as u64, 7, 1) != 0) == value,
    {
        proof {
            lemma_low_mask_values();
        }
        Self(insert_u8(self.0, 7, 1, value as u8))
    }

    /// Returns the register with `entxdacid` set to `value`. Every value fits the
    /// field, so the result is always `Ok`.
    pub fn with_entxdacid_checked(self, value: bool) -> (reg: Result<Self, ()>)
        ensures
            reg is Ok,
            reg.unwrap()@ == insert(self@ as u64, 7, 1, value as u64),
    {
        Ok(self.with_entxdacid(value))
    }

    /// Sets `entxdacid` to `value`.
    pub fn set_entxdacid(&mut self, value: bool)
        ensures
            final(self)@ == insert(old(self)@ as u64, 7, 1, value as u64),
            (extract(final(self)@ as u64, 7, 1) != 0) == value,
    {
        proof {
            lemma_low_mask_values();
        }
        self.0 = insert_u8(self.0, 7, 1, value as u8);
    }

    /// Sets `entxdacid` to `value`. Every value fits the field, so the result is
    /// always `Ok`.
    pub fn set_entxdacid_checked(&mut self, value: bool) -> (done: Result<(), ()>)
        ensures
            done is Ok,
            final(self)@ == insert(old(self)@ as u64, 7, 1, value as u64),
    {
        self.set_entxdacid(value);
        Ok(())
    }
}

impl Default for RfnTxdaci {
    fn default() -> (reg: Self)
        ensures
            reg@ == 0,
    {
        Self::new()
    }
}

impl From<u8> for RfnTxdaci {
    fn from(v: u8) -> (reg: Self) {
        Self(v)
    }
}

impl FromSpecImpl<u8> for RfnTxdaci {
    open spec fn obeys_from_spec() -> bool {
        true
    }

    open spec fn from_spec(v: u8) -> Self {
        RfnTxdaci(v)
    }
}

impl From<RfnTxdaci> for u8 {
    fn from(v: RfnTxdaci) -> (bits: u8) {
        v.0
    }
}

impl FromSpecImpl<RfnTxdaci> for u8 {
    open spec fn obeys_from_spec() -> bool {
        true
    }

    open spec fn from_spec(v: RfnTxdaci) -> u8 {
        v.0
    }
}

/// RFn_TXDACQ - Transmitter Q DAC Value
///
/// DAC value for Q channel with enable bit.
#[derive(Debug, Clone, Copy, PartialEq, Eq)]
pub struct RfnTxdacq(pub u8);

impl View for RfnTxdacq {
    type V = u8;

    open spec fn view(&self) -> u8 {
        self.0
    }
}

impl RfnTxdacq {
    /// The register with every field at its reset value.
    pub fn new() -> (reg: Self)
        ensures
            reg@ == 0,
    {
        Self(0)
    }

    /// The register that holds `bits`.
    pub fn from_bits(bits: u8) -> (reg: Self)
        ensures
            reg@ == bits,
    {
        Self(bits)
    }

    /// The bits that the register holds.
    pub fn into_bits(self) -> (bits: u8)
        ensures
            bits == self@,
    {
        self.0
    }

    /// TX DAC Q Value
    ///
    /// Bits: 0..7
    pub fn txdacqd(&self) -> (value: u8)
        ensures
            value == extract(self@ as u64, 0, 7),
    {
        extract_u8(self.0, 0, 7)
    }

    /// Returns the register with `txdacqd` set to `value`.
    pub fn with_txdacqd(self, value: u8) -> (reg: Self)
        requires
            value <= 0x7F,
        ensures
            reg@ == insert(self@ as u64, 0, 7, value as u64),
            extract(reg@ as u64, 0, 7) == value,
    {
        proof {
            lemma_low_mask_values();
        }
        Self(insert_u8(self.0, 0, 7, value))
    }

    /// Returns the register with `txdacqd` set to `value`, or `Err` where `value`
    /// exceeds `0x7F`.
    pub fn with_txdacqd_checked(self, value: u8) -> (reg: Result<Self, ()>)
        ensures
            value <= 0x7F ==> reg is Ok && reg.unwrap()@ == insert(
                self@ as u64,
                0,
                7,
                value as u64,
            ),
            value > 0x7F ==> reg is Err,
    {
        if value > 0x7F {
            return Err(());
        }
        Ok(self.with_txdacqd(value))
    }

    /// Sets `txdacqd` to `value`.
    pub fn set_txdacqd(&mut self, value: u8)
        requires
            value <= 0x7F,
        ensures
            final(self)@ == insert(old(self)@ as u64, 0, 7, value as u64),
            extract(final(self)@ as u64, 0, 7) == value,
    {
        proof {
            lemma_low_mask_values();
        }
        self.0 = insert_u8(self.0, 0, 7, value);
    }

    /// Sets `txdacqd` to `value`, or returns `Err` and leaves the register as it
    /// is where `value` exceeds `0x7F`.
    pub fn set_txdacqd_checked(&mut self, value: u8) -> (done: Result<(), ()>)
        ensures
            value <= 0x7F ==> done is Ok && final(self)@ == insert(
                old(self)@ as u64,
                0,
                7,
                value as u64,
            ),
            value > 0x7F ==> done is Err && final(self)@ == old(self)@,
    {
        if value > 0x7F {
            return Err(());
        }
        self.set_txdacqd(value);
        Ok(())
    }

    /// Enable TX DAC Q Direct Mode
    ///
    /// Bits: 7..8
    pub fn entxdacqd(&self) -> (value: bool)
        ensures
            value == (extract(self@ as u64, 7, 1) != 0),
    {
        extract_u8(self.0, 7, 1) != 0
    }

    /// Returns the register with `entxdacqd` set to `value`.
    pub fn with_entxdacqd(self, value: bool) -> (reg: Self)
        ensures
            reg@ == insert(self@ as u64, 7, 1, value as u64),
            (extract(reg@ as u64, 7, 1) != 0) == value,
    {
        proof {
            lemma_low_mask_values();
        }
        Self(insert_u8(self.0, 7, 1, value as u8))
    }

    /// Returns the register with `entxdacqd` set to `value`. Every value fits the
    /// field, so the result is always `Ok`.
    pub fn with_entxdacqd_checked(self, value: bool) -> (reg: Result<Self, ()>)
        ensures
            reg is Ok,
            reg.unwrap()@ == insert(self@ as u64, 7, 1, value as u64),
    {
        Ok(self.with_entxdacqd(value))
    }

    /// Sets `entxdacqd` to `value`.
    pub fn set_entxdacqd(&mut self, value: bool)
        ensures
            final(self)@ == insert(old(self)@ as u64, 7, 1, value as u64),
            (extract(final(self)@ as u64, 7, 1) != 0) == value,
    {
        proof {
            lemma_low_mask_values();
        }
        self.0 = insert_u8(self.0, 7, 1, value as u8);
    }

    /// Sets `entxdacqd` to `value`. Every value fits the field, so the result is
    /// always `Ok`.
    pub fn set_entxdacqd_checked(&mut self, value: bool) -> (done: Result<(), ()>)
        ensures
            done is Ok,
            final(self)@ == insert(old(self)@ as u64, 7, 1, value as u64),
    {
        self.set_entxdacqd(value);
        Ok(())
    }
}

impl Default for RfnTxdacq {
    fn default() -> (reg: Self)
        ensures
            reg@ == 0,
    {
        Self::new()
    }
}

impl From<u8> for RfnTxdacq {
    fn from(v: u8) -> (reg: Self) {
        Self(v)
    }
}

impl FromSpecImpl<u8> for RfnTxdacq {
    open spec fn obeys_from_spec() -> bool {
        true
    }

    open spec fn from_spec(v: u8) -> Self {
        RfnTxdacq(v)
    }
}

impl From<RfnTxdacq> for u8 {
    fn from(v: RfnTxdacq) -> (bits: u8) {
        v.0
    }
}

impl FromSpecImpl<RfnTxdacq> for u8 {
    open spec fn obeys_from_spec() -> bool {
        true
    }

    open spec fn from_spec(v: RfnTxdacq) -> u8 {
        v.0
    }
}

} // verus!
