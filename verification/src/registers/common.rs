//! Common chip registers.

use vstd::prelude::*;
use vstd::std_specs::convert::FromSpecImpl;
use crate::bits::{extract, extract_u8, insert, insert_u8, lemma_low_mask_values};
use crate::registers::fields::{ChipMode, ChipResetCmd, DevicePartNumber};

verus! {

/// RF_PN - Device Part Number (Read Only)
///
/// Contains the part number identifying the device variant.
#[derive(Debug, Clone, Copy, PartialEq, Eq)]
pub struct RfPn(pub u8);

impl View for RfPn {
    type V = u8;

    open spec fn view(&self) -> u8 {
        self.0
    }
}

impl RfPn {
    /// The register with every field at its reset value.
    pub fn new() -> (reg: Self)
        ensures
            reg@ == 0x34,
    {
        Self(0x34)
    }

    /// The register that holds `bits`.
    pub fn from_bits(bits: u8) -> (reg: Self)
        ensures
            reg@ == bits,
    {
        Self(bits)
    }

    /// The bits that the register holds.
    pub fn into_bits(self) -> (bits: u8)
        ensures
            bits == self@,
    {
        self.0
    }

    /// Device Part Number
    /// - 0x34: AT86RF215
    /// - 0x35: AT86RF215IQ
    /// - 0x36: AT86RF215M
    ///
    /// Bits: 0..8
    pub fn pn(&self) -> (value: DevicePartNumber)
        ensures
            value == DevicePartNumber::decode(extract(self@ as u64, 0, 8) as u8),
    {
        DevicePartNumber::from_bits(extract_u8(self.0, 0, 8))
    }
}

impl Default for RfPn {
    fn default() -> (reg: Self)
        ensures
            reg@ == 0x34,
    {
        Self::new()
    }
}

impl From<u8> for RfPn {
    fn from(v: u8) -> (reg: Self) {
        Self(v)
    }
}

impl FromSpecImpl<u8> for RfPn {
    open spec fn obeys_from_spec() -> bool {
        true
    }

    open spec fn from_spec(v: u8) -> Self {
        RfPn(v)
    }
}

impl From<RfPn> for u8 {
    fn from(v: RfPn) -> (bits: u8) {
        v.0
    }
}

impl FromSpecImpl<RfPn> for u8 {
    open spec fn obeys_from_spec() -> bool {
        true
    }

    open spec fn from_spec(v: RfPn) -> u8 {
        v.0
    }
}

/// RF_VN - Device Version Number (Read Only)
///
/// Contains the version number of the device.
/// - v1: 0x01
/// - v3: 0x03
#[derive(Debug, Clone, Copy, PartialEq, Eq)]
pub struct RfVn(pub u8);

impl View for RfVn {
    type V = u8;

    open spec fn view(&self) -> u8 {
        self.0
    }
}

impl RfVn {
    /// The register with every field at its reset value.
    pub fn new() -> (reg: Self)
        ensures
            reg@ == 0,
    {
        Self(0)
    }

    /// The register that holds `bits`.
    pub fn from_bits(bits: u8) -> (reg: Self)
        ensures
            reg@ == bits,
    {
        Self(bits)
    }

    /// The bits that the register holds.
    pub fn into_bits(self) -> (bits: u8)
        ensures
            bits == self@,
    {
        self.0
    }

    /// Version Number
    ///
    /// Bits: 0..8
    pub fn vn(&self) -> (value: u8)
        ensures
            value == extract(self@ as u64, 0, 8),
    {
        extract_u8(self.0, 0, 8)
    }
}

impl Default for RfVn {
    fn default() -> (reg: Self)
        ensures
            reg@ == 0,
    {
        Self::new()
    }
}

impl From<u8> for RfVn {
    fn from(v: u8) -> (reg: Self) {
        Self(v)
    }
}

impl FromSpecImpl<u8> for RfVn {
    open spec fn obeys_from_spec() -> bool {
        true
    }

    open spec fn from_spec(v: u8) -> Self {
        RfVn(v)
    }
}

impl From<RfVn> for u8 {
    fn from(v: RfVn) -> (bits: u8) {
        v.0
    }
}

impl FromSpecImpl<RfVn> for u8 {
    open spec fn obeys_from_spec() -> bool {
        true
    }

    open spec fn from_spec(v: RfVn) -> u8 {
        v.0
    }
}

/// RF_RST - Chip Reset Command
/// Writing 0x7 to CMD triggers a complete chip reset.
#[derive(Debug, Clone, Copy, PartialEq, Eq)]
pub struct RfRst(pub u8);

impl View for RfRst {
    type V = u8;

    open spec fn view(&self) -> u8 {
        self.0
    }
}

impl RfRst {
    /// The register with every field at its reset value.
    pub fn new() -> (reg: Self)
        ensures
            reg@ == 0x7,
    {
        Self(0x7)
    }

    /// The register that holds `bits`.
    pub fn from_bits(bits: u8) -> (reg: Self)
        ensures
            reg@ == bits,
    {
        Self(bits)
    }

    /// The bits that the register holds.
    pub fn into_bits(self) -> (bits: u8)
        ensures
            bits == self@,
    {
        self.0
    }

    /// Chip Reset Command
    /// - 0x7: Trigger chip reset
    /// - Other values: No operation
    ///
    /// Bits: 0..3
    pub fn cmd(&self) -> (value: ChipResetCmd)
        ensures
            value == ChipResetCmd::decode(extract(self@ as u64, 0, 3) as u8),
    {
        ChipResetCmd::from_bits(extract_u8(self.0, 0, 3))
    }

    /// Returns the register with `cmd` set to `value`.
    pub fn with_cmd(self, value: ChipResetCmd) -> (reg: Self)
        ensures
            reg@ == insert(self@ as u64, 0, 3, value.code() as u64),
            ChipResetCmd::decode(extract(reg@ as u64, 0, 3) as u8) == value,
    {
        proof {
            lemma_low_mask_values();
            value.lemma_decode_code();
        }
        Self(insert_u8(self.0, 0, 3, value.into_bits()))
    }

    /// Returns the register with `cmd` set to `value`. Every value fits the
    /// field, so the result is always `Ok`.
    pub fn with_cmd_checked(self, value: ChipResetCmd) -> (reg: Result<Self, ()>)
        ensures
            reg is Ok,
            reg.unwrap()@ == insert(self@ as u64, 0, 3, value.code() as u64),
    {
        Ok(self.with_cmd(value))
    }

    /// Sets `cmd` to `value`.
    pub fn set_cmd(&mut self, value: ChipResetCmd)
        ensures
            final(self)@ == insert(old(self)@ as u64, 0, 3, value.code() as u64),
            ChipResetCmd::decode(extract(final(self)@ as u64, 0, 3) as u8) == value,
    {
        proof {
            lemma_low_mask_values();
            value.lemma_decode_code();
        }
        self.0 = insert_u8(self.0, 0, 3, value.into_bits());
    }

    /// Sets `cmd` to `value`. Every value fits the field, so the result is
    /// always `Ok`.
    pub fn set_cmd_checked(&mut self, value: ChipResetCmd) -> (done: Result<(), ()>)
        ensures
            done is Ok,
            final(self)@ == insert(old(self)@ as u64, 0, 3, value.code() as u64),
    {
        self.set_cmd(value);
        Ok(())
    }
}

impl Default for RfRst {
    fn default() -> (reg: Self)
        ensures
            reg@ == 0x7,
    {
        Self::new()
    }
}

impl From<u8> for RfRst {
    fn from(v: u8) -> (reg: Self) {
        Self(v)
    }
}

impl FromSpecImpl<u8> for RfRst {
    open spec fn obeys_from_spec() -> bool {
        true
    }

    open spec fn from_spec(v: u8) -> Self {
        RfRst(v)
    }
}

impl From<RfRst> for u8 {
    fn from(v: RfRst) -> (bits: u8) {
        v.0
    }
}

impl FromSpecImpl<RfRst> for u8 {
    open spec fn obeys_from_spec() -> bool {
        true
    }

    open spec fn from_spec(v: RfRst) -> u8 {
        v.0
    }
}

/// RF_CFG - IRQ Configuration
///
/// Configures IRQ behavior and pad driver strength.
#[derive(Debug, Clone, Copy, PartialEq, Eq)]
pub struct RfCfg(pub u8);

impl View for RfCfg {
    type V = u8;

    open spec fn view(&self) -> u8 {
        self.0
    }
}

impl RfCfg {
    /// The register with every field at its reset value.
    pub fn new() -> (reg: Self)
        ensures
            reg@ == 0,
    {
        Self(0)
    }

    /// The register that holds `bits`.
    pub fn from_bits(bits: u8) -> (reg: Self)
        ensures
            reg@ == bits,
    {
        Self(bits)
    }

    /// The bits that the register holds.
    pub fn into_bits(self) -> (bits: u8)
        ensures
            bits == self@,
    {
        self.0
    }

    /// Output Driver Strength of Pads (IRQ, MISO, frontend control pins)
    /// - 0: 2mA
    /// - 1: 4mA
    /// - 2: 6mA
    /// - 3: 8mA
    ///
    /// Bits: 0..2
    pub fn drv(&self) -> (value: u8)
        ensures
            value == extract(self@ as u64, 0, 2),
    {
        extract_u8(self.0, 0, 2)
    }

    /// Returns the register with `drv` set to `value`.
    pub fn with_drv(self, value: u8) -> (reg: Self)
        requires
            value <= 0x3,
        ensures
            reg@ == insert(self@ as u64, 0, 2, value as u64),
            extract(reg@ as u64, 0, 2) == value,
    {
        proof {
            lemma_low_mask_values();
        }
        Self(insert_u8(self.0, 0, 2, value))
    }

    /// Returns the register with `drv` set to `value`, or `Err` where `value`
    /// exceeds `0x3`.
    pub fn with_drv_checked(self, value: u8) -> (reg: Result<Self, ()>)
        ensures
            value <= 0x3 ==> reg is Ok && reg.unwrap()@ == insert(self@ as u64, 0, 2, value as u64),
            value > 0x3 ==> reg is Err,
    {
        if value > 0x3 {
            return Err(());
        }
        Ok(self.with_drv(value))
    }

    /// Sets `drv` to `value`.
    pub fn set_drv(&mut self, value: u8)
        requires
            value <= 0x3,
        ensures
            final(self)@ == insert(old(self)@ as u64, 0, 2, value as u64),
            extract(final(self)@ as u64, 0, 2) == value,
    {
        proof {
            lemma_low_mask_values();
        }
        self.0 = insert_u8(self.0, 0, 2, value);
    }

    /// Sets `drv` to `value`, or returns `Err` and leaves the register as it
    /// is where `value` exceeds `0x3`.
    pub fn set_drv_checked(&mut self, value: u8) -> (done: Result<(), ()>)
        ensures
            value <= 0x3 ==> done is Ok && final(self)@ == insert(
                old(self)@ as u64,
                0,
                2,
                value as u64,
            ),
            value > 0x3 ==> done is Err && final(self)@ == old(self)@,
    {
        if value > 0x3 {
            return Err(());
        }
        self.set_drv(value);
        Ok(())
    }

    /// IRQ Polarity
    /// - 0: Active high
    /// - 1: Active low
    ///
    /// Bits: 2..3
    pub fn irqp(&self) -> (value: bool)
        ensures
            value == (extract(self@ as u64, 2, 1) != 0),
    {
        extract_u8(self.0, 2, 1) != 0
    }

    /// Returns the register with `irqp` set to `value`.
    pub fn with_irqp(self, value: bool) -> (reg: Self)
        ensures
            reg@ == insert(self@ as u64, 2, 1, value as u64),
            (extract(reg@ as u64, 2, 1) != 0) == value,
    {
        proof {
            lemma_low_mask_values();
        }
        Self(insert_u8(self.0, 2, 1, value as u8))
    }

    /// Returns the register with `irqp` set to `value`. Every value fits the
    /// field, so the result is always `Ok`.
    pub fn with_irqp_checked(self, value: bool) -> (reg: Result<Self, ()>)
        ensures
            reg is Ok,
            reg.unwrap()@ == insert(self@ as u64, 2, 1, value as u64),
    {
        Ok(self.with_irqp(value))
    }

    /// Sets `irqp` to `value`.
    pub fn set_irqp(&mut self, value: bool)
        ensures
            final(self)@ == insert(old(self)@ as u64, 2, 1, value as u64),
            (extract(final(self)@ as u64, 2, 1) != 0) == value,
    {
        proof {
            lemma_low_mask_values();
        }
        self.0 = insert_u8(self.0, 2, 1, value as u8);
    }

    /// Sets `irqp` to `value`. Every value fits the field, so the result is
    /// always `Ok`.
    pub fn set_irqp_checked(&mut self, value: bool) -> (done: Result<(), ()>)
        ensures
            done is Ok,
            final(self)@ == insert(old(self)@ as u64, 2, 1, value as u64),
    {
        self.set_irqp(value);
        Ok(())
    }

    /// IRQ Mask Mode
    /// - 0: Masked IRQ reasons do not appear in IRQS register
    /// - 1: Masked IRQ reasons do appear in IRQS register
    ///
    /// Bits: 3..4
    pub fn irqmm(&self) -> (value: bool)
        ensures
            value == (extract(self@ as u64, 3, 1) != 0),
    {
        extract_u8(self.0, 3, 1) != 0
    }

    /// Returns the register with `irqmm` set to `value`.
    pub fn with_irqmm(self, value: bool) -> (reg: Self)
        ensures
            reg@ == insert(self@ as u64, 3, 1, value as u64),
            (extract(reg@ as u64, 3, 1) != 0) == value,
    {
        proof {
            lemma_low_mask_values();
        }
        Self(insert_u8(self.0, 3, 1, value as u8))
    }

    /// Returns the register with `irqmm` set to `value`. Every value fits the
    /// field, so the result is always `Ok`.
    pub fn with_irqmm_checked(self, value: bool) -> (reg: Result<Self, ()>)
        ensures
            reg is Ok,
            reg.unwrap()@ == insert(self@ as u64, 3, 1, value as u64),
    {
        Ok(self.with_irqmm(value))
    }

    /// Sets `irqmm` to `value`.
    pub fn set_irqmm(&mut self, value: bool)
        ensures
            final(self)@ == insert(old(self)@ as u64, 3, 1, value as u64),
            (extract(final(self)@ as u64, 3, 1) != 0) == value,
    {
        proof {
            lemma_low_mask_values();
        }
        self.0 = insert_u8(self.0, 3, 1, value as u8);
    }

    /// Sets `irqmm` to `value`. Every value fits the field, so the result is
    /// always `Ok`.
    pub fn set_irqmm_checked(&mut self, value: bool) -> (done: Result<(), ()>)
        ensures
            done is Ok,
            final(self)@ == insert(old(self)@ as u64, 3, 1, value as u64),
    {
        self.set_irqmm(value);
        Ok(())
    }
}

impl Default for RfCfg {
    fn default() -> (reg: Self)
        ensures
            reg@ == 0,
    {
        Self::new()
    }
}

impl From<u8> for RfCfg {
    fn from(v: u8) -> (reg: Self) {
        Self(v)
    }
}

impl FromSpecImpl<u8> for RfCfg {
    open spec fn obeys_from_spec() -> bool {
        true
    }

    open spec fn from_spec(v: u8) -> Self {
        RfCfg(v)
    }
}

impl From<RfCfg> for u8 {
    fn from(v: RfCfg) -> (bits: u8) {
        v.0
    }
}

impl FromSpecImpl<RfCfg> for u8 {
    open spec fn obeys_from_spec() -> bool {
        true
    }

    open spec fn from_spec(v: RfCfg) -> u8 {
        v.0
    }
}

/// RF_CLKO - Clock Output Configuration
///
/// Controls the CLKO pin output signal frequency and driver strength.
#[derive(Debug, Clone, Copy, PartialEq, Eq)]
pub struct RfClko(pub u8);

impl View for RfClko {
    type V = u8;

    open spec fn view(&self) -> u8 {
        self.0
    }
}

impl RfClko {
    /// The register with every field at its reset value.
    pub fn new() -> (reg: Self)
        ensures
            reg@ == 0,
    {
        Self(0)
    }

    /// The register that holds `bits`.
    pub fn from_bits(bits: u8) -> (reg: Self)
        ensures
            reg@ == bits,
    {
        Self(bits)
    }

    /// The bits that the register holds.
    pub fn into_bits(self) -> (bits: u8)
        ensures
            bits == self@,
    {
        self.0
    }

    /// Clock Output Selection
    /// - 0: OFF
    /// - 1: 26MHz
    /// - 2: 32MHz
    /// - 3: 16MHz
    /// - 4: 8MHz
    /// - 5: 4MHz
    /// - 6: 2MHz
    /// - 7: 1MHz
    ///
    /// Bits: 0..3
    pub fn os(&self) -> (value: u8)
        ensures
            value == extract(self@ as u64, 0, 3),
    {
        extract_u8(self.0, 0, 3)
    }

    /// Returns the register with `os` set to `value`.
    pub fn with_os(self, value: u8) -> (reg: Self)
        requires
            value <= 0x7,
        ensures
            reg@ == insert(self@ as u64, 0, 3, value as u64),
            extract(reg@ as u64, 0, 3) == value,
    {
        proof {
            lemma_low_mask_values();
        }
        Self(insert_u8(self.0, 0, 3, value))
    }

    /// Returns the register with `os` set to `value`, or `Err` where `value`
    /// exceeds `0x7`.
    pub fn with_os_checked(self, value: u8) -> (reg: Result<Self, ()>)
        ensures
            value <= 0x7 ==> reg is Ok && reg.unwrap()@ == insert(self@ as u64, 0, 3, value as u64),
            value > 0x7 ==> reg is Err,
    {
        if value > 0x7 {
            return Err(());
        }
        Ok(self.with_os(value))
    }

    /// Sets `os` to `value`.
    pub fn set_os(&mut self, value: u8)
        requires
            value <= 0x7,
        ensures
            final(self)@ == insert(old(self)@ as u64, 0, 3, value as u64),
            extract(final(self)@ as u64, 0, 3) == value,
    {
        proof {
            lemma_low_mask_values();
        }
        self.0 = insert_u8(self.0, 0, 3, value);
    }

    /// Sets `os` to `value`, or returns `Err` and leaves the register as it
    /// is where `value` exceeds `0x7`.
    pub fn set_os_checked(&mut self, value: u8) -> (done: Result<(), ()>)
        ensures
            value <= 0x7 ==> done is Ok && final(self)@ == insert(
                old(self)@ as u64,
                0,
                3,
                value as u64,
            ),
            value > 0x7 ==> done is Err && final(self)@ == old(self)@,
    {
        if value > 0x7 {
            return Err(());
        }
        self.set_os(value);
        Ok(())
    }

    /// Output Driver Strength CLKO
    /// - 0: 2mA
    /// - 1: 4mA
    /// - 2: 6mA
    /// - 3: 8mA
    ///
    /// Bits: 3..5
    pub fn drv(&self) -> (value: u8)
        ensures
            value == extract(self@ as u64, 3, 2),
    {
        extract_u8(self.0, 3, 2)
    }

    /// Returns the register with `drv` set to `value`.
    pub fn with_drv(self, value: u8) -> (reg: Self)
        requires
            value <= 0x3,
        ensures
            reg@ == insert(self@ as u64, 3, 2, value as u64),
            extract(reg@ as u64, 3, 2) == value,
    {
        proof {
            lemma_low_mask_values();
        }
        Self(insert_u8(self.0, 3, 2, value))
    }

    /// Returns the register with `drv` set to `value`, or `Err` where `value`
    /// exceeds `0x3`.
    pub fn with_drv_checked(self, value: u8) -> (reg: Result<Self, ()>)
        ensures
            value <= 0x3 ==> reg is Ok && reg.unwrap()@ == insert(self@ as u64, 3, 2, value as u64),
            value > 0x3 ==> reg is Err,
    {
        if value > 0x3 {
            return Err(());
        }
        Ok(self.with_drv(value))
    }

    /// Sets `drv` to `value`.
    pub fn set_drv(&mut self, value: u8)
        requires
            value <= 0x3,
        ensures
            final(self)@ == insert(old(self)@ as u64, 3, 2, value as u64),
            extract(final(self)@ as u64, 3, 2) == value,
    {
        proof {
            lemma_low_mask_values();
        }
        self.0 = insert_u8(self.0, 3, 2, value);
    }

    /// Sets `drv` to `value`, or returns `Err` and leaves the register as it
    /// is where `value` exceeds `0x3`.
    pub fn set_drv_checked(&mut self, value: u8) -> (done: Result<(), ()>)
        ensures
            value <= 0x3 ==> done is Ok && final(self)@ == insert(
                old(self)@ as u64,
                3,
                2,
                value as u64,
            ),
            value > 0x3 ==> done is Err && final(self)@ == old(self)@,
    {
        if value > 0x3 {
            return Err(());
        }
        self.set_drv(value);
        Ok(())
    }
}

impl Default for RfClko {
    fn default() -> (reg: Self)
        ensures
            reg@ == 0,
    {
        Self::new()
    }
}

impl From<u8> for RfClko {
    fn from(v: u8) -> (reg: Self) {
        Self(v)
    }
}

impl FromSpecImpl<u8> for RfClko {
    open spec fn obeys_from_spec() -> bool {
        true
    }

    open spec fn from_spec(v: u8) -> Self {
        RfClko(v)
    }
}

impl From<RfClko> for u8 {
    fn from(v: RfClko) -> (bits: u8) {
        v.0
    }
}

impl FromSpecImpl<RfClko> for u8 {
    open spec fn obeys_from_spec() -> bool {
        true
    }

    open spec fn from_spec(v: RfClko) -> u8 {
        v.0
    }
}

/// RF_BMDVC - Battery Monitor and Voltage Configuration
///
/// Controls battery monitor and voltage regulator settings.
#[derive(Debug, Clone, Copy, PartialEq, Eq)]
pub struct RfBmdvc(pub u8);

impl View for RfBmdvc {
    type V = u8;

    open spec fn view(&self) -> u8 {
        self.0
    }
}

impl RfBmdvc {
    /// The register with every field at its reset value.
    pub fn new() -> (reg: Self)
        ensures
            reg@ == 0,
    {
        Self(0)
    }

    /// The register that holds `bits`.
    pub fn from_bits(bits: u8) -> (reg: Self)
        ensures
            reg@ == bits,
    {
        Self(bits)
    }

    /// The bits that the register holds.
    pub fn into_bits(self) -> (bits: u8)
        ensures
            bits == self@,
    {
        self.0
    }

    /// Battery Monitor Threshold
    /// Configures the battery monitor voltage threshold
    ///
    /// Bits: 0..4
    pub fn bmth(&self) -> (value: u8)
        ensures
            value == extract(self@ as u64, 0, 4),
    {
        extract_u8(self.0, 0, 4)
    }

    /// Returns the register with `bmth` set to `value`.
    pub fn with_bmth(self, value: u8) -> (reg: Self)
        requires
            value <= 0xF,
        ensures
            reg@ == insert(self@ as u64, 0, 4, value as u64),
            extract(reg@ as u64, 0, 4) == value,
    {
        proof {
            lemma_low_mask_values();
        }
        Self(insert_u8(self.0, 0, 4, value))
    }

    /// Returns the register with `bmth` set to `value`, or `Err` where `value`
    /// exceeds `0xF`.
    pub fn with_bmth_checked(self, value: u8) -> (reg: Result<Self, ()>)
        ensures
            value <= 0xF ==> reg is Ok && reg.unwrap()@ == insert(self@ as u64, 0, 4, value as u64),
            value > 0xF ==> reg is Err,
    {
        if value > 0xF {
            return Err(());
        }
        Ok(self.with_bmth(value))
    }

    /// Sets `bmth` to `value`.
    pub fn set_bmth(&mut self, value: u8)
        requires
            value <= 0xF,
        ensures
            final(self)@ == insert(old(self)@ as u64, 0, 4, value as u64),
            extract(final(self)@ as u64, 0, 4) == value,
    {
        proof {
            lemma_low_mask_values();
        }
        self.0 = insert_u8(self.0, 0, 4, value);
    }

    /// Sets `bmth` to `value`, or returns `Err` and leaves the register as it
    /// is where `value` exceeds `0xF`.
    pub fn set_bmth_checked(&mut self, value: u8) -> (done: Result<(), ()>)
        ensures
            value <= 0xF ==> done is Ok && final(self)@ == insert(
                old(self)@ as u64,
                0,
                4,
                value as u64,
            ),
            value > 0xF ==> done is Err && final(self)@ == old(self)@,
    {
        if value > 0xF {
            return Err(());
        }
        self.set_bmth(value);
        Ok(())
    }

    /// Battery Monitor Range
    /// - 0: Low range (1.7V - 3.0V)
    /// - 1: High range (2.0V - 3.6V)
    ///
    /// Bits: 4..5
    pub fn bmr(&self) -> (value: bool)
        ensures
            value == (extract(self@ as u64, 4, 1) != 0),
    {
        extract_u8(self.0, 4, 1) != 0
    }

    /// Returns the register with `bmr` set to `value`.
    pub fn with_bmr(self, value: bool) -> (reg: Self)
        ensures
            reg@ == insert(self@ as u64, 4, 1, value as u64),
            (extract(reg@ as u64, 4, 1) != 0) == value,
    {
        proof {
            lemma_low_mask_values();
        }
        Self(insert_u8(self.0, 4, 1, value as u8))
    }

    /// Returns the register with `bmr` set to `value`. Every value fits the
    /// field, so the result is always `Ok`.
    pub fn with_bmr_checked(self, value: bool) -> (reg: Result<Self, ()>)
        ensures
            reg is Ok,
            reg.unwrap()@ == insert(self@ as u64, 4, 1, value as u64),
    {
        Ok(self.with_bmr(value))
    }

    /// Sets `bmr` to `value`.
    pub fn set_bmr(&mut self, value: bool)
        ensures
            final(self)@ == insert(old(self)@ as u64, 4, 1, value as u64),
            (extract(final(self)@ as u64, 4, 1) != 0) == value,
    {
        proof {
            lemma_low_mask_values();
        }
        self.0 = insert_u8(self.0, 4, 1, value as u8);
    }

    /// Sets `bmr` to `value`. Every value fits the field, so the result is
    /// always `Ok`.
    pub fn set_bmr_checked(&mut self, value: bool) -> (done: Result<(), ()>)
        ensures
            done is Ok,
            final(self)@ == insert(old(self)@ as u64, 4, 1, value as u64),
    {
        self.set_bmr(value);
        Ok(())
    }

    /// Battery Monitor Enable
    /// - 0: Battery monitor disabled
    /// - 1: Battery monitor enabled
    ///
    /// Bits: 5..6
    pub fn bmen(&self) -> (value: bool)
        ensures
            value == (extract(self@ as u64, 5, 1) != 0),
    {
        extract_u8(self.0, 5, 1) != 0
    }

    /// Returns the register with `bmen` set to `value`.
    pub fn with_bmen(self, value: bool) -> (reg: Self)
        ensures
            reg@ == insert(self@ as u64, 5, 1, value as u64),
            (extract(reg@ as u64, 5, 1) != 0) == value,
    {
        proof {
            lemma_low_mask_values();
        }
        Self(insert_u8(self.0, 5, 1, value as u8))
    }

    /// Returns the register with `bmen` set to `value`. Every value fits the
    /// field, so the result is always `Ok`.
    pub fn with_bmen_checked(self, value: bool) -> (reg: Result<Self, ()>)
        ensures
            reg is Ok,
            reg.unwrap()@ == insert(self@ as u64, 5, 1, value as u64),
    {
        Ok(self.with_bmen(value))
    }

    /// Sets `bmen` to `value`.
    pub fn set_bmen(&mut self, value: bool)
        ensures
            final(self)@ == insert(old(self)@ as u64, 5, 1, value as u64),
            (extract(final(self)@ as u64, 5, 1) != 0) == value,
    {
        proof {
            lemma_low_mask_values();
        }
        self.0 = insert_u8(self.0, 5, 1, value as u8);
    }

    /// Sets `bmen` to `value`. Every value fits the field, so the result is
    /// always `Ok`.
    pub fn set_bmen_checked(&mut self, value: bool) -> (done: Result<(), ()>)
        ensures
            done is Ok,
            final(self)@ == insert(old(self)@ as u64, 5, 1, value as u64),
    {
        self.set_bmen(value);
        Ok(())
    }
}

impl Default for RfBmdvc {
    fn default() -> (reg: Self)
        ensures
            reg@ == 0,
    {
        Self::new()
    }
}

impl From<u8> for RfBmdvc {
    fn from(v: u8) -> (reg: Self) {
        Self(v)
    }
}

impl FromSpecImpl<u8> for RfBmdvc {
    open spec fn obeys_from_spec() -> bool {
        true
    }

    open spec fn from_spec(v: u8) -> Self {
        RfBmdvc(v)
    }
}

impl From<RfBmdvc> for u8 {
    fn from(v: RfBmdvc) -> (bits: u8) {
        v.0
    }
}

impl FromSpecImpl<RfBmdvc> for u8 {
    open spec fn obeys_from_spec() -> bool {
        true
    }

    open spec fn from_spec(v: RfBmdvc) -> u8 {
        v.0
    }
}

/// RF_XOC - Crystal Oscillator Configuration
///
/// Controls crystal oscillator settings and trim.
#[derive(Debug, Clone, Copy, PartialEq, Eq)]
pub struct RfXoc(pub u8);

impl View for RfXoc {
    type V = u8;

    open spec fn view(&self) -> u8 {
        self.0
    }
}

impl RfXoc {
    /// The register with every field at its reset value.
    pub fn new() -> (reg: Self)
        ensures
            reg@ == 0,
    {
        Self(0)
    }

    /// The register that holds `bits`.
    pub fn from_bits(bits: u8) -> (reg: Self)
        ensures
            reg@ == bits,
    {
        Self(bits)
    }

    /// The bits that the register holds.
    pub fn into_bits(self) -> (bits: u8)
        ensures
            bits == self@,
    {
        self.0
    }

    /// Crystal Oscillator Load Capacitance Trim
    /// Fine-tunes the crystal oscillator load capacitance
    ///
    /// Bits: 0..4
    pub fn trim(&self) -> (value: u8)
        ensures
            value == extract(self@ as u64, 0, 4),
    {
        extract_u8(self.0, 0, 4)
    }

    /// Returns the register with `trim` set to `value`.
    pub fn with_trim(self, value: u8) -> (reg: Self)
        requires
            value <= 0xF,
        ensures
            reg@ == insert(self@ as u64, 0, 4, value as u64),
            extract(reg@ as u64, 0, 4) == value,
    {
        proof {
            lemma_low_mask_values();
        }
        Self(insert_u8(self.0, 0, 4, value))
    }

    /// Returns the register with `trim` set to `value`, or `Err` where `value`
    /// exceeds `0xF`.
    pub fn with_trim_checked(self, value: u8) -> (reg: Result<Self, ()>)
        ensures
            value <= 0xF ==> reg is Ok && reg.unwrap()@ == insert(self@ as u64, 0, 4, value as u64),
            value > 0xF ==> reg is Err,
    {
        if value > 0xF {
            return Err(());
        }
        Ok(self.with_trim(value))
    }

    /// Sets `trim` to `value`.
    pub fn set_trim(&mut self, value: u8)
        requires
            value <= 0xF,
        ensures
            final(self)@ == insert(old(self)@ as u64, 0, 4, value as u64),
            extract(final(self)@ as u64, 0, 4) == value,
    {
        proof {
            lemma_low_mask_values();
        }
        self.0 = insert_u8(self.0, 0, 4, value);
    }

    /// Sets `trim` to `value`, or returns `Err` and leaves the register as it
    /// is where `value` exceeds `0xF`.
    pub fn set_trim_checked(&mut self, value: u8) -> (done: Result<(), ()>)
        ensures
            value <= 0xF ==> done is Ok && final(self)@ == insert(
                old(self)@ as u64,
                0,
                4,
                value as u64,
            ),
            value > 0xF ==> done is Err && final(self)@ == old(self)@,
    {
        if value > 0xF {
            return Err(());
        }
        self.set_trim(value);
        Ok(())
    }

    /// Crystal Oscillator Frequency Select
    /// - 0: 26MHz
    /// - 1: Reserved
    ///
    /// Bits: 4..5
    pub fn fs(&self) -> (value: u8)
        ensures
            value == extract(self@ as u64, 4, 1),
    {
        extract_u8(self.0, 4, 1)
    }

    /// Returns the register with `fs` set to `value`.
    pub fn with_fs(self, value: u8) -> (reg: Self)
        requires
            value <= 0x1,
        ensures
            reg@ == insert(self@ as u64, 4, 1, value as u64),
            extract(reg@ as u64, 4, 1) == value,
    {
        proof {
            lemma_low_mask_values();
        }
        Self(insert_u8(self.0, 4, 1, value))
    }

    /// Returns the register with `fs` set to `value`, or `Err` where `value`
    /// exceeds `0x1`.
    pub fn with_fs_checked(self, value: u8) -> (reg: Result<Self, ()>)
        ensures
            value <= 0x1 ==> reg is Ok && reg.unwrap()@ == insert(self@ as u64, 4, 1, value as u64),
            value > 0x1 ==> reg is Err,
    {
        if value > 0x1 {
            return Err(());
        }
        Ok(self.with_fs(value))
    }

    /// Sets `fs` to `value`.
    pub fn set_fs(&mut self, value: u8)
        requires
            value <= 0x1,
        ensures
            final(self)@ == insert(old(self)@ as u64, 4, 1, value as u64),
            extract(final(self)@ as u64, 4, 1) == value,
    {
        proof {
            lemma_low_mask_values();
        }
        self.0 = insert_u8(self.0, 4, 1, value);
    }

    /// Sets `fs` to `value`, or returns `Err` and leaves the register as it
    /// is where `value` exceeds `0x1`.
    pub fn set_fs_checked(&mut self, value: u8) -> (done: Result<(), ()>)
        ensures
            value <= 0x1 ==> done is Ok && final(self)@ == insert(
                old(self)@ as u64,
                4,
                1,
                value as u64,
            ),
            value > 0x1 ==> done is Err && final(self)@ == old(self)@,
    {
        if value > 0x1 {
            return Err(());
        }
        self.set_fs(value);
        Ok(())
    }
}

impl Default for RfXoc {
    fn default() -> (reg: Self)
        ensures
            reg@ == 0,
    {
        Self::new()
    }
}

impl From<u8> for RfXoc {
    fn from(v: u8) -> (reg: Self) {
        Self(v)
    }
}

impl FromSpecImpl<u8> for RfXoc {
    open spec fn obeys_from_spec() -> bool {
        true
    }

    open spec fn from_spec(v: u8) -> Self {
        RfXoc(v)
    }
}

impl From<RfXoc> for u8 {
    fn from(v: RfXoc) -> (bits: u8) {
        v.0
    }
}

impl FromSpecImpl<RfXoc> for u8 {
    open spec fn obeys_from_spec() -> bool {
        true
    }

    open spec fn from_spec(v: RfXoc) -> u8 {
        v.0
    }
}

/// RF_IQIFC0 - I/Q Data Interface Configuration 0
///
/// Configures I/Q data interface parameters.
#[derive(Debug, Clone, Copy, PartialEq, Eq)]
pub struct RfIqifc0(pub u8);

impl View for RfIqifc0 {
    type V = u8;

    open spec fn view(&self) -> u8 {
        self.0
    }
}

impl RfIqifc0 {
    /// The register with every field at its reset value.
    pub fn new() -> (reg: Self)
        ensures
            reg@ == 0,
    {
        Self(0)
    }

    /// The register that holds `bits`.
    pub fn from_bits(bits: u8) -> (reg: Self)
        ensures
            reg@ == bits,
    {
        Self(bits)
    }

    /// The bits that the register holds.
    pub fn into_bits(self) -> (bits: u8)
        ensures
            bits == self@,
    {
        self.0
    }

    /// I/Q IF Enable Embedded TX Start Control
    /// - 0: Embedded control not enabled
    /// - 1: Embedded control enabled
    ///
    /// Bits: 0..1
    pub fn eec(&self) -> (value: bool)
        ensures
            value == (extract(self@ as u64, 0, 1) != 0),
    {
        extract_u8(self.0, 0, 1) != 0
    }

    /// Returns the register with `eec` set to `value`.
    pub fn with_eec(self, value: bool) -> (reg: Self)
        ensures
            reg@ == insert(self@ as u64, 0, 1, value as u64),
            (extract(reg@ as u64, 0, 1) != 0) == value,
    {
        proof {
            lemma_low_mask_values();
        }
        Self(insert_u8(self.0, 0, 1, value as u8))
    }

    /// Returns the register with `eec` set to `value`. Every value fits the
    /// field, so the result is always `Ok`.
    pub fn with_eec_checked(self, value: bool) -> (reg: Result<Self, ()>)
        ensures
            reg is Ok,
            reg.unwrap()@ == insert(self@ as u64, 0, 1, value as u64),
    {
        Ok(self.with_eec(value))
    }

    /// Sets `eec` to `value`.
    pub fn set_eec(&mut self, value: bool)
        ensures
            final(self)@ == insert(old(self)@ as u64, 0, 1, value as u64),
            (extract(final(self)@ as u64, 0, 1) != 0) == value,
    {
        proof {
            lemma_low_mask_values();
        }
        self.0 = insert_u8(self.0, 0, 1, value as u8);
    }

    /// Sets `eec` to `value`. Every value fits the field, so the result is
    /// always `Ok`.
    pub fn set_eec_checked(&mut self, value: bool) -> (done: Result<(), ()>)
        ensures
            done is Ok,
            final(self)@ == insert(old(self)@ as u64, 0, 1, value as u64),
    {
        self.set_eec(value);
        Ok(())
    }

    /// I/Q IF Common Mode Voltage Compliant to IEEE Std 1596
    /// - 0: CMV sub-register value is valid
    /// - 1: Common mode of 1.2V is set
    ///
    /// Bits: 1..2
    pub fn cmv1v2(&self) -> (value: bool)
        ensures
            value == (extract(self@ as u64, 1, 1) != 0),
    {
        extract_u8(self.0, 1, 1) != 0
    }

    /// Returns the register with `cmv1v2` set to `value`.
    pub fn with_cmv1v2(self, value: bool) -> (reg: Self)
        ensures
            reg@ == insert(self@ as u64, 1, 1, value as u64),
            (extract(reg@ as u64, 1, 1) != 0) == value,
    {
        proof {
            lemma_low_mask_values();
        }
        Self(insert_u8(self.0, 1, 1, value as u8))
    }

    /// Returns the register with `cmv1v2` set to `value`. Every value fits the
    /// field, so the result is always `Ok`.
    pub fn with_cmv1v2_checked(self, value: bool) -> (reg: Result<Self, ()>)
        ensures
            reg is Ok,
            reg.unwrap()@ == insert(self@ as u64, 1, 1, value as u64),
    {
        Ok(self.with_cmv1v2(value))
    }

    /// Sets `cmv1v2` to `value`.
    pub fn set_cmv1v2(&mut self, value: bool)
        ensures
            final(self)@ == insert(old(self)@ as u64, 1, 1, value as u64),
            (extract(final(self)@ as u64, 1, 1) != 0) == value,
    {
        proof {
            lemma_low_mask_values();
        }
        self.0 = insert_u8(self.0, 1, 1, value as u8);
    }

    /// Sets `cmv1v2` to `value`. Every value fits the field, so the result is
    /// always `Ok`.
    pub fn set_cmv1v2_checked(&mut self, value: bool) -> (done: Result<(), ()>)
        ensures
            done is Ok,
            final(self)@ == insert(old(self)@ as u64, 1, 1, value as u64),
    {
        self.set_cmv1v2(value);
        Ok(())
    }

    /// I/Q IF Common Mode Voltage
    /// - 0: 150mV
    /// - 1: 200mV
    /// - 2: 250mV
    /// - 3: 300mV
    ///
    /// Bits: 2..4
    pub fn cmv(&self) -> (value: u8)
        ensures
            value == extract(self@ as u64, 2, 2),
    {
        extract_u8(self.0, 2, 2)
    }

    /// Returns the register with `cmv` set to `value`.
    pub fn with_cmv(self, value: u8) -> (reg: Self)
        requires
            value <= 0x3,
        ensures
            reg@ == insert(self@ as u64, 2, 2, value as u64),
            extract(reg@ as u64, 2, 2) == value,
    {
        proof {
            lemma_low_mask_values();
        }
        Self(insert_u8(self.0, 2, 2, value))
    }

    /// Returns the register with `cmv` set to `value`, or `Err` where `value`
    /// exceeds `0x3`.
    pub fn with_cmv_checked(self, value: u8) -> (reg: Result<Self, ()>)
        ensures
            value <= 0x3 ==> reg is Ok && reg.unwrap()@ == insert(self@ as u64, 2, 2, value as u64),
            value > 0x3 ==> reg is Err,
    {
        if value > 0x3 {
            return Err(());
        }
        Ok(self.with_cmv(value))
    }

    /// Sets `cmv` to `value`.
    pub fn set_cmv(&mut self, value: u8)
        requires
            value <= 0x3,
        ensures
            final(self)@ == insert(old(self)@ as u64, 2, 2, value as u64),
            extract(final(self)@ as u64, 2, 2) == value,
    {
        proof {
            lemma_low_mask_values();
        }
        self.0 = insert_u8(self.0, 2, 2, value);
    }

    /// Sets `cmv` to `value`, or returns `Err` and leaves the register as it
    /// is where `value` exceeds `0x3`.
    pub fn set_cmv_checked(&mut self, value: u8) -> (done: Result<(), ()>)
        ensures
            value <= 0x3 ==> done is Ok && final(self)@ == insert(
                old(self)@ as u64,
                2,
                2,
                value as u64,
            ),
            value > 0x3 ==> done is Err && final(self)@ == old(self)@,
    {
        if value > 0x3 {
            return Err(());
        }
        self.set_cmv(value);
        Ok(())
    }

    /// I/Q IF Driver Output Current
    /// - 0: 1mA
    /// - 1: 2mA
    /// - 2: 3mA
    /// - 3: 4mA
    ///
    /// Bits: 4..6
    pub fn drv(&self) -> (value: u8)
        ensures
            value == extract(self@ as u64, 4, 2),
    {
        extract_u8(self.0, 4, 2)
    }

    /// Returns the register with `drv` set to `value`.
    pub fn with_drv(self, value: u8) -> (reg: Self)
        requires
            value <= 0x3,
        ensures
            reg@ == insert(self@ as u64, 4, 2, value as u64),
            extract(reg@ as u64, 4, 2) == value,
    {
        proof {
            lemma_low_mask_values();
        }
        Self(insert_u8(self.0, 4, 2, value))
    }

    /// Returns the register with `drv` set to `value`, or `Err` where `value`
    /// exceeds `0x3`.
    pub fn with_drv_checked(self, value: u8) -> (reg: Result<Self, ()>)
        ensures
            value <= 0x3 ==> reg is Ok && reg.unwrap()@ == insert(self@ as u64, 4, 2, value as u64),
            value > 0x3 ==> reg is Err,
    {
        if value > 0x3 {
            return Err(());
        }
        Ok(self.with_drv(value))
    }

    /// Sets `drv` to `value`.
    pub fn set_drv(&mut self, value: u8)
        requires
            value <= 0x3,
        ensures
            final(self)@ == insert(old(self)@ as u64, 4, 2, value as u64),
            extract(final(self)@ as u64, 4, 2) == value,
    {
        proof {
            lemma_low_mask_values();
        }
        self.0 = insert_u8(self.0, 4, 2, value);
    }

    /// Sets `drv` to `value`, or returns `Err` and leaves the register as it
    /// is where `value` exceeds `0x3`.
    pub fn set_drv_checked(&mut self, value: u8) -> (done: Result<(), ()>)
        ensures
            value <= 0x3 ==> done is Ok && final(self)@ == insert(
                old(self)@ as u64,
                4,
                2,
                value as u64,
            ),
            value > 0x3 ==> done is Err && final(self)@ == old(self)@,
    {
        if value > 0x3 {
            return Err(());
        }
        self.set_drv(value);
        Ok(())
    }

    /// I/Q IF Synchronization Failure (Read Only)
    /// - 0: No synchronization failure
    /// - 1: Synchronization failure
    ///
    /// Bits: 6..7
    pub fn sf(&self) -> (value: bool)
        ensures
            value == (extract(self@ as u64, 6, 1) != 0),
    {
        extract_u8(self.0, 6, 1) != 0
    }

    /// I/Q IF External Loopback
    /// - 0: External loopback disabled
    /// - 1: External loopback enabled
    ///
    /// Bits: 7..8
    pub fn extlb(&self) -> (value: bool)
        ensures
            value == (extract(self@ as u64, 7, 1) != 0),
    {
        extract_u8(self.0, 7, 1) != 0
    }

    /// Returns the register with `extlb` set to `value`.
    pub fn with_extlb(self, value: bool) -> (reg: Self)
        ensures
            reg@ == insert(self@ as u64, 7, 1, value as u64),
            (extract(reg@ as u64, 7, 1) != 0) == value,
    {
        proof {
            lemma_low_mask_values();
        }
        Self(insert_u8(self.0, 7, 1, value as u8))
    }

    /// Returns the register with `extlb` set to `value`. Every value fits the
    /// field, so the result is always `Ok`.
    pub fn with_extlb_checked(self, value: bool) -> (reg: Result<Self, ()>)
        ensures
            reg is Ok,
            reg.unwrap()@ == insert(self@ as u64, 7, 1, value as u64),
    {
        Ok(self.with_extlb(value))
    }

    /// Sets `extlb` to `value`.
    pub fn set_extlb(&mut self, value: bool)
        ensures
            final(self)@ == insert(old(self)@ as u64, 7, 1, value as u64),
            (extract(final(self)@ as u64, 7, 1) != 0) == value,
    {
        proof {
            lemma_low_mask_values();
        }
        self.0 = insert_u8(self.0, 7, 1, value as u8);
    }

    /// Sets `extlb` to `value`. Every value fits the field, so the result is
    /// always `Ok`.
    pub fn set_extlb_checked(&mut self, value: bool) -> (done: Result<(), ()>)
        ensures
            done is Ok,
            final(self)@ == insert(old(self)@ as u64, 7, 1, value as u64),
    {
        self.set_extlb(value);
        Ok(())
    }
}

impl Default for RfIqifc0 {
    fn default() -> (reg: Self)
        ensures
            reg@ == 0,
    {
        Self::new()
    }
}

impl From<u8> for RfIqifc0 {
    fn from(v: u8) -> (reg: Self) {
        Self(v)
    }
}

impl FromSpecImpl<u8> for RfIqifc0 {
    open spec fn obeys_from_spec() -> bool {
        true
    }

    open spec fn from_spec(v: u8) -> Self {
        RfIqifc0(v)
    }
}

impl From<RfIqifc0> for u8 {
    fn from(v: RfIqifc0) -> (bits: u8) {
        v.0
    }
}

impl FromSpecImpl<RfIqifc0> for u8 {
    open spec fn obeys_from_spec() -> bool {
        true
    }

    open spec fn from_spec(v: RfIqifc0) -> u8 {
        v.0
    }
}

/// RF_IQIFC1 - I/Q Data Interface Configuration 1
///
/// Configures chip mode and I/Q interface timing.
#[derive(Debug, Clone, Copy, PartialEq, Eq)]
pub struct RfIqifc1(pub u8);

impl View for RfIqifc1 {
    type V = u8;

    open spec fn view(&self) -> u8 {
        self.0
    }
}

impl RfIqifc1 {
    /// The register with every field at its reset value.
    pub fn new() -> (reg: Self)
        ensures
            reg@ == 0,
    {
        Self(0)
    }

    /// The register that holds `bits`.
    pub fn from_bits(bits: u8) -> (reg: Self)
        ensures
            reg@ == bits,
    {
        Self(bits)
    }

    /// The bits that the register holds.
    pub fn into_bits(self) -> (bits: u8)
        ensures
            bits == self@,
    {
        self.0
    }

    /// Skew alignment I/Q IF driver
    /// - 0: 1.906ns
    /// - 1: 2.906ns
    /// - 2: 3.906ns (default)
    /// - 3: 4.906ns
    ///
    /// Bits: 0..2
    pub fn skewdrv(&self) -> (value: u8)
        ensures
            value == extract(self@ as u64, 0, 2),
    {
        extract_u8(self.0, 0, 2)
    }

    /// Returns the register with `skewdrv` set to `value`.
    pub fn with_skewdrv(self, value: u8) -> (reg: Self)
        requires
            value <= 0x3,
        ensures
            reg@ == insert(self@ as u64, 0, 2, value as u64),
            extract(reg@ as u64, 0, 2) == value,
    {
        proof {
            lemma_low_mask_values();
        }
        Self(insert_u8(self.0, 0, 2, value))
    }

    /// Returns the register with `skewdrv` set to `value`, or `Err` where `value`
    /// exceeds `0x3`.
    pub fn with_skewdrv_checked(self, value: u8) -> (reg: Result<Self, ()>)
        ensures
            value <= 0x3 ==> reg is Ok && reg.unwrap()@ == insert(self@ as u64, 0, 2, value as u64),
            value > 0x3 ==> reg is Err,
    {
        if value > 0x3 {
            return Err(());
        }
        Ok(self.with_skewdrv(value))
    }

    /// Sets `skewdrv` to `value`.
    pub fn set_skewdrv(&mut self, value: u8)
        requires
            value <= 0x3,
        ensures
            final(self)@ == insert(old(self)@ as u64, 0, 2, value as u64),
            extract(final(self)@ as u64, 0, 2) == value,
    {
        proof {
            lemma_low_mask_values();
        }
        self.0 = insert_u8(self.0, 0, 2, value);
    }

    /// Sets `skewdrv` to `value`, or returns `Err` and leaves the register as it
    /// is where `value` exceeds `0x3`.
    pub fn set_skewdrv_checked(&mut self, value: u8) -> (done: Result<(), ()>)
        ensures
            value <= 0x3 ==> done is Ok && final(self)@ == insert(
                old(self)@ as u64,
                0,
                2,
                value as u64,
            ),
            value > 0x3 ==> done is Err && final(self)@ == old(self)@,
    {
        if value > 0x3 {
            return Err(());
        }
        self.set_skewdrv(value);
        Ok(())
    }

    /// Chip Mode
    /// - 0: RF enabled, baseband (BBC0, BBC1) enabled, I/Q IF disabled
    /// - 1: RF enabled, baseband (BBC0, BBC1) disabled, I/Q IF enabled
    /// - 4: RF enabled, baseband (BBC0) disabled and (BBC1) enabled, I/Q IF for sub-GHz enabled
    /// - 5: RF enabled, baseband (BBC1) disabled and (BBC0) enabled, I/Q IF for 2.4GHz enabled
    ///
    /// Bits: 4..7
    pub fn chpm(&self) -> (value: ChipMode)
        ensures
            value == ChipMode::decode(extract(self@ as u64, 4, 3) as u8),
    {
        ChipMode::from_bits(extract_u8(self.0, 4, 3))
    }

    /// Returns the register with `chpm` set to `value`.
    pub fn with_chpm(self, value: ChipMode) -> (reg: Self)
        ensures
            reg@ == insert(self@ as u64, 4, 3, value.code() as u64),
            ChipMode::decode(extract(reg@ as u64, 4, 3) as u8) == value,
    {
        proof {
            lemma_low_mask_values();
            value.lemma_decode_code();
        }
        Self(insert_u8(self.0, 4, 3, value.into_bits()))
    }

    /// Returns the register with `chpm` set to `value`. Every value fits the
    /// field, so the result is always `Ok`.
    pub fn with_chpm_checked(self, value: ChipMode) -> (reg: Result<Self, ()>)
        ensures
            reg is Ok,
            reg.unwrap()@ == insert(self@ as u64, 4, 3, value.code() as u64),
    {
        Ok(self.with_chpm(value))
    }

    /// Sets `chpm` to `value`.
    pub fn set_chpm(&mut self, value: ChipMode)
        ensures
            final(self)@ == insert(old(self)@ as u64, 4, 3, value.code() as u64),
            ChipMode::decode(extract(final(self)@ as u64, 4, 3) as u8) == value,
    {
        proof {
            lemma_low_mask_values();
            value.lemma_decode_code();
        }
        self.0 = insert_u8(self.0, 4, 3, value.into_bits());
    }

    /// Sets `chpm` to `value`. Every value fits the field, so the result is
    /// always `Ok`.
    pub fn set_chpm_checked(&mut self, value: ChipMode) -> (done: Result<(), ()>)
        ensures
            done is Ok,
            final(self)@ == insert(old(self)@ as u64, 4, 3, value.code() as u64),
    {
        self.set_chpm(value);
        Ok(())
    }

    /// I/Q IF Receiver Failsafe Status (Read Only)
    /// - 0: Normal operation
    /// - 1: Receiver in failsafe mode (not driven by LVDS driver)
    ///
    /// Bits: 7..8
    pub fn failsf(&self) -> (value: bool)
        ensures
            value == (extract(self@ as u64, 7, 1) != 0),
    {
        extract_u8(self.0, 7, 1) != 0
    }
}

impl Default for RfIqifc1 {
    fn default() -> (reg: Self)
        ensures
            reg@ == 0,
    {
        Self::new()
    }
}

impl From<u8> for RfIqifc1 {
    fn from(v: u8) -> (reg: Self) {
        Self(v)
    }
}

impl FromSpecImpl<u8> for RfIqifc1 {
    open spec fn obeys_from_spec() -> bool {
        true
    }

    open spec fn from_spec(v: u8) -> Self {
        RfIqifc1(v)
    }
}

impl From<RfIqifc1> for u8 {
    fn from(v: RfIqifc1) -> (bits: u8) {
        v.0
    }
}

impl FromSpecImpl<RfIqifc1> for u8 {
    open spec fn obeys_from_spec() -> bool {
        true
    }

    open spec fn from_spec(v: RfIqifc1) -> u8 {
        v.0
    }
}

/// RF_IQIFC2 - I/Q Data Interface Configuration 2
///
/// Contains I/Q interface deserializer status.
#[derive(Debug, Clone, Copy, PartialEq, Eq)]
pub struct RfIqifc2(pub u8);

impl View for RfIqifc2 {
    type V = u8;

    open spec fn view(&self) -> u8 {
        self.0
    }
}

impl RfIqifc2 {
    /// The register with every field at its reset value.
    pub fn new() -> (reg: Self)
        ensures
            reg@ == 0,
    {
        Self(0)
    }

    /// The register that holds `bits`.
    pub fn from_bits(bits: u8) -> (reg: Self)
        ensures
            reg@ == bits,
    {
        Self(bits)
    }

    /// The bits that the register holds.
    pub fn into_bits(self) -> (bits: u8)
        ensures
            bits == self@,
    {
        self.0
    }

    /// I/Q IF Deserializer Synchronization Status (Read Only)
    /// - 0: Not synchronized
    /// - 1: Synchronized to incoming I/Q data stream
    ///
    /// Bits: 7..8
    pub fn sync(&self) -> (value: bool)
        ensures
            value == (extract(self@ as u64, 7, 1) != 0),
    {
        extract_u8(self.0, 7, 1) != 0
    }
}

impl Default for RfIqifc2 {
    fn default() -> (reg: Self)
        ensures
            reg@ == 0,
    {
        Self::new()
    }
}

impl From<u8> for RfIqifc2 {
    fn from(v: u8) -> (reg: Self) {
        Self(v)
    }
}

impl FromSpecImpl<u8> for RfIqifc2 {
    open spec fn obeys_from_spec() -> bool {
        true
    }

    open spec fn from_spec(v: u8) -> Self {
        RfIqifc2(v)
    }
}

impl From<RfIqifc2> for u8 {
    fn from(v: RfIqifc2) -> (bits: u8) {
        v.0
    }
}

impl FromSpecImpl<RfIqifc2> for u8 {
    open spec fn obeys_from_spec() -> bool {
        true
    }

    open spec fn from_spec(v: RfIqifc2) -> u8 {
        v.0
    }
}

} // verus!
