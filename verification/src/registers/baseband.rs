//! Baseband core registers: PHY control, frame lengths, OFDM and O-QPSK.

use vstd::prelude::*;
use vstd::std_specs::convert::FromSpecImpl;
use crate::bits::{
    extract, extract_u8, extract_u16, insert, insert_u8, insert_u16, lemma_low_mask_values,
};

verus! {

/// BBCn_PC - PHY Control
///
/// Main baseband control register for PHY configuration.
#[derive(Debug, Clone, Copy, PartialEq, Eq)]
pub struct BbcnPc(pub u8);

impl View for BbcnPc {
    type V = u8;

    open spec fn view(&self) -> u8 {
        self.0
    }
}

impl BbcnPc {
    /// The register with every field at its reset value.
    pub fn new() -> (reg: Self)
        ensures
            reg@ == 0,
    {
        Self(0)
    }

    /// The register that holds `bits`.
    pub fn from_bits(bits: u8) -> (reg: Self)
        ensures
            reg@ == bits,
    {
        Self(bits)
    }

    /// The bits that the register holds.
    pub fn into_bits(self) -> (bits: u8)
        ensures
            bits == self@,
    {
        self.0
    }

    /// PHY Type
    /// - 0: FSK
    /// - 1: OFDM
    /// - 2: OQPSK
    /// - 3: Reserved/Legacy O-QPSK
    ///
    /// Bits: 0..2
    pub fn pt(&self) -> (value: u8)
        ensures
            value == extract(self@ as u64, 0, 2),
    {
        extract_u8(self.0, 0, 2)
    }

    /// Returns the register with `pt` set to `value`.
    pub fn with_pt(self, value: u8) -> (reg: Self)
        requires
            value <= 0x3,
        ensures
            reg@ == insert(self@ as u64, 0, 2, value as u64),
            extract(reg@ as u64, 0, 2) == value,
    {
        proof {
            lemma_low_mask_values();
        }
        Self(insert_u8(self.0, 0, 2, value))
    }

    /// Returns the register with `pt` set to `value`, or `Err` where `value`
    /// exceeds `0x3`.
    pub fn with_pt_checked(self, value: u8) -> (reg: Result<Self, ()>)
        ensures
            value <= 0x3 ==> reg is Ok && reg.unwrap()@ == insert(self@ as u64, 0, 2, value as u64),
            value > 0x3 ==> reg is Err,
    {
        if value > 0x3 {
            return Err(());
        }
        Ok(self.with_pt(value))
    }

    /// Sets `pt` to `value`.
    pub fn set_pt(&mut self, value: u8)
        requires
            value <= 0x3,
        ensures
            final(self)@ == insert(old(self)@ as u64, 0, 2, value as u64),
            extract(final(self)@ as u64, 0, 2) == value,
    {
        proof {
            lemma_low_mask_values();
        }
        self.0 = insert_u8(self.0, 0, 2, value);
    }

    /// Sets `pt` to `value`, or returns `Err` and leaves the register as it
    /// is where `value` exceeds `0x3`.
    pub fn set_pt_checked(&mut self, value: u8) -> (done: Result<(), ()>)
        ensures
            value <= 0x3 ==> done is Ok && final(self)@ == insert(
                old(self)@ as u64,
                0,
                2,
                value as u64,
            ),
            value > 0x3 ==> done is Err && final(self)@ == old(self)@,
    {
        if value > 0x3 {
            return Err(());
        }
        self.set_pt(value);
        Ok(())
    }

    /// Baseband Enable
    /// - 0: Baseband disabled
    /// - 1: Baseband enabled
    ///
    /// Bits: 2..3
    pub fn bben(&self) -> (value: bool)
        ensures
            value == (extract(self@ as u64, 2, 1) != 0),
    {
        extract_u8(self.0, 2, 1) != 0
    }

    /// Returns the register with `bben` set to `value`.
    pub fn with_bben(self, value: bool) -> (reg: Self)
        ensures
            reg@ == insert(self@ as u64, 2, 1, value as u64),
            (extract(reg@ as u64, 2, 1) != 0) == value,
    {
        proof {
            lemma_low_mask_values();
        }
        Self(insert_u8(self.0, 2, 1, value as u8))
    }

    /// Returns the register with `bben` set to `value`. Every value fits the
    /// field, so the result is always `Ok`.
    pub fn with_bben_checked(self, value: bool) -> (reg: Result<Self, ()>)
        ensures
            reg is Ok,
            reg.unwrap()@ == insert(self@ as u64, 2, 1, value as u64),
    {
        Ok(self.with_bben(value))
    }

    /// Sets `bben` to `value`.
    pub fn set_bben(&mut self, value: bool)
        ensures
            final(self)@ == insert(old(self)@ as u64, 2, 1, value as u64),
            (extract(final(self)@ as u64, 2, 1) != 0) == value,
    {
        proof {
            lemma_low_mask_values();
        }
        self.0 = insert_u8(self.0, 2, 1, value as u8);
    }

    /// Sets `bben` to `value`. Every value fits the field, so the result is
    /// always `Ok`.
    pub fn set_bben_checked(&mut self, value: bool) -> (done: Result<(), ()>)
        ensures
            done is Ok,
            final(self)@ == insert(old(self)@ as u64, 2, 1, value as u64),
    {
        self.set_bben(value);
        Ok(())
    }

    /// Frame Checksum Type
    /// - 0: 16-bit CRC (FCS)
    /// - 1: 32-bit CRC (FCS)
    ///
    /// Bits: 3..4
    pub fn fcst(&self) -> (value: bool)
        ensures
            value == (extract(self@ as u64, 3, 1) != 0),
    {
        extract_u8(self.0, 3, 1) != 0
    }

    /// Returns the register with `fcst` set to `value`.
    pub fn with_fcst(self, value: bool) -> (reg: Self)
        ensures
            reg@ == insert(self@ as u64, 3, 1, value as u64),
            (extract(reg@ as u64, 3, 1) != 0) == value,
    {
        proof {
            lemma_low_mask_values();
        }
        Self(insert_u8(self.0, 3, 1, value as u8))
    }

    /// Returns the register with `fcst` set to `value`. Every value fits the
    /// field, so the result is always `Ok`.
    pub fn with_fcst_checked(self, value: bool) -> (reg: Result<Self, ()>)
        ensures
            reg is Ok,
            reg.unwrap()@ == insert(self@ as u64, 3, 1, value as u64),
    {
        Ok(self.with_fcst(value))
    }

    /// Sets `fcst` to `value`.
    pub fn set_fcst(&mut self, value: bool)
        ensures
            final(self)@ == insert(old(self)@ as u64, 3, 1, value as u64),
            (extract(final(self)@ as u64, 3, 1) != 0) == value,
    {
        proof {
            lemma_low_mask_values();
        }
        self.0 = insert_u8(self.0, 3, 1, value as u8);
    }

    /// Sets `fcst` to `value`. Every value fits the field, so the result is
    /// always `Ok`.
    pub fn set_fcst_checked(&mut self, value: bool) -> (done: Result<(), ()>)
        ensures
            done is Ok,
            final(self)@ == insert(old(self)@ as u64, 3, 1, value as u64),
    {
        self.set_fcst(value);
        Ok(())
    }

    /// Automatic FCS Transmission
    /// - 0: FCS not appended automatically
    /// - 1: FCS appended to TX frame
    ///
    /// Bits: 4..5
    pub fn txafcs(&self) -> (value: bool)
        ensures
            value == (extract(self@ as u64, 4, 1) != 0),
    {
        extract_u8(self.0, 4, 1) != 0
    }

    /// Returns the register with `txafcs` set to `value`.
    pub fn with_txafcs(self, value: bool) -> (reg: Self)
        ensures
            reg@ == insert(self@ as u64, 4, 1, value as u64),
            (extract(reg@ as u64, 4, 1) != 0) == value,
    {
        proof {
            lemma_low_mask_values();
        }
        Self(insert_u8(self.0, 4, 1, value as u8))
    }

    /// Returns the register with `txafcs` set to `value`. Every value fits the
    /// field, so the result is always `Ok`.
    pub fn with_txafcs_checked(self, value: bool) -> (reg: Result<Self, ()>)
        ensures
            reg is Ok,
            reg.unwrap()@ == insert(self@ as u64, 4, 1, value as u64),
    {
        Ok(self.with_txafcs(value))
    }

    /// Sets `txafcs` to `value`.
    pub fn set_txafcs(&mut self, value: bool)
        ensures
            final(self)@ == insert(old(self)@ as u64, 4, 1, value as u64),
            (extract(final(self)@ as u64, 4, 1) != 0) == value,
    {
        proof {
            lemma_low_mask_values();
        }
        self.0 = insert_u8(self.0, 4, 1, value as u8);
    }

    /// Sets `txafcs` to `value`. Every value fits the field, so the result is
    /// always `Ok`.
    pub fn set_txafcs_checked(&mut self, value: bool) -> (done: Result<(), ()>)
        ensures
            done is Ok,
            final(self)@ == insert(old(self)@ as u64, 4, 1, value as u64),
    {
        self.set_txafcs(value);
        Ok(())
    }

    /// FCS OK
    /// - 0: Last received frame FCS invalid (Read Only)
    /// - 1: Last received frame FCS valid (Read Only)
    ///
    /// Bits: 5..6
    pub fn fcsok(&self) -> (value: bool)
        ensures
            value == (extract(self@ as u64, 5, 1) != 0),
    {
        extract_u8(self.0, 5, 1) != 0
    }

    /// FCS Filter Enable
    /// - 0: Accept frames regardless of FCS
    /// - 1: Filter out frames with invalid FCS
    ///
    /// Bits: 6..7
    pub fn fcsfe(&self) -> (value: bool)
        ensures
            value == (extract(self@ as u64, 6, 1) != 0),
    {
        extract_u8(self.0, 6, 1) != 0
    }

    /// Returns the register with `fcsfe` set to `value`.
    pub fn with_fcsfe(self, value: bool) -> (reg: Self)
        ensures
            reg@ == insert(self@ as u64, 6, 1, value as u64),
            (extract(reg@ as u64, 6, 1) != 0) == value,
    {
        proof {
            lemma_low_mask_values();
        }
        Self(insert_u8(self.0, 6, 1, value as u8))
    }

    /// Returns the register with `fcsfe` set to `value`. Every value fits the
    /// field, so the result is always `Ok`.
    pub fn with_fcsfe_checked(self, value: bool) -> (reg: Result<Self, ()>)
        ensures
            reg is Ok,
            reg.unwrap()@ == insert(self@ as u64, 6, 1, value as u64),
    {
        Ok(self.with_fcsfe(value))
    }

    /// Sets `fcsfe` to `value`.
    pub fn set_fcsfe(&mut self, value: bool)
        ensures
            final(self)@ == insert(old(self)@ as u64, 6, 1, value as u64),
            (extract(final(self)@ as u64, 6, 1) != 0) == value,
    {
        proof {
            lemma_low_mask_values();
        }
        self.0 = insert_u8(self.0, 6, 1, value as u8);
    }

    /// Sets `fcsfe` to `value`. Every value fits the field, so the result is
    /// always `Ok`.
    pub fn set_fcsfe_checked(&mut self, value: bool) -> (done: Result<(), ()>)
        ensures
            done is Ok,
            final(self)@ == insert(old(self)@ as u64, 6, 1, value as u64),
    {
        self.set_fcsfe(value);
        Ok(())
    }

    /// Continuous TX Mode
    /// - 0: Normal TX mode
    /// - 1: Continuous TX (for testing)
    ///
    /// Bits: 7..8
    pub fn ctx(&self) -> (value: bool)
        ensures
            value == (extract(self@ as u64, 7, 1) != 0),
    {
        extract_u8(self.0, 7, 1) != 0
    }

    /// Returns the register with `ctx` set to `value`.
    pub fn with_ctx(self, value: bool) -> (reg: Self)
        ensures
            reg@ == insert(self@ as u64, 7, 1, value as u64),
            (extract(reg@ as u64, 7, 1) != 0) == value,
    {
        proof {
            lemma_low_mask_values();
        }
        Self(insert_u8(self.0, 7, 1, value as u8))
    }

    /// Returns the register with `ctx` set to `value`. Every value fits the
    /// field, so the result is always `Ok`.
    pub fn with_ctx_checked(self, value: bool) -> (reg: Result<Self, ()>)
        ensures
            reg is Ok,
            reg.unwrap()@ == insert(self@ as u64, 7, 1, value as u64),
    {
        Ok(self.with_ctx(value))
    }

    /// Sets `ctx` to `value`.
    pub fn set_ctx(&mut self, value: bool)
        ensures
            final(self)@ == insert(old(self)@ as u64, 7, 1, value as u64),
            (extract(final(self)@ as u64, 7, 1) != 0) == value,
    {
        proof {
            lemma_low_mask_values();
        }
        self.0 = insert_u8(self.0, 7, 1, value as u8);
    }

    /// Sets `ctx` to `value`. Every value fits the field, so the result is
    /// always `Ok`.
    pub fn set_ctx_checked(&mut self, value: bool) -> (done: Result<(), ()>)
        ensures
            done is Ok,
            final(self)@ == insert(old(self)@ as u64, 7, 1, value as u64),
    {
        self.set_ctx(value);
        Ok(())
    }
}

impl Default for BbcnPc {
    fn default() -> (reg: Self)
        ensures
            reg@ == 0,
    {
        Self::new()
    }
}

impl From<u8> for BbcnPc {
    fn from(v: u8) -> (reg: Self) {
        Self(v)
    }
}

impl FromSpecImpl<u8> for BbcnPc {
    open spec fn obeys_from_spec() -> bool {
        true
    }

    open spec fn from_spec(v: u8) -> Self {
        BbcnPc(v)
    }
}

impl From<BbcnPc> for u8 {
    fn from(v: BbcnPc) -> (bits: u8) {
        v.0
    }
}

impl FromSpecImpl<BbcnPc> for u8 {
    open spec fn obeys_from_spec() -> bool {
        true
    }

    open spec fn from_spec(v: BbcnPc) -> u8 {
        v.0
    }
}

/// BBCn_PS - PHY Status
///
/// PHY status flags.
#[derive(Debug, Clone, Copy, PartialEq, Eq)]
pub struct BbcnPs(pub u8);

impl View for BbcnPs {
    type V = u8;

    open spec fn view(&self) -> u8 {
        self.0
    }
}

impl BbcnPs {
    /// The register with every field at its reset value.
    pub fn new() -> (reg: Self)
        ensures
            reg@ == 0,
    {
        Self(0)
    }

    /// The register that holds `bits`.
    pub fn from_bits(bits: u8) -> (reg: Self)
        ensures
            reg@ == bits,
    {
        Self(bits)
    }

    /// The bits that the register holds.
    pub fn into_bits(self) -> (bits: u8)
        ensures
            bits == self@,
    {
        self.0
    }

    /// TX Underrun
    /// - 0: No underrun
    /// - 1: TX underrun occurred
    ///
    /// Bits: 0..1
    pub fn txur(&self) -> (value: bool)
        ensures
            value == (extract(self@ as u64, 0, 1) != 0),
    {
        extract_u8(self.0, 0, 1) != 0
    }
}

impl Default for BbcnPs {
    fn default() -> (reg: Self)
        ensures
            reg@ == 0,
    {
        Self::new()
    }
}

impl From<u8> for BbcnPs {
    fn from(v: u8) -> (reg: Self) {
        Self(v)
    }
}

impl FromSpecImpl<u8> for BbcnPs {
    open spec fn obeys_from_spec() -> bool {
        true
    }

    open spec fn from_spec(v: u8) -> Self {
        BbcnPs(v)
    }
}

impl From<BbcnPs> for u8 {
    fn from(v: BbcnPs) -> (bits: u8) {
        v.0
    }
}

impl FromSpecImpl<BbcnPs> for u8 {
    open spec fn obeys_from_spec() -> bool {
        true
    }

    open spec fn from_spec(v: BbcnPs) -> u8 {
        v.0
    }
}

/// BBCn_RXFL - RX Frame Length (Read Only)
///
/// 11-bit received frame length (0-2047 bytes).
#[derive(Debug, Clone, Copy, PartialEq, Eq)]
pub struct BbcnRxfl(pub u16);

impl View for BbcnRxfl {
    type V = u16;

    open spec fn view(&self) -> u16 {
        self.0
    }
}

impl BbcnRxfl {
    /// The register with every field at its reset value.
    pub fn new() -> (reg: Self)
        ensures
            reg@ == 0,
    {
        Self(0)
    }

    /// The register that holds `bits`.
    pub fn from_bits(bits: u16) -> (reg: Self)
        ensures
            reg@ == bits,
    {
        Self(bits)
    }

    /// The bits that the register holds.
    pub fn into_bits(self) -> (bits: u16)
        ensures
            bits == self@,
    {
        self.0
    }

    /// RX Frame Length (11-bit)
    ///
    /// Bits: 0..11
    pub fn rxfl(&self) -> (value: u16)
        ensures
            value == extract(self@ as u64, 0, 11),
    {
        extract_u16(self.0, 0, 11)
    }
}

impl Default for BbcnRxfl {
    fn default() -> (reg: Self)
        ensures
            reg@ == 0,
    {
        Self::new()
    }
}

impl From<u16> for BbcnRxfl {
    fn from(v: u16) -> (reg: Self) {
        Self(v)
    }
}

impl FromSpecImpl<u16> for BbcnRxfl {
    open spec fn obeys_from_spec() -> bool {
        true
    }

    open spec fn from_spec(v: u16) -> Self {
        BbcnRxfl(v)
    }
}

impl From<BbcnRxfl> for u16 {
    fn from(v: BbcnRxfl) -> (bits: u16) {
        v.0
    }
}

impl FromSpecImpl<BbcnRxfl> for u16 {
    open spec fn obeys_from_spec() -> bool {
        true
    }

    open spec fn from_spec(v: BbcnRxfl) -> u16 {
        v.0
    }
}

/// BBCn_TXFL - TX Frame Length
///
/// 11-bit transmit frame length (0-2047 bytes).
#[derive(Debug, Clone, Copy, PartialEq, Eq)]
pub struct BbcnTxfl(pub u16);

impl View for BbcnTxfl {
    type V = u16;

    open spec fn view(&self) -> u16 {
        self.0
    }
}

impl BbcnTxfl {
    /// The register with every field at its reset value.
    pub fn new() -> (reg: Self)
        ensures
            reg@ == 0,
    {
        Self(0)
    }

    /// The register that holds `bits`.
    pub fn from_bits(bits: u16) -> (reg: Self)
        ensures
            reg@ == bits,
    {
        Self(bits)
    }

    /// The bits that the register holds.
    pub fn into_bits(self) -> (bits: u16)
        ensures
            bits == self@,
    {
        self.0
    }

    /// TX Frame Length (11-bit)
    ///
    /// Bits: 0..11
    pub fn txfl(&self) -> (value: u16)
        ensures
            value == extract(self@ as u64, 0, 11),
    {
        extract_u16(self.0, 0, 11)
    }

    /// Returns the register with `txfl` set to `value`.
    pub fn with_txfl(self, value: u16) -> (reg: Self)
        requires
            value <= 0x7FF,
        ensures
            reg@ == insert(self@ as u64, 0, 11, value as u64),
            extract(reg@ as u64, 0, 11) == value,
    {
        proof {
            lemma_low_mask_values();
        }
        Self(insert_u16(self.0, 0, 11, value))
    }

    /// Returns the register with `txfl` set to `value`, or `Err` where `value`
    /// exceeds `0x7FF`.
    pub fn with_txfl_checked(self, value: u16) -> (reg: Result<Self, ()>)
        ensures
            value <= 0x7FF ==> reg is Ok && reg.unwrap()@ == insert(
                self@ as u64,
                0,
                11,
                value as u64,
            ),
            value > 0x7FF ==> reg is Err,
    {
        if value > 0x7FF {
            return Err(());
        }
        Ok(self.with_txfl(value))
    }

    /// Sets `txfl` to `value`.
    pub fn set_txfl(&mut self, value: u16)
        requires
            value <= 0x7FF,
        ensures
            final(self)@ == insert(old(self)@ as u64, 0, 11, value as u64),
            extract(final(self)@ as u64, 0, 11) == value,
    {
        proof {
            lemma_low_mask_values();
        }
        self.0 = insert_u16(self.0, 0, 11, value);
    }

    /// Sets `txfl` to `value`, or returns `Err` and leaves the register as it
    /// is where `value` exceeds `0x7FF`.
    pub fn set_txfl_checked(&mut self, value: u16) -> (done: Result<(), ()>)
        ensures
            value <= 0x7FF ==> done is Ok && final(self)@ == insert(
                old(self)@ as u64,
                0,
                11,
                value as u64,
            ),
            value > 0x7FF ==> done is Err && final(self)@ == old(self)@,
    {
        if value > 0x7FF {
            return Err(());
        }
        self.set_txfl(value);
        Ok(())
    }
}

impl Default for BbcnTxfl {
    fn default() -> (reg: Self)
        ensures
            reg@ == 0,
    {
        Self::new()
    }
}

impl From<u16> for BbcnTxfl {
    fn from(v: u16) -> (reg: Self) {
        Self(v)
    }
}

impl FromSpecImpl<u16> for BbcnTxfl {
    open spec fn obeys_from_spec() -> bool {
        true
    }

    open spec fn from_spec(v: u16) -> Self {
        BbcnTxfl(v)
    }
}

impl From<BbcnTxfl> for u16 {
    fn from(v: BbcnTxfl) -> (bits: u16) {
        v.0
    }
}

impl FromSpecImpl<BbcnTxfl> for u16 {
    open spec fn obeys_from_spec() -> bool {
        true
    }

    open spec fn from_spec(v: BbcnTxfl) -> u16 {
        v.0
    }
}

/// BBCn_FBL - Frame Buffer Level (Read Only)
///
/// 11-bit current frame buffer level.
#[derive(Debug, Clone, Copy, PartialEq, Eq)]
pub struct BbcnFbl(pub u16);

impl View for BbcnFbl {
    type V = u16;

    open spec fn view(&self) -> u16 {
        self.0
    }
}

impl BbcnFbl {
    /// The register with every field at its reset value.
    pub fn new() -> (reg: Self)
        ensures
            reg@ == 0,
    {
        Self(0)
    }

    /// The register that holds `bits`.
    pub fn from_bits(bits: u16) -> (reg: Self)
        ensures
            reg@ == bits,
    {
        Self(bits)
    }

    /// The bits that the register holds.
    pub fn into_bits(self) -> (bits: u16)
        ensures
            bits == self@,
    {
        self.0
    }

    /// Frame Buffer Level (11-bit)
    ///
    /// Bits: 0..11
    pub fn fbl(&self) -> (value: u16)
        ensures
            value == extract(self@ as u64, 0, 11),
    {
        extract_u16(self.0, 0, 11)
    }
}

impl Default for BbcnFbl {
    fn default() -> (reg: Self)
        ensures
            reg@ == 0,
    {
        Self::new()
    }
}

impl From<u16> for BbcnFbl {
    fn from(v: u16) -> (reg: Self) {
        Self(v)
    }
}

impl FromSpecImpl<u16> for BbcnFbl {
    open spec fn obeys_from_spec() -> bool {
        true
    }

    open spec fn from_spec(v: u16) -> Self {
        BbcnFbl(v)
    }
}

impl From<BbcnFbl> for u16 {
    fn from(v: BbcnFbl) -> (bits: u16) {
        v.0
    }
}

impl FromSpecImpl<BbcnFbl> for u16 {
    open spec fn obeys_from_spec() -> bool {
        true
    }

    open spec fn from_spec(v: BbcnFbl) -> u16 {
        v.0
    }
}

/// BBCn_FBLI - Frame Buffer Level Interrupt Threshold
///
/// 11-bit threshold for frame buffer level interrupt.
#[derive(Debug, Clone, Copy, PartialEq, Eq)]
pub struct BbcnFbli(pub u16);

impl View for BbcnFbli {
    type V = u16;

    open spec fn view(&self) -> u16 {
        self.0
    }
}

impl BbcnFbli {
    /// The register with every field at its reset value.
    pub fn new() -> (reg: Self)
        ensures
            reg@ == 0,
    {
        Self(0)
    }

    /// The register that holds `bits`.
    pub fn from_bits(bits: u16) -> (reg: Self)
        ensures
            reg@ == bits,
    {
        Self(bits)
    }

    /// The bits that the register holds.
    pub fn into_bits(self) -> (bits: u16)
        ensures
            bits == self@,
    {
        self.0
    }

    /// Frame Buffer Level Interrupt Threshold (11-bit)
    ///
    /// Bits: 0..11
    pub fn fbli(&self) -> (value: u16)
        ensures
            value == extract(self@ as u64, 0, 11),
    {
        extract_u16(self.0, 0, 11)
    }

    /// Returns the register with `fbli` set to `value`.
    pub fn with_fbli(self, value: u16) -> (reg: Self)
        requires
            value <= 0x7FF,
        ensures
            reg@ == insert(self@ as u64, 0, 11, value as u64),
            extract(reg@ as u64, 0, 11) == value,
    {
        proof {
            lemma_low_mask_values();
        }
        Self(insert_u16(self.0, 0, 11, value))
    }

    /// Returns the register with `fbli` set to `value`, or `Err` where `value`
    /// exceeds `0x7FF`.
    pub fn with_fbli_checked(self, value: u16) -> (reg: Result<Self, ()>)
        ensures
            value <= 0x7FF ==> reg is Ok && reg.unwrap()@ == insert(
                self@ as u64,
                0,
                11,
                value as u64,
            ),
            value > 0x7FF ==> reg is Err,
    {
        if value > 0x7FF {
            return Err(());
        }
        Ok(self.with_fbli(value))
    }

    /// Sets `fbli` to `value`.
    pub fn set_fbli(&mut self, value: u16)
        requires
            value <= 0x7FF,
        ensures
            final(self)@ == insert(old(self)@ as u64, 0, 11, value as u64),
            extract(final(self)@ as u64, 0, 11) == value,
    {
        proof {
            lemma_low_mask_values();
        }
        self.0 = insert_u16(self.0, 0, 11, value);
    }

    /// Sets `fbli` to `value`, or returns `Err` and leaves the register as it
    /// is where `value` exceeds `0x7FF`.
    pub fn set_fbli_checked(&mut self, value: u16) -> (done: Result<(), ()>)
        ensures
            value <= 0x7FF ==> done is Ok && final(self)@ == insert(
                old(self)@ as u64,
                0,
                11,
                value as u64,
            ),
            value > 0x7FF ==> done is Err && final(self)@ == old(self)@,
    {
        if value > 0x7FF {
            return Err(());
        }
        self.set_fbli(value);
        Ok(())
    }
}

impl Default for BbcnFbli {
    fn default() -> (reg: Self)
        ensures
            reg@ == 0,
    {
        Self::new()
    }
}

impl From<u16> for BbcnFbli {
    fn from(v: u16) -> (reg: Self) {
        Self(v)
    }
}

impl FromSpecImpl<u16> for BbcnFbli {
    open spec fn obeys_from_spec() -> bool {
        true
    }

    open spec fn from_spec(v: u16) -> Self {
        BbcnFbli(v)
    }
}

impl From<BbcnFbli> for u16 {
    fn from(v: BbcnFbli) -> (bits: u16) {
        v.0
    }
}

impl FromSpecImpl<BbcnFbli> for u16 {
    open spec fn obeys_from_spec() -> bool {
        true
    }

    open spec fn from_spec(v: BbcnFbli) -> u16 {
        v.0
    }
}

/// BBCn_OFDMPHRTX - OFDM PHR Transmit Configuration
///
/// OFDM PHY header transmit configuration.
#[derive(Debug, Clone, Copy, PartialEq, Eq)]
pub struct BbcnOfdmphrtx(pub u8);

impl View for BbcnOfdmphrtx {
    type V = u8;

    open spec fn view(&self) -> u8 {
        self.0
    }
}

impl BbcnOfdmphrtx {
    /// The register with every field at its reset value.
    pub fn new() -> (reg: Self)
        ensures
            reg@ == 0,
    {
        Self(0)
    }

    /// The register that holds `bits`.
    pub fn from_bits(bits: u8) -> (reg: Self)
        ensures
            reg@ == bits,
    {
        Self(bits)
    }

    /// The bits that the register holds.
    pub fn into_bits(self) -> (bits: u8)
        ensures
            bits == self@,
    {
        self.0
    }

    /// Modulation and Coding Scheme
    ///
    /// Bits: 0..3
    pub fn mcs(&self) -> (value: u8)
        ensures
            value == extract(self@ as u64, 0, 3),
    {
        extract_u8(self.0, 0, 3)
    }

    /// Returns the register with `mcs` set to `value`.
    pub fn with_mcs(self, value: u8) -> (reg: Self)
        requires
            value <= 0x7,
        ensures
            reg@ == insert(self@ as u64, 0, 3, value as u64),
            extract(reg@ as u64, 0, 3) == value,
    {
        proof {
            lemma_low_mask_values();
        }
        Self(insert_u8(self.0, 0, 3, value))
    }

    /// Returns the register with `mcs` set to `value`, or `Err` where `value`
    /// exceeds `0x7`.
    pub fn with_mcs_checked(self, value: u8) -> (reg: Result<Self, ()>)
        ensures
            value <= 0x7 ==> reg is Ok && reg.unwrap()@ == insert(self@ as u64, 0, 3, value as u64),
            value > 0x7 ==> reg is Err,
    {
        if value > 0x7 {
            return Err(());
        }
        Ok(self.with_mcs(value))
    }

    /// Sets `mcs` to `value`.
    pub fn set_mcs(&mut self, value: u8)
        requires
            value <= 0x7,
        ensures
            final(self)@ == insert(old(self)@ as u64, 0, 3, value as u64),
            extract(final(self)@ as u64, 0, 3) == value,
    {
        proof {
            lemma_low_mask_values();
        }
        self.0 = insert_u8(self.0, 0, 3, value);
    }

    /// Sets `mcs` to `value`, or returns `Err` and leaves the register as it
    /// is where `value` exceeds `0x7`.
    pub fn set_mcs_checked(&mut self, value: u8) -> (done: Result<(), ()>)
        ensures
            value <= 0x7 ==> done is Ok && final(self)@ == insert(
                old(self)@ as u64,
                0,
                3,
                value as u64,
            ),
            value > 0x7 ==> done is Err && final(self)@ == old(self)@,
    {
        if value > 0x7 {
            return Err(());
        }
        self.set_mcs(value);
        Ok(())
    }

    /// Reserved Bit 5
    ///
    /// Bits: 4..5
    pub fn rb5(&self) -> (value: bool)
        ensures
            value == (extract(self@ as u64, 4, 1) != 0),
    {
        extract_u8(self.0, 4, 1) != 0
    }

    /// Returns the register with `rb5` set to `value`.
    pub fn with_rb5(self, value: bool) -> (reg: Self)
        ensures
            reg@ == insert(self@ as u64, 4, 1, value as u64),
            (extract(reg@ as u64, 4, 1) != 0) == value,
    {
        proof {
            lemma_low_mask_values();
        }
        Self(insert_u8(self.0, 4, 1, value as u8))
    }

    /// Returns the register with `rb5` set to `value`. Every value fits the
    /// field, so the result is always `Ok`.
    pub fn with_rb5_checked(self, value: bool) -> (reg: Result<Self, ()>)
        ensures
            reg is Ok,
            reg.unwrap()@ == insert(self@ as u64, 4, 1, value as u64),
    {
        Ok(self.with_rb5(value))
    }

    /// Sets `rb5` to `value`.
    pub fn set_rb5(&mut self, value: bool)
        ensures
            final(self)@ == insert(old(self)@ as u64, 4, 1, value as u64),
            (extract(final(self)@ as u64, 4, 1) != 0) == value,
    {
        proof {
            lemma_low_mask_values();
        }
        self.0 = insert_u8(self.0, 4, 1, value as u8);
    }

    /// Sets `rb5` to `value`. Every value fits the field, so the result is
    /// always `Ok`.
    pub fn set_rb5_checked(&mut self, value: bool) -> (done: Result<(), ()>)
        ensures
            done is Ok,
            final(self)@ == insert(old(self)@ as u64, 4, 1, value as u64),
    {
        self.set_rb5(value);
        Ok(())
    }

    /// Reserved Bit 17
    ///
    /// Bits: 5..6
    pub fn rb17(&self) -> (value: bool)
        ensures
            value == (extract(self@ as u64, 5, 1) != 0),
    {
        extract_u8(self.0, 5, 1) != 0
    }

    /// Returns the register with `rb17` set to `value`.
    pub fn with_rb17(self, value: bool) -> (reg: Self)
        ensures
            reg@ == insert(self@ as u64, 5, 1, value as u64),
            (extract(reg@ as u64, 5, 1) != 0) == value,
    {
        proof {
            lemma_low_mask_values();
        }
        Self(insert_u8(self.0, 5, 1, value as u8))
    }

    /// Returns the register with `rb17` set to `value`. Every value fits the
    /// field, so the result is always `Ok`.
    pub fn with_rb17_checked(self, value: bool) -> (reg: Result<Self, ()>)
        ensures
            reg is Ok,
            reg.unwrap()@ == insert(self@ as u64, 5, 1, value as u64),
    {
        Ok(self.with_rb17(value))
    }

    /// Sets `rb17` to `value`.
    pub fn set_rb17(&mut self, value: bool)
        ensures
            final(self)@ == insert(old(self)@ as u64, 5, 1, value as u64),
            (extract(final(self)@ as u64, 5, 1) != 0) == value,
    {
        proof {
            lemma_low_mask_values();
        }
        self.0 = insert_u8(self.0, 5, 1, value as u8);
    }

    /// Sets `rb17` to `value`. Every value fits the field, so the result is
    /// always `Ok`.
    pub fn set_rb17_checked(&mut self, value: bool) -> (done: Result<(), ()>)
        ensures
            done is Ok,
            final(self)@ == insert(old(self)@ as u64, 5, 1, value as u64),
    {
        self.set_rb17(value);
        Ok(())
    }

    /// Reserved Bit 18
    ///
    /// Bits: 6..7
    pub fn rb18(&self) -> (value: bool)
        ensures
            value == (extract(self@ as u64, 6, 1) != 0),
    {
        extract_u8(self.0, 6, 1) != 0
    }

    /// Returns the register with `rb18` set to `value`.
    pub fn with_rb18(self, value: bool) -> (reg: Self)
        ensures
            reg@ == insert(self@ as u64, 6, 1, value as u64),
            (extract(reg@ as u64, 6, 1) != 0) == value,
    {
        proof {
            lemma_low_mask_values();
        }
        Self(insert_u8(self.0, 6, 1, value as u8))
    }

    /// Returns the register with `rb18` set to `value`. Every value fits the
    /// field, so the result is always `Ok`.
    pub fn with_rb18_checked(self, value: bool) -> (reg: Result<Self, ()>)
        ensures
            reg is Ok,
            reg.unwrap()@ == insert(self@ as u64, 6, 1, value as u64),
    {
        Ok(self.with_rb18(value))
    }

    /// Sets `rb18` to `value`.
    pub fn set_rb18(&mut self, value: bool)
        ensures
            final(self)@ == insert(old(self)@ as u64, 6, 1, value as u64),
            (extract(final(self)@ as u64, 6, 1) != 0) == value,
    {
        proof {
            lemma_low_mask_values();
        }
        self.0 = insert_u8(self.0, 6, 1, value as u8);
    }

    /// Sets `rb18` to `value`. Every value fits the field, so the result is
    /// always `Ok`.
    pub fn set_rb18_checked(&mut self, value: bool) -> (done: Result<(), ()>)
        ensures
            done is Ok,
            final(self)@ == insert(old(self)@ as u64, 6, 1, value as u64),
    {
        self.set_rb18(value);
        Ok(())
    }

    /// Reserved Bit 21
    ///
    /// Bits: 7..8
    pub fn rb21(&self) -> (value: bool)
        ensures
            value == (extract(self@ as u64, 7, 1) != 0),
    {
        extract_u8(self.0, 7, 1) != 0
    }

    /// Returns the register with `rb21` set to `value`.
    pub fn with_rb21(self, value: bool) -> (reg: Self)
        ensures
            reg@ == insert(self@ as u64, 7, 1, value as u64),
            (extract(reg@ as u64, 7, 1) != 0) == value,
    {
        proof {
            lemma_low_mask_values();
        }
        Self(insert_u8(self.0, 7, 1, value as u8))
    }

    /// Returns the register with `rb21` set to `value`. Every value fits the
    /// field, so the result is always `Ok`.
    pub fn with_rb21_checked(self, value: bool) -> (reg: Result<Self, ()>)
        ensures
            reg is Ok,
            reg.unwrap()@ == insert(self@ as u64, 7, 1, value as u64),
    {
        Ok(self.with_rb21(value))
    }

    /// Sets `rb21` to `value`.
    pub fn set_rb21(&mut self, value: bool)
        ensures
            final(self)@ == insert(old(self)@ as u64, 7, 1, value as u64),
            (extract(final(self)@ as u64, 7, 1) != 0) == value,
    {
        proof {
            lemma_low_mask_values();
        }
        self.0 = insert_u8(self.0, 7, 1, value as u8);
    }

    /// Sets `rb21` to `value`. Every value fits the field, so the result is
    /// always `Ok`.
    pub fn set_rb21_checked(&mut self, value: bool) -> (done: Result<(), ()>)
        ensures
            done is Ok,
            final(self)@ == insert(old(self)@ as u64, 7, 1, value as u64),
    {
        self.set_rb21(value);
        Ok(())
    }
}

impl Default for BbcnOfdmphrtx {
    fn default() -> (reg: Self)
        ensures
            reg@ == 0,
    {
        Self::new()
    }
}

impl From<u8> for BbcnOfdmphrtx {
    fn from(v: u8) -> (reg: Self) {
        Self(v)
    }
}

impl FromSpecImpl<u8> for BbcnOfdmphrtx {
    open spec fn obeys_from_spec() -> bool {
        true
    }

    open spec fn from_spec(v: u8) -> Self {
        BbcnOfdmphrtx(v)
    }
}

impl From<BbcnOfdmphrtx> for u8 {
    fn from(v: BbcnOfdmphrtx) -> (bits: u8) {
        v.0
    }
}

impl FromSpecImpl<BbcnOfdmphrtx> for u8 {
    open spec fn obeys_from_spec() -> bool {
        true
    }

    open spec fn from_spec(v: BbcnOfdmphrtx) -> u8 {
        v.0
    }
}

/// BBCn_OFDMPHRRX - OFDM PHR Receive Configuration (Read Only)
///
/// OFDM PHY header received configuration.
#[derive(Debug, Clone, Copy, PartialEq, Eq)]
pub struct BbcnOfdmphrrx(pub u8);

impl View for BbcnOfdmphrrx {
    type V = u8;

    open spec fn view(&self) -> u8 {
        self.0
    }
}

impl BbcnOfdmphrrx {
    /// The register with every field at its reset value.
    pub fn new() -> (reg: Self)
        ensures
            reg@ == 0,
    {
        Self(0)
    }

    /// The register that holds `bits`.
    pub fn from_bits(bits: u8) -> (reg: Self)
        ensures
            reg@ == bits,
    {
        Self(bits)
    }

    /// The bits that the register holds.
    pub fn into_bits(self) -> (bits: u8)
        ensures
            bits == self@,
    {
        self.0
    }

    /// Modulation and Coding Scheme (Read Only)
    ///
    /// Bits: 0..3
    pub fn mcs(&self) -> (value: u8)
        ensures
            value == extract(self@ as u64, 0, 3),
    {
        extract_u8(self.0, 0, 3)
    }

    /// Scrambler/Interleaver Puncturing Configuration (Read Only)
    ///
    /// Bits: 3..4
    pub fn spc(&self) -> (value: bool)
        ensures
            value == (extract(self@ as u64, 3, 1) != 0),
    {
        extract_u8(self.0, 3, 1) != 0
    }

    /// Reserved Bit 5 (Read Only)
    ///
    /// Bits: 4..5
    pub fn rb5(&self) -> (value: bool)
        ensures
            value == (extract(self@ as u64, 4, 1) != 0),
    {
        extract_u8(self.0, 4, 1) != 0
    }

    /// Reserved Bit 17 (Read Only)
    ///
    /// Bits: 5..6
    pub fn rb17(&self) -> (value: bool)
        ensures
            value == (extract(self@ as u64, 5, 1) != 0),
    {
        extract_u8(self.0, 5, 1) != 0
    }

    /// Reserved Bit 18 (Read Only)
    ///
    /// Bits: 6..7
    pub fn rb18(&self) -> (value: bool)
        ensures
            value == (extract(self@ as u64, 6, 1) != 0),
    {
        extract_u8(self.0, 6, 1) != 0
    }

    /// Reserved Bit 21 (Read Only)
    ///
    /// Bits: 7..8
    pub fn rb21(&self) -> (value: bool)
        ensures
            value == (extract(self@ as u64, 7, 1) != 0),
    {
        extract_u8(self.0, 7, 1) != 0
    }
}

impl Default for BbcnOfdmphrrx {
    fn default() -> (reg: Self)
        ensures
            reg@ == 0,
    {
        Self::new()
    }
}

impl From<u8> for BbcnOfdmphrrx {
    fn from(v: u8) -> (reg: Self) {
        Self(v)
    }
}

impl FromSpecImpl<u8> for BbcnOfdmphrrx {
    open spec fn obeys_from_spec() -> bool {
        true
    }

    open spec fn from_spec(v: u8) -> Self {
        BbcnOfdmphrrx(v)
    }
}

impl From<BbcnOfdmphrrx> for u8 {
    fn from(v: BbcnOfdmphrrx) -> (bits: u8) {
        v.0
    }
}

impl FromSpecImpl<BbcnOfdmphrrx> for u8 {
    open spec fn obeys_from_spec() -> bool {
        true
    }

    open spec fn from_spec(v: BbcnOfdmphrrx) -> u8 {
        v.0
    }
}

/// BBCn_OFDMC - OFDM Configuration
///
/// Main OFDM configuration register.
#[derive(Debug, Clone, Copy, PartialEq, Eq)]
pub struct BbcnOfdmc(pub u8);

impl View for BbcnOfdmc {
    type V = u8;

    open spec fn view(&self) -> u8 {
        self.0
    }
}

impl BbcnOfdmc {
    /// The register with every field at its reset value.
    pub fn new() -> (reg: Self)
        ensures
            reg@ == 0,
    {
        Self(0)
    }

    /// The register that holds `bits`.
    pub fn from_bits(bits: u8) -> (reg: Self)
        ensures
            reg@ == bits,
    {
        Self(bits)
    }

    /// The bits that the register holds.
    pub fn into_bits(self) -> (bits: u8)
        ensures
            bits == self@,
    {
        self.0
    }

    /// OFDM Option
    /// - 0: Option 1 (BPSK, QPSK, 16-QAM, 64-QAM)
    /// - 1: Option 2 (BPSK, QPSK, 16-QAM)
    /// - 2: Option 3 (QPSK, 16-QAM)
    /// - 3: Option 4 (BPSK)
    ///
    /// Bits: 0..2
    pub fn opt(&self) -> (value: u8)
        ensures
            value == extract(self@ as u64, 0, 2),
    {
        extract_u8(self.0, 0, 2)
    }

    /// Returns the register with `opt` set to `value`.
    pub fn with_opt(self, value: u8) -> (reg: Self)
        requires
            value <= 0x3,
        ensures
            reg@ == insert(self@ as u64, 0, 2, value as u64),
            extract(reg@ as u64, 0, 2) == value,
    {
        proof {
            lemma_low_mask_values();
        }
        Self(insert_u8(self.0, 0, 2, value))
    }

    /// Returns the register with `opt` set to `value`, or `Err` where `value`
    /// exceeds `0x3`.
    pub fn with_opt_checked(self, value: u8) -> (reg: Result<Self, ()>)
        ensures
            value <= 0x3 ==> reg is Ok && reg.unwrap()@ == insert(self@ as u64, 0, 2, value as u64),
            value > 0x3 ==> reg is Err,
    {
        if value > 0x3 {
            return Err(());
        }
        Ok(self.with_opt(value))
    }

    /// Sets `opt` to `value`.
    pub fn set_opt(&mut self, value: u8)
        requires
            value <= 0x3,
        ensures
            final(self)@ == insert(old(self)@ as u64, 0, 2, value as u64),
            extract(final(self)@ as u64, 0, 2) == value,
    {
        proof {
            lemma_low_mask_values();
        }
        self.0 = insert_u8(self.0, 0, 2, value);
    }

    /// Sets `opt` to `value`, or returns `Err` and leaves the register as it
    /// is where `value` exceeds `0x3`.
    pub fn set_opt_checked(&mut self, value: u8) -> (done: Result<(), ()>)
        ensures
            value <= 0x3 ==> done is Ok && final(self)@ == insert(
                old(self)@ as u64,
                0,
                2,
                value as u64,
            ),
            value > 0x3 ==> done is Err && final(self)@ == old(self)@,
    {
        if value > 0x3 {
            return Err(());
        }
        self.set_opt(value);
        Ok(())
    }

    /// Pilot Interleaving
    /// - 0: Disabled
    /// - 1: Enabled
    ///
    /// Bits: 2..3
    pub fn poi(&self) -> (value: bool)
        ensures
            value == (extract(self@ as u64, 2, 1) != 0),
    {
        extract_u8(self.0, 2, 1) != 0
    }

    /// Returns the register with `poi` set to `value`.
    pub fn with_poi(self, value: bool) -> (reg: Self)
        ensures
            reg@ == insert(self@ as u64, 2, 1, value as u64),
            (extract(reg@ as u64, 2, 1) != 0) == value,
    {
        proof {
            lemma_low_mask_values();
        }
        Self(insert_u8(self.0, 2, 1, value as u8))
    }

    /// Returns the register with `poi` set to `value`. Every value fits the
    /// field, so the result is always `Ok`.
    pub fn with_poi_checked(self, value: bool) -> (reg: Result<Self, ()>)
        ensures
            reg is Ok,
            reg.unwrap()@ == insert(self@ as u64, 2, 1, value as u64),
    {
        Ok(self.with_poi(value))
    }

    /// Sets `poi` to `value`.
    pub fn set_poi(&mut self, value: bool)
        ensures
            final(self)@ == insert(old(self)@ as u64, 2, 1, value as u64),
            (extract(final(self)@ as u64, 2, 1) != 0) == value,
    {
        proof {
            lemma_low_mask_values();
        }
        self.0 = insert_u8(self.0, 2, 1, value as u8);
    }

    /// Sets `poi` to `value`. Every value fits the field, so the result is
    /// always `Ok`.
    pub fn set_poi_checked(&mut self, value: bool) -> (done: Result<(), ()>)
        ensures
            done is Ok,
            final(self)@ == insert(old(self)@ as u64, 2, 1, value as u64),
    {
        self.set_poi(value);
        Ok(())
    }

    /// Legacy OFDM mode
    ///
    /// Bits: 3..4
    pub fn lfo(&self) -> (value: bool)
        ensures
            value == (extract(self@ as u64, 3, 1) != 0),
    {
        extract_u8(self.0, 3, 1) != 0
    }

    /// Returns the register with `lfo` set to `value`.
    pub fn with_lfo(self, value: bool) -> (reg: Self)
        ensures
            reg@ == insert(self@ as u64, 3, 1, value as u64),
            (extract(reg@ as u64, 3, 1) != 0) == value,
    {
        proof {
            lemma_low_mask_values();
        }
        Self(insert_u8(self.0, 3, 1, value as u8))
    }

    /// Returns the register with `lfo` set to `value`. Every value fits the
    /// field, so the result is always `Ok`.
    pub fn with_lfo_checked(self, value: bool) -> (reg: Result<Self, ()>)
        ensures
            reg is Ok,
            reg.unwrap()@ == insert(self@ as u64, 3, 1, value as u64),
    {
        Ok(self.with_lfo(value))
    }

    /// Sets `lfo` to `value`.
    pub fn set_lfo(&mut self, value: bool)
        ensures
            final(self)@ == insert(old(self)@ as u64, 3, 1, value as u64),
            (extract(final(self)@ as u64, 3, 1) != 0) == value,
    {
        proof {
            lemma_low_mask_values();
        }
        self.0 = insert_u8(self.0, 3, 1, value as u8);
    }

    /// Sets `lfo` to `value`. Every value fits the field, so the result is
    /// always `Ok`.
    pub fn set_lfo_checked(&mut self, value: bool) -> (done: Result<(), ()>)
        ensures
            done is Ok,
            final(self)@ == insert(old(self)@ as u64, 3, 1, value as u64),
    {
        self.set_lfo(value);
        Ok(())
    }

    /// Interleaver Scrambler Seed TX
    ///
    /// Bits: 4..6
    pub fn sstx(&self) -> (value: u8)
        ensures
            value == extract(self@ as u64, 4, 2),
    {
        extract_u8(self.0, 4, 2)
    }

    /// Returns the register with `sstx` set to `value`.
    pub fn with_sstx(self, value: u8) -> (reg: Self)
        requires
            value <= 0x3,
        ensures
            reg@ == insert(self@ as u64, 4, 2, value as u64),
            extract(reg@ as u64, 4, 2) == value,
    {
        proof {
            lemma_low_mask_values();
        }
        Self(insert_u8(self.0, 4, 2, value))
    }

    /// Returns the register with `sstx` set to `value`, or `Err` where `value`
    /// exceeds `0x3`.
    pub fn with_sstx_checked(self, value: u8) -> (reg: Result<Self, ()>)
        ensures
            value <= 0x3 ==> reg is Ok && reg.unwrap()@ == insert(self@ as u64, 4, 2, value as u64),
            value > 0x3 ==> reg is Err,
    {
        if value > 0x3 {
            return Err(());
        }
        Ok(self.with_sstx(value))
    }

    /// Sets `sstx` to `value`.
    pub fn set_sstx(&mut self, value: u8)
        requires
            value <= 0x3,
        ensures
            final(self)@ == insert(old(self)@ as u64, 4, 2, value as u64),
            extract(final(self)@ as u64, 4, 2) == value,
    {
        proof {
            lemma_low_mask_values();
        }
        self.0 = insert_u8(self.0, 4, 2, value);
    }

    /// Sets `sstx` to `value`, or returns `Err` and leaves the register as it
    /// is where `value` exceeds `0x3`.
    pub fn set_sstx_checked(&mut self, value: u8) -> (done: Result<(), ()>)
        ensures
            value <= 0x3 ==> done is Ok && final(self)@ == insert(
                old(self)@ as u64,
                4,
                2,
                value as u64,
            ),
            value > 0x3 ==> done is Err && final(self)@ == old(self)@,
    {
        if value > 0x3 {
            return Err(());
        }
        self.set_sstx(value);
        Ok(())
    }

    /// Interleaver Scrambler Seed RX
    ///
    /// Bits: 6..8
    pub fn ssrx(&self) -> (value: u8)
        ensures
            value == extract(self@ as u64, 6, 2),
    {
        extract_u8(self.0, 6, 2)
    }

    /// Returns the register with `ssrx` set to `value`.
    pub fn with_ssrx(self, value: u8) -> (reg: Self)
        requires
            value <= 0x3,
        ensures
            reg@ == insert(self@ as u64, 6, 2, value as u64),
            extract(reg@ as u64, 6, 2) == value,
    {
        proof {
            lemma_low_mask_values();
        }
        Self(insert_u8(self.0, 6, 2, value))
    }

    /// Returns the register with `ssrx` set to `value`, or `Err` where `value`
    /// exceeds `0x3`.
    pub fn with_ssrx_checked(self, value: u8) -> (reg: Result<Self, ()>)
        ensures
            value <= 0x3 ==> reg is Ok && reg.unwrap()@ == insert(self@ as u64, 6, 2, value as u64),
            value > 0x3 ==> reg is Err,
    {
        if value > 0x3 {
            return Err(());
        }
        Ok(self.with_ssrx(value))
    }

    /// Sets `ssrx` to `value`.
    pub fn set_ssrx(&mut self, value: u8)
        requires
            value <= 0x3,
        ensures
            final(self)@ == insert(old(self)@ as u64, 6, 2, value as u64),
            extract(final(self)@ as u64, 6, 2) == value,
    {
        proof {
            lemma_low_mask_values();
        }
        self.0 = insert_u8(self.0, 6, 2, value);
    }

    /// Sets `ssrx` to `value`, or returns `Err` and leaves the register as it
    /// is where `value` exceeds `0x3`.
    pub fn set_ssrx_checked(&mut self, value: u8) -> (done: Result<(), ()>)
        ensures
            value <= 0x3 ==> done is Ok && final(self)@ == insert(
                old(self)@ as u64,
                6,
                2,
                value as u64,
            ),
            value > 0x3 ==> done is Err && final(self)@ == old(self)@,
    {
        if value > 0x3 {
            return Err(());
        }
        self.set_ssrx(value);
        Ok(())
    }
}

impl Default for BbcnOfdmc {
    fn default() -> (reg: Self)
        ensures
            reg@ == 0,
    {
        Self::new()
    }
}

impl From<u8> for BbcnOfdmc {
    fn from(v: u8) -> (reg: Self) {
        Self(v)
    }
}

impl FromSpecImpl<u8> for BbcnOfdmc {
    open spec fn obeys_from_spec() -> bool {
        true
    }

    open spec fn from_spec(v: u8) -> Self {
        BbcnOfdmc(v)
    }
}

impl From<BbcnOfdmc> for u8 {
    fn from(v: BbcnOfdmc) -> (bits: u8) {
        v.0
    }
}

impl FromSpecImpl<BbcnOfdmc> for u8 {
    open spec fn obeys_from_spec() -> bool {
        true
    }

    open spec fn from_spec(v: BbcnOfdmc) -> u8 {
        v.0
    }
}

/// BBCn_OFDMSW - OFDM Switch
///
/// OFDM receiver configuration.
#[derive(Debug, Clone, Copy, PartialEq, Eq)]
pub struct BbcnOfdmsw(pub u8);

impl View for BbcnOfdmsw {
    type V = u8;

    open spec fn view(&self) -> u8 {
        self.0
    }
}

impl BbcnOfdmsw {
    /// The register with every field at its reset value.
    pub fn new() -> (reg: Self)
        ensures
            reg@ == 0,
    {
        Self(0)
    }

    /// The register that holds `bits`.
    pub fn from_bits(bits: u8) -> (reg: Self)
        ensures
            reg@ == bits,
    {
        Self(bits)
    }

    /// The bits that the register holds.
    pub fn into_bits(self) -> (bits: u8)
        ensures
            bits == self@,
    {
        self.0
    }

    /// RX Override
    ///
    /// Bits: 4..6
    pub fn rxo(&self) -> (value: u8)
        ensures
            value == extract(self@ as u64, 4, 2),
    {
        extract_u8(self.0, 4, 2)
    }

    /// Returns the register with `rxo` set to `value`.
    pub fn with_rxo(self, value: u8) -> (reg: Self)
        requires
            value <= 0x3,
        ensures
            reg@ == insert(self@ as u64, 4, 2, value as u64),
            extract(reg@ as u64, 4, 2) == value,
    {
        proof {
            lemma_low_mask_values();
        }
        Self(insert_u8(self.0, 4, 2, value))
    }

    /// Returns the register with `rxo` set to `value`, or `Err` where `value`
    /// exceeds `0x3`.
    pub fn with_rxo_checked(self, value: u8) -> (reg: Result<Self, ()>)
        ensures
            value <= 0x3 ==> reg is Ok && reg.unwrap()@ == insert(self@ as u64, 4, 2, value as u64),
            value > 0x3 ==> reg is Err,
    {
        if value > 0x3 {
            return Err(());
        }
        Ok(self.with_rxo(value))
    }

    /// Sets `rxo` to `value`.
    pub fn set_rxo(&mut self, value: u8)
        requires
            value <= 0x3,
        ensures
            final(self)@ == insert(old(self)@ as u64, 4, 2, value as u64),
            extract(final(self)@ as u64, 4, 2) == value,
    {
        proof {
            lemma_low_mask_values();
        }
        self.0 = insert_u8(self.0, 4, 2, value);
    }

    /// Sets `rxo` to `value`, or returns `Err` and leaves the register as it
    /// is where `value` exceeds `0x3`.
    pub fn set_rxo_checked(&mut self, value: u8) -> (done: Result<(), ()>)
        ensures
            value <= 0x3 ==> done is Ok && final(self)@ == insert(
                old(self)@ as u64,
                4,
                2,
                value as u64,
            ),
            value > 0x3 ==> done is Err && final(self)@ == old(self)@,
    {
        if value > 0x3 {
            return Err(());
        }
        self.set_rxo(value);
        Ok(())
    }

    /// Preamble Detection Threshold
    ///
    /// Bits: 6..8
    pub fn pdt(&self) -> (value: u8)
        ensures
            value == extract(self@ as u64, 6, 2),
    {
        extract_u8(self.0, 6, 2)
    }

    /// Returns the register with `pdt` set to `value`.
    pub fn with_pdt(self, value: u8) -> (reg: Self)
        requires
            value <= 0x3,
        ensures
            reg@ == insert(self@ as u64, 6, 2, value as u64),
            extract(reg@ as u64, 6, 2) == value,
    {
        proof {
            lemma_low_mask_values();
        }
        Self(insert_u8(self.0, 6, 2, value))
    }

    /// Returns the register with `pdt` set to `value`, or `Err` where `value`
    /// exceeds `0x3`.
    pub fn with_pdt_checked(self, value: u8) -> (reg: Result<Self, ()>)
        ensures
            value <= 0x3 ==> reg is Ok && reg.unwrap()@ == insert(self@ as u64, 6, 2, value as u64),
            value > 0x3 ==> reg is Err,
    {
        if value > 0x3 {
            return Err(());
        }
        Ok(self.with_pdt(value))
    }

    /// Sets `pdt` to `value`.
    pub fn set_pdt(&mut self, value: u8)
        requires
            value <= 0x3,
        ensures
            final(self)@ == insert(old(self)@ as u64, 6, 2, value as u64),
            extract(final(self)@ as u64, 6, 2) == value,
    {
        proof {
            lemma_low_mask_values();
        }
        self.0 = insert_u8(self.0, 6, 2, value);
    }

    /// Sets `pdt` to `value`, or returns `Err` and leaves the register as it
    /// is where `value` exceeds `0x3`.
    pub fn set_pdt_checked(&mut self, value: u8) -> (done: Result<(), ()>)
        ensures
            value <= 0x3 ==> done is Ok && final(self)@ == insert(
                old(self)@ as u64,
                6,
                2,
                value as u64,
            ),
            value > 0x3 ==> done is Err && final(self)@ == old(self)@,
    {
        if value > 0x3 {
            return Err(());
        }
        self.set_pdt(value);
        Ok(())
    }
}

impl Default for BbcnOfdmsw {
    fn default() -> (reg: Self)
        ensures
            reg@ == 0,
    {
        Self::new()
    }
}

impl From<u8> for BbcnOfdmsw {
    fn from(v: u8) -> (reg: Self) {
        Self(v)
    }
}

impl FromSpecImpl<u8> for BbcnOfdmsw {
    open spec fn obeys_from_spec() -> bool {
        true
    }

    open spec fn from_spec(v: u8) -> Self {
        BbcnOfdmsw(v)
    }
}

impl From<BbcnOfdmsw> for u8 {
    fn from(v: BbcnOfdmsw) -> (bits: u8) {
        v.0
    }
}

impl FromSpecImpl<BbcnOfdmsw> for u8 {
    open spec fn obeys_from_spec() -> bool {
        true
    }

    open spec fn from_spec(v: BbcnOfdmsw) -> u8 {
        v.0
    }
}

/// BBCn_OQPSKC0 - O-QPSK Configuration 0
///
/// O-QPSK main configuration.
#[derive(Debug, Clone, Copy, PartialEq, Eq)]
pub struct BbcnOqpskc0(pub u8);

impl View for BbcnOqpskc0 {
    type V = u8;

    open spec fn view(&self) -> u8 {
        self.0
    }
}

impl BbcnOqpskc0 {
    /// The register with every field at its reset value.
    pub fn new() -> (reg: Self)
        ensures
            reg@ == 0,
    {
        Self(0)
    }

    /// The register that holds `bits`.
    pub fn from_bits(bits: u8) -> (reg: Self)
        ensures
            reg@ == bits,
    {
        Self(bits)
    }

    /// The bits that the register holds.
    pub fn into_bits(self) -> (bits: u8)
        ensures
            bits == self@,
    {
        self.0
    }

    /// Chip Frequency
    /// - 0: 100kchip/s
    /// - 1: 200kchip/s
    /// - 2: 1000kchip/s
    /// - 3: 2000kchip/s
    ///
    /// Bits: 0..2
    pub fn fchip(&self) -> (value: u8)
        ensures
            value == extract(self@ as u64, 0, 2),
    {
        extract_u8(self.0, 0, 2)
    }

    /// Returns the register with `fchip` set to `value`.
    pub fn with_fchip(self, value: u8) -> (reg: Self)
        requires
            value <= 0x3,
        ensures
            reg@ == insert(self@ as u64, 0, 2, value as u64),
            extract(reg@ as u64, 0, 2) == value,
    {
        proof {
            lemma_low_mask_values();
        }
        Self(insert_u8(self.0, 0, 2, value))
    }

    /// Returns the register with `fchip` set to `value`, or `Err` where `value`
    /// exceeds `0x3`.
    pub fn with_fchip_checked(self, value: u8) -> (reg: Result<Self, ()>)
        ensures
            value <= 0x3 ==> reg is Ok && reg.unwrap()@ == insert(self@ as u64, 0, 2, value as u64),
            value > 0x3 ==> reg is Err,
    {
        if value > 0x3 {
            return Err(());
        }
        Ok(self.with_fchip(value))
    }

    /// Sets `fchip` to `value`.
    pub fn set_fchip(&mut self, value: u8)
        requires
            value <= 0x3,
        ensures
            final(self)@ == insert(old(self)@ as u64, 0, 2, value as u64),
            extract(final(self)@ as u64, 0, 2) == value,
    {
        proof {
            lemma_low_mask_values();
        }
        self.0 = insert_u8(self.0, 0, 2, value);
    }

    /// Sets `fchip` to `value`, or returns `Err` and leaves the register as it
    /// is where `value` exceeds `0x3`.
    pub fn set_fchip_checked(&mut self, value: u8) -> (done: Result<(), ()>)
        ensures
            value <= 0x3 ==> done is Ok && final(self)@ == insert(
                old(self)@ as u64,
                0,
                2,
                value as u64,
            ),
            value > 0x3 ==> done is Err && final(self)@ == old(self)@,
    {
        if value > 0x3 {
            return Err(());
        }
        self.set_fchip(value);
        Ok(())
    }

    /// Modulation (MOD field) - impulse response of shaping filter
    /// - 0: RC-0.8 (raised cosine, roll-off = 0.8)
    /// - 1: RRC-0.8 (root raised cosine, roll-off = 0.8)
    ///
    /// Bits: 3..4
    pub fn mod_(&self) -> (value: bool)
        ensures
            value == (extract(self@ as u64, 3, 1) != 0),
    {
        extract_u8(self.0, 3, 1) != 0
    }

    /// Returns the register with `mod_` set to `value`.
    pub fn with_mod_(self, value: bool) -> (reg: Self)
        ensures
            reg@ == insert(self@ as u64, 3, 1, value as u64),
            (extract(reg@ as u64, 3, 1) != 0) == value,
    {
        proof {
            lemma_low_mask_values();
        }
        Self(insert_u8(self.0, 3, 1, value as u8))
    }

    /// Returns the register with `mod_` set to `value`. Every value fits the
    /// field, so the result is always `Ok`.
    pub fn with_mod__checked(self, value: bool) -> (reg: Result<Self, ()>)
        ensures
            reg is Ok,
            reg.unwrap()@ == insert(self@ as u64, 3, 1, value as u64),
    {
        Ok(self.with_mod_(value))
    }

    /// Sets `mod_` to `value`.
    pub fn set_mod_(&mut self, value: bool)
        ensures
            final(self)@ == insert(old(self)@ as u64, 3, 1, value as u64),
            (extract(final(self)@ as u64, 3, 1) != 0) == value,
    {
        proof {
            lemma_low_mask_values();
        }
        self.0 = insert_u8(self.0, 3, 1, value as u8);
    }

    /// Sets `mod_` to `value`. Every value fits the field, so the result is
    /// always `Ok`.
    pub fn set_mod__checked(&mut self, value: bool) -> (done: Result<(), ()>)
        ensures
            done is Ok,
            final(self)@ == insert(old(self)@ as u64, 3, 1, value as u64),
    {
        self.set_mod_(value);
        Ok(())
    }

    /// Direct Modulation
    ///
    /// Bits: 4..5
    pub fn dm(&self) -> (value: bool)
        ensures
            value == (extract(self@ as u64, 4, 1) != 0),
    {
        extract_u8(self.0, 4, 1) != 0
    }

    /// Returns the register with `dm` set to `value`.
    pub fn with_dm(self, value: bool) -> (reg: Self)
        ensures
            reg@ == insert(self@ as u64, 4, 1, value as u64),
            (extract(reg@ as u64, 4, 1) != 0) == value,
    {
        proof {
            lemma_low_mask_values();
        }
        Self(insert_u8(self.0, 4, 1, value as u8))
    }

    /// Returns the register with `dm` set to `value`. Every value fits the
    /// field, so the result is always `Ok`.
    pub fn with_dm_checked(self, value: bool) -> (reg: Result<Self, ()>)
        ensures
            reg is Ok,
            reg.unwrap()@ == insert(self@ as u64, 4, 1, value as u64),
    {
        Ok(self.with_dm(value))
    }

    /// Sets `dm` to `value`.
    pub fn set_dm(&mut self, value: bool)
        ensures
            final(self)@ == insert(old(self)@ as u64, 4, 1, value as u64),
            (extract(final(self)@ as u64, 4, 1) != 0) == value,
    {
        proof {
            lemma_low_mask_values();
        }
        self.0 = insert_u8(self.0, 4, 1, value as u8);
    }

    /// Sets `dm` to `value`. Every value fits the field, so the result is
    /// always `Ok`.
    pub fn set_dm_checked(&mut self, value: bool) -> (done: Result<(), ()>)
        ensures
            done is Ok,
            final(self)@ == insert(old(self)@ as u64, 4, 1, value as u64),
    {
        self.set_dm(value);
        Ok(())
    }
}

impl Default for BbcnOqpskc0 {
    fn default() -> (reg: Self)
        ensures
            reg@ == 0,
    {
        Self::new()
    }
}

impl From<u8> for BbcnOqpskc0 {
    fn from(v: u8) -> (reg: Self) {
        Self(v)
    }
}

impl FromSpecImpl<u8> for BbcnOqpskc0 {
    open spec fn obeys_from_spec() -> bool {
        true
    }

    open spec fn from_spec(v: u8) -> Self {
        BbcnOqpskc0(v)
    }
}

impl From<BbcnOqpskc0> for u8 {
    fn from(v: BbcnOqpskc0) -> (bits: u8) {
        v.0
    }
}

impl FromSpecImpl<BbcnOqpskc0> for u8 {
    open spec fn obeys_from_spec() -> bool {
        true
    }

    open spec fn from_spec(v: BbcnOqpskc0) -> u8 {
        v.0
    }
}

/// BBCn_OQPSKC1 - O-QPSK Configuration 1
///
/// O-QPSK preamble and detection configuration.
#[derive(Debug, Clone, Copy, PartialEq, Eq)]
pub struct BbcnOqpskc1(pub u8);

impl View for BbcnOqpskc1 {
    type V = u8;

    open spec fn view(&self) -> u8 {
        self.0
    }
}

impl BbcnOqpskc1 {
    /// The register with every field at its reset value.
    pub fn new() -> (reg: Self)
        ensures
            reg@ == 0,
    {
        Self(0)
    }

    /// The register that holds `bits`.
    pub fn from_bits(bits: u8) -> (reg: Self)
        ensures
            reg@ == bits,
    {
        Self(bits)
    }

    /// The bits that the register holds.
    pub fn into_bits(self) -> (bits: u8)
        ensures
            bits == self@,
    {
        self.0
    }

    /// Preamble Detection Threshold 0
    ///
    /// Bits: 0..4
    pub fn pdt0(&self) -> (value: u8)
        ensures
            value == extract(self@ as u64, 0, 4),
    {
        extract_u8(self.0, 0, 4)
    }

    /// Returns the register with `pdt0` set to `value`.
    pub fn with_pdt0(self, value: u8) -> (reg: Self)
        requires
            value <= 0xF,
        ensures
            reg@ == insert(self@ as u64, 0, 4, value as u64),
            extract(reg@ as u64, 0, 4) == value,
    {
        proof {
            lemma_low_mask_values();
        }
        Self(insert_u8(self.0, 0, 4, value))
    }

    /// Returns the register with `pdt0` set to `value`, or `Err` where `value`
    /// exceeds `0xF`.
    pub fn with_pdt0_checked(self, value: u8) -> (reg: Result<Self, ()>)
        ensures
            value <= 0xF ==> reg is Ok && reg.unwrap()@ == insert(self@ as u64, 0, 4, value as u64),
            value > 0xF ==> reg is Err,
    {
        if value > 0xF {
            return Err(());
        }
        Ok(self.with_pdt0(value))
    }

    /// Sets `pdt0` to `value`.
    pub fn set_pdt0(&mut self, value: u8)
        requires
            value <= 0xF,
        ensures
            final(self)@ == insert(old(self)@ as u64, 0, 4, value as u64),
            extract(final(self)@ as u64, 0, 4) == value,
    {
        proof {
            lemma_low_mask_values();
        }
        self.0 = insert_u8(self.0, 0, 4, value);
    }

    /// Sets `pdt0` to `value`, or returns `Err` and leaves the register as it
    /// is where `value` exceeds `0xF`.
    pub fn set_pdt0_checked(&mut self, value: u8) -> (done: Result<(), ()>)
        ensures
            value <= 0xF ==> done is Ok && final(self)@ == insert(
                old(self)@ as u64,
                0,
                4,
                value as u64,
            ),
            value > 0xF ==> done is Err && final(self)@ == old(self)@,
    {
        if value > 0xF {
            return Err(());
        }
        self.set_pdt0(value);
        Ok(())
    }

    /// Preamble Detection Threshold 1
    ///
    /// Bits: 4..6
    pub fn pdt1(&self) -> (value: u8)
        ensures
            value == extract(self@ as u64, 4, 2),
    {
        extract_u8(self.0, 4, 2)
    }

    /// Returns the register with `pdt1` set to `value`.
    pub fn with_pdt1(self, value: u8) -> (reg: Self)
        requires
            value <= 0x3,
        ensures
            reg@ == insert(self@ as u64, 4, 2, value as u64),
            extract(reg@ as u64, 4, 2) == value,
    {
        proof {
            lemma_low_mask_values();
        }
        Self(insert_u8(self.0, 4, 2, value))
    }

    /// Returns the register with `pdt1` set to `value`, or `Err` where `value`
    /// exceeds `0x3`.
    pub fn with_pdt1_checked(self, value: u8) -> (reg: Result<Self, ()>)
        ensures
            value <= 0x3 ==> reg is Ok && reg.unwrap()@ == insert(self@ as u64, 4, 2, value as u64),
            value > 0x3 ==> reg is Err,
    {
        if value > 0x3 {
            return Err(());
        }
        Ok(self.with_pdt1(value))
    }

    /// Sets `pdt1` to `value`.
    pub fn set_pdt1(&mut self, value: u8)
        requires
            value <= 0x3,
        ensures
            final(self)@ == insert(old(self)@ as u64, 4, 2, value as u64),
            extract(final(self)@ as u64, 4, 2) == value,
    {
        proof {
            lemma_low_mask_values();
        }
        self.0 = insert_u8(self.0, 4, 2, value);
    }

    /// Sets `pdt1` to `value`, or returns `Err` and leaves the register as it
    /// is where `value` exceeds `0x3`.
    pub fn set_pdt1_checked(&mut self, value: u8) -> (done: Result<(), ()>)
        ensures
            value <= 0x3 ==> done is Ok && final(self)@ == insert(
                old(self)@ as u64,
                4,
                2,
                value as u64,
            ),
            value > 0x3 ==> done is Err && final(self)@ == old(self)@,
    {
        if value > 0x3 {
            return Err(());
        }
        self.set_pdt1(value);
        Ok(())
    }

    /// RX Override Legacy
    ///
    /// Bits: 6..7
    pub fn rxoleg(&self) -> (value: bool)
        ensures
            value == (extract(self@ as u64, 6, 1) != 0),
    {
        extract_u8(self.0, 6, 1) != 0
    }

    /// Returns the register with `rxoleg` set to `value`.
    pub fn with_rxoleg(self, value: bool) -> (reg: Self)
        ensures
            reg@ == insert(self@ as u64, 6, 1, value as u64),
            (extract(reg@ as u64, 6, 1) != 0) == value,
    {
        proof {
            lemma_low_mask_values();
        }
        Self(insert_u8(self.0, 6, 1, value as u8))
    }

    /// Returns the register with `rxoleg` set to `value`. Every value fits the
    /// field, so the result is always `Ok`.
    pub fn with_rxoleg_checked(self, value: bool) -> (reg: Result<Self, ()>)
        ensures
            reg is Ok,
            reg.unwrap()@ == insert(self@ as u64, 6, 1, value as u64),
    {
        Ok(self.with_rxoleg(value))
    }

    /// Sets `rxoleg` to `value`.
    pub fn set_rxoleg(&mut self, value: bool)
        ensures
            final(self)@ == insert(old(self)@ as u64, 6, 1, value as u64),
            (extract(final(self)@ as u64, 6, 1) != 0) == value,
    {
        proof {
            lemma_low_mask_values();
        }
        self.0 = insert_u8(self.0, 6, 1, value as u8);
    }

    /// Sets `rxoleg` to `value`. Every value fits the field, so the result is
    /// always `Ok`.
    pub fn set_rxoleg_checked(&mut self, value: bool) -> (done: Result<(), ()>)
        ensures
            done is Ok,
            final(self)@ == insert(old(self)@ as u64, 6, 1, value as u64),
    {
        self.set_rxoleg(value);
        Ok(())
    }

    /// RX Override
    ///
    /// Bits: 7..8
    pub fn rxo(&self) -> (value: bool)
        ensures
            value == (extract(self@ as u64, 7, 1) != 0),
    {
        extract_u8(self.0, 7, 1) != 0
    }

    /// Returns the register with `rxo` set to `value`.
    pub fn with_rxo(self, value: bool) -> (reg: Self)
        ensures
            reg@ == insert(self@ as u64, 7, 1, value as u64),
            (extract(reg@ as u64, 7, 1) != 0) == value,
    {
        proof {
            lemma_low_mask_values();
        }
        Self(insert_u8(self.0, 7, 1, value as u8))
    }

    /// Returns the register with `rxo` set to `value`. Every value fits the
    /// field, so the result is always `Ok`.
    pub fn with_rxo_checked(self, value: bool) -> (reg: Result<Self, ()>)
        ensures
            reg is Ok,
            reg.unwrap()@ == insert(self@ as u64, 7, 1, value as u64),
    {
        Ok(self.with_rxo(value))
    }

    /// Sets `rxo` to `value`.
    pub fn set_rxo(&mut self, value: bool)
        ensures
            final(self)@ == insert(old(self)@ as u64, 7, 1, value as u64),
            (extract(final(self)@ as u64, 7, 1) != 0) == value,
    {
        proof {
            lemma_low_mask_values();
        }
        self.0 = insert_u8(self.0, 7, 1, value as u8);
    }

    /// Sets `rxo` to `value`. Every value fits the field, so the result is
    /// always `Ok`.
    pub fn set_rxo_checked(&mut self, value: bool) -> (done: Result<(), ()>)
        ensures
            done is Ok,
            final(self)@ == insert(old(self)@ as u64, 7, 1, value as u64),
    {
        self.set_rxo(value);
        Ok(())
    }
}

impl Default for BbcnOqpskc1 {
    fn default() -> (reg: Self)
        ensures
            reg@ == 0,
    {
        Self::new()
    }
}

impl From<u8> for BbcnOqpskc1 {
    fn from(v: u8) -> (reg: Self) {
        Self(v)
    }
}

impl FromSpecImpl<u8> for BbcnOqpskc1 {
    open spec fn obeys_from_spec() -> bool {
        true
    }

    open spec fn from_spec(v: u8) -> Self {
        BbcnOqpskc1(v)
    }
}

impl From<BbcnOqpskc1> for u8 {
    fn from(v: BbcnOqpskc1) -> (bits: u8) {
        v.0
    }
}

impl FromSpecImpl<BbcnOqpskc1> for u8 {
    open spec fn obeys_from_spec() -> bool {
        true
    }

    open spec fn from_spec(v: BbcnOqpskc1) -> u8 {
        v.0
    }
}

/// BBCn_OQPSKC2 - O-QPSK Configuration 2
///
/// O-QPSK receiver configuration.
#[derive(Debug, Clone, Copy, PartialEq, Eq)]
pub struct BbcnOqpskc2(pub u8);

impl View for BbcnOqpskc2 {
    type V = u8;

    open spec fn view(&self) -> u8 {
        self.0
    }
}

impl BbcnOqpskc2 {
    /// The register with every field at its reset value.
    pub fn new() -> (reg: Self)
        ensures
            reg@ == 0,
    {
        Self(0)
    }

    /// The register that holds `bits`.
    pub fn from_bits(bits: u8) -> (reg: Self)
        ensures
            reg@ == bits,
    {
        Self(bits)
    }

    /// The bits that the register holds.
    pub fn into_bits(self) -> (bits: u8)
        ensures
            bits == self@,
    {
        self.0
    }

    /// RX Mode
    ///
    /// Bits: 0..2
    pub fn rxm(&self) -> (value: u8)
        ensures
            value == extract(self@ as u64, 0, 2),
    {
        extract_u8(self.0, 0, 2)
    }

    /// Returns the register with `rxm` set to `value`.
    pub fn with_rxm(self, value: u8) -> (reg: Self)
        requires
            value <= 0x3,
        ensures
            reg@ == insert(self@ as u64, 0, 2, value as u64),
            extract(reg@ as u64, 0, 2) == value,
    {
        proof {
            lemma_low_mask_values();
        }
        Self(insert_u8(self.0, 0, 2, value))
    }

    /// Returns the register with `rxm` set to `value`, or `Err` where `value`
    /// exceeds `0x3`.
    pub fn with_rxm_checked(self, value: u8) -> (reg: Result<Self, ()>)
        ensures
            value <= 0x3 ==> reg is Ok && reg.unwrap()@ == insert(self@ as u64, 0, 2, value as u64),
            value > 0x3 ==> reg is Err,
    {
        if value > 0x3 {
            return Err(());
        }
        Ok(self.with_rxm(value))
    }

    /// Sets `rxm` to `value`.
    pub fn set_rxm(&mut self, value: u8)
        requires
            value <= 0x3,
        ensures
            final(self)@ == insert(old(self)@ as u64, 0, 2, value as u64),
            extract(final(self)@ as u64, 0, 2) == value,
    {
        proof {
            lemma_low_mask_values();
        }
        self.0 = insert_u8(self.0, 0, 2, value);
    }

    /// Sets `rxm` to `value`, or returns `Err` and leaves the register as it
    /// is where `value` exceeds `0x3`.
    pub fn set_rxm_checked(&mut self, value: u8) -> (done: Result<(), ()>)
        ensures
            value <= 0x3 ==> done is Ok && final(self)@ == insert(
                old(self)@ as u64,
                0,
                2,
                value as u64,
            ),
            value > 0x3 ==> done is Err && final(self)@ == old(self)@,
    {
        if value > 0x3 {
            return Err(());
        }
        self.set_rxm(value);
        Ok(())
    }

    /// FCS Type Legacy
    ///
    /// Bits: 2..3
    pub fn fcstleg(&self) -> (value: bool)
        ensures
            value == (extract(self@ as u64, 2, 1) != 0),
    {
        extract_u8(self.0, 2, 1) != 0
    }

    /// Returns the register with `fcstleg` set to `value`.
    pub fn with_fcstleg(self, value: bool) -> (reg: Self)
        ensures
            reg@ == insert(self@ as u64, 2, 1, value as u64),
            (extract(reg@ as u64, 2, 1) != 0) == value,
    {
        proof {
            lemma_low_mask_values();
        }
        Self(insert_u8(self.0, 2, 1, value as u8))
    }

    /// Returns the register with `fcstleg` set to `value`. Every value fits the
    /// field, so the result is always `Ok`.
    pub fn with_fcstleg_checked(self, value: bool) -> (reg: Result<Self, ()>)
        ensures
            reg is Ok,
            reg.unwrap()@ == insert(self@ as u64, 2, 1, value as u64),
    {
        Ok(self.with_fcstleg(value))
    }

    /// Sets `fcstleg` to `value`.
    pub fn set_fcstleg(&mut self, value: bool)
        ensures
            final(self)@ == insert(old(self)@ as u64, 2, 1, value as u64),
            (extract(final(self)@ as u64, 2, 1) != 0) == value,
    {
        proof {
            lemma_low_mask_values();
        }
        self.0 = insert_u8(self.0, 2, 1, value as u8);
    }

    /// Sets `fcstleg` to `value`. Every value fits the field, so the result is
    /// always `Ok`.
    pub fn set_fcstleg_checked(&mut self, value: bool) -> (done: Result<(), ()>)
        ensures
            done is Ok,
            final(self)@ == insert(old(self)@ as u64, 2, 1, value as u64),
    {
        self.set_fcstleg(value);
        Ok(())
    }

    /// Enable Proprietary Mode
    ///
    /// Bits: 3..4
    pub fn enprop(&self) -> (value: bool)
        ensures
            value == (extract(self@ as u64, 3, 1) != 0),
    {
        extract_u8(self.0, 3, 1) != 0
    }

    /// Returns the register with `enprop` set to `value`.
    pub fn with_enprop(self, value: bool) -> (reg: Self)
        ensures
            reg@ == insert(self@ as u64, 3, 1, value as u64),
            (extract(reg@ as u64, 3, 1) != 0) == value,
    {
        proof {
            lemma_low_mask_values();
        }
        Self(insert_u8(self.0, 3, 1, value as u8))
    }

    /// Returns the register with `enprop` set to `value`. Every value fits the
    /// field, so the result is always `Ok`.
    pub fn with_enprop_checked(self, value: bool) -> (reg: Result<Self, ()>)
        ensures
            reg is Ok,
            reg.unwrap()@ == insert(self@ as u64, 3, 1, value as u64),
    {
        Ok(self.with_enprop(value))
    }

    /// Sets `enprop` to `value`.
    pub fn set_enprop(&mut self, value: bool)
        ensures
            final(self)@ == insert(old(self)@ as u64, 3, 1, value as u64),
            (extract(final(self)@ as u64, 3, 1) != 0) == value,
    {
        proof {
            lemma_low_mask_values();
        }
        self.0 = insert_u8(self.0, 3, 1, value as u8);
    }

    /// Sets `enprop` to `value`. Every value fits the field, so the result is
    /// always `Ok`.
    pub fn set_enprop_checked(&mut self, value: bool) -> (done: Result<(), ()>)
        ensures
            done is Ok,
            final(self)@ == insert(old(self)@ as u64, 3, 1, value as u64),
    {
        self.set_enprop(value);
        Ok(())
    }

    /// Rate/Power Control
    ///
    /// Bits: 4..5
    pub fn rpc(&self) -> (value: bool)
        ensures
            value == (extract(self@ as u64, 4, 1) != 0),
    {
        extract_u8(self.0, 4, 1) != 0
    }

    /// Returns the register with `rpc` set to `value`.
    pub fn with_rpc(self, value: bool) -> (reg: Self)
        ensures
            reg@ == insert(self@ as u64, 4, 1, value as u64),
            (extract(reg@ as u64, 4, 1) != 0) == value,
    {
        proof {
            lemma_low_mask_values();
        }
        Self(insert_u8(self.0, 4, 1, value as u8))
    }

    /// Returns the register with `rpc` set to `value`. Every value fits the
    /// field, so the result is always `Ok`.
    pub fn with_rpc_checked(self, value: bool) -> (reg: Result<Self, ()>)
        ensures
            reg is Ok,
            reg.unwrap()@ == insert(self@ as u64, 4, 1, value as u64),
    {
        Ok(self.with_rpc(value))
    }

    /// Sets `rpc` to `value`.
    pub fn set_rpc(&mut self, value: bool)
        ensures
            final(self)@ == insert(old(self)@ as u64, 4, 1, value as u64),
            (extract(final(self)@ as u64, 4, 1) != 0) == value,
    {
        proof {
            lemma_low_mask_values();
        }
        self.0 = insert_u8(self.0, 4, 1, value as u8);
    }

    /// Sets `rpc` to `value`. Every value fits the field, so the result is
    /// always `Ok`.
    pub fn set_rpc_checked(&mut self, value: bool) -> (done: Result<(), ()>)
        ensures
            done is Ok,
            final(self)@ == insert(old(self)@ as u64, 4, 1, value as u64),
    {
        self.set_rpc(value);
        Ok(())
    }

    /// Scrambler/Puncturing Configuration
    ///
    /// Bits: 5..6
    pub fn spc(&self) -> (value: bool)
        ensures
            value == (extract(self@ as u64, 5, 1) != 0),
    {
        extract_u8(self.0, 5, 1) != 0
    }

    /// Returns the register with `spc` set to `value`.
    pub fn with_spc(self, value: bool) -> (reg: Self)
        ensures
            reg@ == insert(self@ as u64, 5, 1, value as u64),
            (extract(reg@ as u64, 5, 1) != 0) == value,
    {
        proof {
            lemma_low_mask_values();
        }
        Self(insert_u8(self.0, 5, 1, value as u8))
    }

    /// Returns the register with `spc` set to `value`. Every value fits the
    /// field, so the result is always `Ok`.
    pub fn with_spc_checked(self, value: bool) -> (reg: Result<Self, ()>)
        ensures
            reg is Ok,
            reg.unwrap()@ == insert(self@ as u64, 5, 1, value as u64),
    {
        Ok(self.with_spc(value))
    }

    /// Sets `spc` to `value`.
    pub fn set_spc(&mut self, value: bool)
        ensures
            final(self)@ == insert(old(self)@ as u64, 5, 1, value as u64),
            (extract(final(self)@ as u64, 5, 1) != 0) == value,
    {
        proof {
            lemma_low_mask_values();
        }
        self.0 = insert_u8(self.0, 5, 1, value as u8);
    }

    /// Sets `spc` to `value`. Every value fits the field, so the result is
    /// always `Ok`.
    pub fn set_spc_checked(&mut self, value: bool) -> (done: Result<(), ()>)
        ensures
            done is Ok,
            final(self)@ == insert(old(self)@ as u64, 5, 1, value as u64),
    {
        self.set_spc(value);
        Ok(())
    }
}

impl Default for BbcnOqpskc2 {
    fn default() -> (reg: Self)
        ensures
            reg@ == 0,
    {
        Self::new()
    }
}

impl From<u8> for BbcnOqpskc2 {
    fn from(v: u8) -> (reg: Self) {
        Self(v)
    }
}

impl FromSpecImpl<u8> for BbcnOqpskc2 {
    open spec fn obeys_from_spec() -> bool {
        true
    }

    open spec fn from_spec(v: u8) -> Self {
        BbcnOqpskc2(v)
    }
}

impl From<BbcnOqpskc2> for u8 {
    fn from(v: BbcnOqpskc2) -> (bits: u8) {
        v.0
    }
}

impl FromSpecImpl<BbcnOqpskc2> for u8 {
    open spec fn obeys_from_spec() -> bool {
        true
    }

    open spec fn from_spec(v: BbcnOqpskc2) -> u8 {
        v.0
    }
}

/// BBCn_OQPSKC3 - O-QPSK Configuration 3
///
/// O-QPSK SFD configuration.
#[derive(Debug, Clone, Copy, PartialEq, Eq)]
pub struct BbcnOqpskc3(pub u8);

impl View for BbcnOqpskc3 {
    type V = u8;

    open spec fn view(&self) -> u8 {
        self.0
    }
}

impl BbcnOqpskc3 {
    /// The register with every field at its reset value.
    pub fn new() -> (reg: Self)
        ensures
            reg@ == 0,
    {
        Self(0)
    }

    /// The register that holds `bits`.
    pub fn from_bits(bits: u8) -> (reg: Self)
        ensures
            reg@ == bits,
    {
        Self(bits)
    }

    /// The bits that the register holds.
    pub fn into_bits(self) -> (bits: u8)
        ensures
            bits == self@,
    {
        self.0
    }

    /// Non-standard SFD
    ///
    /// Bits: 2..4
    pub fn nsfd(&self) -> (value: u8)
        ensures
            value == extract(self@ as u64, 2, 2),
    {
        extract_u8(self.0, 2, 2)
    }

    /// Returns the register with `nsfd` set to `value`.
    pub fn with_nsfd(self, value: u8) -> (reg: Self)
        requires
            value <= 0x3,
        ensures
            reg@ == insert(self@ as u64, 2, 2, value as u64),
            extract(reg@ as u64, 2, 2) == value,
    {
        proof {
            lemma_low_mask_values();
        }
        Self(insert_u8(self.0, 2, 2, value))
    }

    /// Returns the register with `nsfd` set to `value`, or `Err` where `value`
    /// exceeds `0x3`.
    pub fn with_nsfd_checked(self, value: u8) -> (reg: Result<Self, ()>)
        ensures
            value <= 0x3 ==> reg is Ok && reg.unwrap()@ == insert(self@ as u64, 2, 2, value as u64),
            value > 0x3 ==> reg is Err,
    {
        if value > 0x3 {
            return Err(());
        }
        Ok(self.with_nsfd(value))
    }

    /// Sets `nsfd` to `value`.
    pub fn set_nsfd(&mut self, value: u8)
        requires
            value <= 0x3,
        ensures
            final(self)@ == insert(old(self)@ as u64, 2, 2, value as u64),
            extract(final(self)@ as u64, 2, 2) == value,
    {
        proof {
            lemma_low_mask_values();
        }
        self.0 = insert_u8(self.0, 2, 2, value);
    }

    /// Sets `nsfd` to `value`, or returns `Err` and leaves the register as it
    /// is where `value` exceeds `0x3`.
    pub fn set_nsfd_checked(&mut self, value: u8) -> (done: Result<(), ()>)
        ensures
            value <= 0x3 ==> done is Ok && final(self)@ == insert(
                old(self)@ as u64,
                2,
                2,
                value as u64,
            ),
            value > 0x3 ==> done is Err && final(self)@ == old(self)@,
    {
        if value > 0x3 {
            return Err(());
        }
        self.set_nsfd(value);
        Ok(())
    }

    /// High Rate Legacy
    ///
    /// Bits: 5..6
    pub fn hrleg(&self) -> (value: bool)
        ensures
            value == (extract(self@ as u64, 5, 1) != 0),
    {
        extract_u8(self.0, 5, 1) != 0
    }

    /// Returns the register with `hrleg` set to `value`.
    pub fn with_hrleg(self, value: bool) -> (reg: Self)
        ensures
            reg@ == insert(self@ as u64, 5, 1, value as u64),
            (extract(reg@ as u64, 5, 1) != 0) == value,
    {
        proof {
            lemma_low_mask_values();
        }
        Self(insert_u8(self.0, 5, 1, value as u8))
    }

    /// Returns the register with `hrleg` set to `value`. Every value fits the
    /// field, so the result is always `Ok`.
    pub fn with_hrleg_checked(self, value: bool) -> (reg: Result<Self, ()>)
        ensures
            reg is Ok,
            reg.unwrap()@ == insert(self@ as u64, 5, 1, value as u64),
    {
        Ok(self.with_hrleg(value))
    }

    /// Sets `hrleg` to `value`.
    pub fn set_hrleg(&mut self, value: bool)
        ensures
            final(self)@ == insert(old(self)@ as u64, 5, 1, value as u64),
            (extract(final(self)@ as u64, 5, 1) != 0) == value,
    {
        proof {
            lemma_low_mask_values();
        }
        self.0 = insert_u8(self.0, 5, 1, value as u8);
    }

    /// Sets `hrleg` to `value`. Every value fits the field, so the result is
    /// always `Ok`.
    pub fn set_hrleg_checked(&mut self, value: bool) -> (done: Result<(), ()>)
        ensures
            done is Ok,
            final(self)@ == insert(old(self)@ as u64, 5, 1, value as u64),
    {
        self.set_hrleg(value);
        Ok(())
    }
}

impl Default for BbcnOqpskc3 {
    fn default() -> (reg: Self)
        ensures
            reg@ == 0,
    {
        Self::new()
    }
}

impl From<u8> for BbcnOqpskc3 {
    fn from(v: u8) -> (reg: Self) {
        Self(v)
    }
}

impl FromSpecImpl<u8> for BbcnOqpskc3 {
    open spec fn obeys_from_spec() -> bool {
        true
    }

    open spec fn from_spec(v: u8) -> Self {
        BbcnOqpskc3(v)
    }
}

impl From<BbcnOqpskc3> for u8 {
    fn from(v: BbcnOqpskc3) -> (bits: u8) {
        v.0
    }
}

impl FromSpecImpl<BbcnOqpskc3> for u8 {
    open spec fn obeys_from_spec() -> bool {
        true
    }

    open spec fn from_spec(v: BbcnOqpskc3) -> u8 {
        v.0
    }
}

/// BBCn_OQPSKPHRTX - O-QPSK PHR Transmit
///
/// O-QPSK PHY header transmit configuration.
#[derive(Debug, Clone, Copy, PartialEq, Eq)]
pub struct BbcnOqpskphrtx(pub u8);

impl View for BbcnOqpskphrtx {
    type V = u8;

    open spec fn view(&self) -> u8 {
        self.0
    }
}

impl BbcnOqpskphrtx {
    /// The register with every field at its reset value.
    pub fn new() -> (reg: Self)
        ensures
            reg@ == 0,
    {
        Self(0)
    }

    /// The register that holds `bits`.
    pub fn from_bits(bits: u8) -> (reg: Self)
        ensures
            reg@ == bits,
    {
        Self(bits)
    }

    /// The bits that the register holds.
    pub fn into_bits(self) -> (bits: u8)
        ensures
            bits == self@,
    {
        self.0
    }

    /// Legacy Mode
    ///
    /// Bits: 0..1
    pub fn leg(&self) -> (value: bool)
        ensures
            value == (extract(self@ as u64, 0, 1) != 0),
    {
        extract_u8(self.0, 0, 1) != 0
    }

    /// Returns the register with `leg` set to `value`.
    pub fn with_leg(self, value: bool) -> (reg: Self)
        ensures
            reg@ == insert(self@ as u64, 0, 1, value as u64),
            (extract(reg@ as u64, 0, 1) != 0) == value,
    {
        proof {
            lemma_low_mask_values();
        }
        Self(insert_u8(self.0, 0, 1, value as u8))
    }

    /// Returns the register with `leg` set to `value`. Every value fits the
    /// field, so the result is always `Ok`.
    pub fn with_leg_checked(self, value: bool) -> (reg: Result<Self, ()>)
        ensures
            reg is Ok,
            reg.unwrap()@ == insert(self@ as u64, 0, 1, value as u64),
    {
        Ok(self.with_leg(value))
    }

    /// Sets `leg` to `value`.
    pub fn set_leg(&mut self, value: bool)
        ensures
            final(self)@ == insert(old(self)@ as u64, 0, 1, value as u64),
            (extract(final(self)@ as u64, 0, 1) != 0) == value,
    {
        proof {
            lemma_low_mask_values();
        }
        self.0 = insert_u8(self.0, 0, 1, value as u8);
    }

    /// Sets `leg` to `value`. Every value fits the field, so the result is
    /// always `Ok`.
    pub fn set_leg_checked(&mut self, value: bool) -> (done: Result<(), ()>)
        ensures
            done is Ok,
            final(self)@ == insert(old(self)@ as u64, 0, 1, value as u64),
    {
        self.set_leg(value);
        Ok(())
    }

    /// Rate Mode (MOD field)
    ///
    /// Bits: 1..4
    pub fn mod_(&self) -> (value: u8)
        ensures
            value == extract(self@ as u64, 1, 3),
    {
        extract_u8(self.0, 1, 3)
    }

    /// Returns the register with `mod_` set to `value`.
    pub fn with_mod_(self, value: u8) -> (reg: Self)
        requires
            value <= 0x7,
        ensures
            reg@ == insert(self@ as u64, 1, 3, value as u64),
            extract(reg@ as u64, 1, 3) == value,
    {
        proof {
            lemma_low_mask_values();
        }
        Self(insert_u8(self.0, 1, 3, value))
    }

    /// Returns the register with `mod_` set to `value`, or `Err` where `value`
    /// exceeds `0x7`.
    pub fn with_mod__checked(self, value: u8) -> (reg: Result<Self, ()>)
        ensures
            value <= 0x7 ==> reg is Ok && reg.unwrap()@ == insert(self@ as u64, 1, 3, value as u64),
            value > 0x7 ==> reg is Err,
    {
        if value > 0x7 {
            return Err(());
        }
        Ok(self.with_mod_(value))
    }

    /// Sets `mod_` to `value`.
    pub fn set_mod_(&mut self, value: u8)
        requires
            value <= 0x7,
        ensures
            final(self)@ == insert(old(self)@ as u64, 1, 3, value as u64),
            extract(final(self)@ as u64, 1, 3) == value,
    {
        proof {
            lemma_low_mask_values();
        }
        self.0 = insert_u8(self.0, 1, 3, value);
    }

    /// Sets `mod_` to `value`, or returns `Err` and leaves the register as it
    /// is where `value` exceeds `0x7`.
    pub fn set_mod__checked(&mut self, value: u8) -> (done: Result<(), ()>)
        ensures
            value <= 0x7 ==> done is Ok && final(self)@ == insert(
                old(self)@ as u64,
                1,
                3,
                value as u64,
            ),
            value > 0x7 ==> done is Err && final(self)@ == old(self)@,
    {
        if value > 0x7 {
            return Err(());
        }
        self.set_mod_(value);
        Ok(())
    }

    /// Reserved Bit 0
    ///
    /// Bits: 4..5
    pub fn rb0(&self) -> (value: bool)
        ensures
            value == (extract(self@ as u64, 4, 1) != 0),
    {
        extract_u8(self.0, 4, 1) != 0
    }

    /// Returns the register with `rb0` set to `value`.
    pub fn with_rb0(self, value: bool) -> (reg: Self)
        ensures
            reg@ == insert(self@ as u64, 4, 1, value as u64),
            (extract(reg@ as u64, 4, 1) != 0) == value,
    {
        proof {
            lemma_low_mask_values();
        }
        Self(insert_u8(self.0, 4, 1, value as u8))
    }

    /// Returns the register with `rb0` set to `value`. Every value fits the
    /// field, so the result is always `Ok`.
    pub fn with_rb0_checked(self, value: bool) -> (reg: Result<Self, ()>)
        ensures
            reg is Ok,
            reg.unwrap()@ == insert(self@ as u64, 4, 1, value as u64),
    {
        Ok(self.with_rb0(value))
    }

    /// Sets `rb0` to `value`.
    pub fn set_rb0(&mut self, value: bool)
        ensures
            final(self)@ == insert(old(self)@ as u64, 4, 1, value as u64),
            (extract(final(self)@ as u64, 4, 1) != 0) == value,
    {
        proof {
            lemma_low_mask_values();
        }
        self.0 = insert_u8(self.0, 4, 1, value as u8);
    }

    /// Sets `rb0` to `value`. Every value fits the field, so the result is
    /// always `Ok`.
    pub fn set_rb0_checked(&mut self, value: bool) -> (done: Result<(), ()>)
        ensures
            done is Ok,
            final(self)@ == insert(old(self)@ as u64, 4, 1, value as u64),
    {
        self.set_rb0(value);
        Ok(())
    }

    /// PPDU Type
    ///
    /// Bits: 5..6
    pub fn ppdut(&self) -> (value: bool)
        ensures
            value == (extract(self@ as u64, 5, 1) != 0),
    {
        extract_u8(self.0, 5, 1) != 0
    }

    /// Returns the register with `ppdut` set to `value`.
    pub fn with_ppdut(self, value: bool) -> (reg: Self)
        ensures
            reg@ == insert(self@ as u64, 5, 1, value as u64),
            (extract(reg@ as u64, 5, 1) != 0) == value,
    {
        proof {
            lemma_low_mask_values();
        }
        Self(insert_u8(self.0, 5, 1, value as u8))
    }

    /// Returns the register with `ppdut` set to `value`. Every value fits the
    /// field, so the result is always `Ok`.
    pub fn with_ppdut_checked(self, value: bool) -> (reg: Result<Self, ()>)
        ensures
            reg is Ok,
            reg.unwrap()@ == insert(self@ as u64, 5, 1, value as u64),
    {
        Ok(self.with_ppdut(value))
    }

    /// Sets `ppdut` to `value`.
    pub fn set_ppdut(&mut self, value: bool)
        ensures
            final(self)@ == insert(old(self)@ as u64, 5, 1, value as u64),
            (extract(final(self)@ as u64, 5, 1) != 0) == value,
    {
        proof {
            lemma_low_mask_values();
        }
        self.0 = insert_u8(self.0, 5, 1, value as u8);
    }

    /// Sets `ppdut` to `value`. Every value fits the field, so the result is
    /// always `Ok`.
    pub fn set_ppdut_checked(&mut self, value: bool) -> (done: Result<(), ()>)
        ensures
            done is Ok,
            final(self)@ == insert(old(self)@ as u64, 5, 1, value as u64),
    {
        self.set_ppdut(value);
        Ok(())
    }
}

impl Default for BbcnOqpskphrtx {
    fn default() -> (reg: Self)
        ensures
            reg@ == 0,
    {
        Self::new()
    }
}

impl From<u8> for BbcnOqpskphrtx {
    fn from(v: u8) -> (reg: Self) {
        Self(v)
    }
}

impl FromSpecImpl<u8> for BbcnOqpskphrtx {
    open spec fn obeys_from_spec() -> bool {
        true
    }

    open spec fn from_spec(v: u8) -> Self {
        BbcnOqpskphrtx(v)
    }
}

impl From<BbcnOqpskphrtx> for u8 {
    fn from(v: BbcnOqpskphrtx) -> (bits: u8) {
        v.0
    }
}

impl FromSpecImpl<BbcnOqpskphrtx> for u8 {
    open spec fn obeys_from_spec() -> bool {
        true
    }

    open spec fn from_spec(v: BbcnOqpskphrtx) -> u8 {
        v.0
    }
}

/// BBCn_OQPSKPHRRX - O-QPSK PHR Receive (Read Only)
///
/// O-QPSK PHY header received.
#[derive(Debug, Clone, Copy, PartialEq, Eq)]
pub struct BbcnOqpskphrrx(pub u8);

impl View for BbcnOqpskphrrx {
    type V = u8;

    open spec fn view(&self) -> u8 {
        self.0
    }
}

impl BbcnOqpskphrrx {
    /// The register with every field at its reset value.
    pub fn new() -> (reg: Self)
        ensures
            reg@ == 0,
    {
        Self(0)
    }

    /// The register that holds `bits`.
    pub fn from_bits(bits: u8) -> (reg: Self)
        ensures
            reg@ == bits,
    {
        Self(bits)
    }

    /// The bits that the register holds.
    pub fn into_bits(self) -> (bits: u8)
        ensures
            bits == self@,
    {
        self.0
    }

    /// Legacy Mode (Read Only)
    ///
    /// Bits: 0..1
    pub fn leg(&self) -> (value: bool)
        ensures
            value == (extract(self@ as u64, 0, 1) != 0),
    {
        extract_u8(self.0, 0, 1) != 0
    }

    /// Rate Mode (Read Only, MOD field)
    ///
    /// Bits: 1..4
    pub fn mod_(&self) -> (value: u8)
        ensures
            value == extract(self@ as u64, 1, 3),
    {
        extract_u8(self.0, 1, 3)
    }

    /// Reserved Bit 0 (Read Only)
    ///
    /// Bits: 4..5
    pub fn rb0(&self) -> (value: bool)
        ensures
            value == (extract(self@ as u64, 4, 1) != 0),
    {
        extract_u8(self.0, 4, 1) != 0
    }

    /// PPDU Type (Read Only)
    ///
    /// Bits: 5..6
    pub fn ppdut(&self) -> (value: bool)
        ensures
            value == (extract(self@ as u64, 5, 1) != 0),
    {
        extract_u8(self.0, 5, 1) != 0
    }
}

impl Default for BbcnOqpskphrrx {
    fn default() -> (reg: Self)
        ensures
            reg@ == 0,
    {
        Self::new()
    }
}

impl From<u8> for BbcnOqpskphrrx {
    fn from(v: u8) -> (reg: Self) {
        Self(v)
    }
}

impl FromSpecImpl<u8> for BbcnOqpskphrrx {
    open spec fn obeys_from_spec() -> bool {
        true
    }

    open spec fn from_spec(v: u8) -> Self {
        BbcnOqpskphrrx(v)
    }
}

impl From<BbcnOqpskphrrx> for u8 {
    fn from(v: BbcnOqpskphrrx) -> (bits: u8) {
        v.0
    }
}

impl FromSpecImpl<BbcnOqpskphrrx> for u8 {
    open spec fn obeys_from_spec() -> bool {
        true
    }

    open spec fn from_spec(v: BbcnOqpskphrrx) -> u8 {
        v.0
    }
}

} // verus!
