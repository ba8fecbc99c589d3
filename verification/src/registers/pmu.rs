//! Phase measurement unit registers.

use vstd::prelude::*;
use vstd::std_specs::convert::FromSpecImpl;
use crate::bits::{
    extract, extract_u8, insert, insert_u8, lemma_low_mask_values, signed8, to_signed8,
};

verus! {

/// BBCn_PMUC - PMU Control
///
/// Main control register for Phase Measurement Unit (PMU) functionality.
/// The PMU allows register-based monitoring of phase and signal parameters
/// from the RX Digital Frontend with a constant 8µs period.
#[derive(Debug, Clone, Copy, PartialEq, Eq)]
pub struct BbcnPmuc(pub u8);

impl View for BbcnPmuc {
    type V = u8;

    open spec fn view(&self) -> u8 {
        self.0
    }
}

impl BbcnPmuc {
    /// The register with every field at its reset value.
    pub fn new() -> (reg: Self)
        ensures
            reg@ == 0,
    {
        Self(0)
    }

    /// The register that holds `bits`.
    pub fn from_bits(bits: u8) -> (reg: Self)
        ensures
            reg@ == bits,
    {
        Self(bits)
    }

    /// The bits that the register holds.
    pub fn into_bits(self) -> (bits: u8)
        ensures
            bits == self@,
    {
        self.0
    }

    /// PMU Enable
    /// - 0: PMU disabled
    /// - 1: PMU enabled - periodically measures phase and signal parameters
    ///
    /// Bits: 0..1
    pub fn en(&self) -> (value: bool)
        ensures
            value == (extract(self@ as u64, 0, 1) != 0),
    {
        extract_u8(self.0, 0, 1) != 0
    }

    /// Returns the register with `en` set to `value`.
    pub fn with_en(self, value: bool) -> (reg: Self)
        ensures
            reg@ == insert(self@ as u64, 0, 1, value as u64),
            (extract(reg@ as u64, 0, 1) != 0) == value,
    {
        proof {
            lemma_low_mask_values();
        }
        Self(insert_u8(self.0, 0, 1, value as u8))
    }

    /// Returns the register with `en` set to `value`. Every value fits the
    /// field, so the result is always `Ok`.
    pub fn with_en_checked(self, value: bool) -> (reg: Result<Self, ()>)
        ensures
            reg is Ok,
            reg.unwrap()@ == insert(self@ as u64, 0, 1, value as u64),
    {
        Ok(self.with_en(value))
    }

    /// Sets `en` to `value`.
    pub fn set_en(&mut self, value: bool)
        ensures
            final(self)@ == insert(old(self)@ as u64, 0, 1, value as u64),
            (extract(final(self)@ as u64, 0, 1) != 0) == value,
    {
        proof {
            lemma_low_mask_values();
        }
        self.0 = insert_u8(self.0, 0, 1, value as u8);
    }

    /// Sets `en` to `value`. Every value fits the field, so the result is
    /// always `Ok`.
    pub fn set_en_checked(&mut self, value: bool) -> (done: Result<(), ()>)
        ensures
            done is Ok,
            final(self)@ == insert(old(self)@ as u64, 0, 1, value as u64),
    {
        self.set_en(value);
        Ok(())
    }

    /// I/Q Averaging Enable
    /// - 0: I/Q sampling at end of PMU period
    /// - 1: I/Q averaging over PMU period (8µs)
    ///
    /// Bits: 1..2
    pub fn avg(&self) -> (value: bool)
        ensures
            value == (extract(self@ as u64, 1, 1) != 0),
    {
        extract_u8(self.0, 1, 1) != 0
    }

    /// Returns the register with `avg` set to `value`.
    pub fn with_avg(self, value: bool) -> (reg: Self)
        ensures
            reg@ == insert(self@ as u64, 1, 1, value as u64),
            (extract(reg@ as u64, 1, 1) != 0) == value,
    {
        proof {
            lemma_low_mask_values();
        }
        Self(insert_u8(self.0, 1, 1, value as u8))
    }

    /// Returns the register with `avg` set to `value`. Every value fits the
    /// field, so the result is always `Ok`.
    pub fn with_avg_checked(self, value: bool) -> (reg: Result<Self, ()>)
        ensures
            reg is Ok,
            reg.unwrap()@ == insert(self@ as u64, 1, 1, value as u64),
    {
        Ok(self.with_avg(value))
    }

    /// Sets `avg` to `value`.
    pub fn set_avg(&mut self, value: bool)
        ensures
            final(self)@ == insert(old(self)@ as u64, 1, 1, value as u64),
            (extract(final(self)@ as u64, 1, 1) != 0) == value,
    {
        proof {
            lemma_low_mask_values();
        }
        self.0 = insert_u8(self.0, 1, 1, value as u8);
    }

    /// Sets `avg` to `value`. Every value fits the field, so the result is
    /// always `Ok`.
    pub fn set_avg_checked(&mut self, value: bool) -> (done: Result<(), ()>)
        ensures
            done is Ok,
            final(self)@ == insert(old(self)@ as u64, 1, 1, value as u64),
    {
        self.set_avg(value);
        Ok(())
    }

    /// PMU Synchronisation (Read Only)
    /// 1MHz counter running from 0 to 7 during 8µs PMU period.
    /// All output registers update at transition from 7 to 0.
    ///
    /// Bits: 2..5
    pub fn sync(&self) -> (value: u8)
        ensures
            value == extract(self@ as u64, 2, 3),
    {
        extract_u8(self.0, 2, 3)
    }

    /// Frequency Error Detection
    /// - 0: PMUQF acts as unsigned quality factor [0-255]
    /// - 1: PMUQF returns frequency error estimate (requires 1MHz sample rate)
    ///      FO[Hz] = 500kHz * PMUQF/256 (signed two's complement)
    ///
    /// Bits: 5..6
    pub fn fed(&self) -> (value: bool)
        ensures
            value == (extract(self@ as u64, 5, 1) != 0),
    {
        extract_u8(self.0, 5, 1) != 0
    }

    /// Returns the register with `fed` set to `value`.
    pub fn with_fed(self, value: bool) -> (reg: Self)
        ensures
            reg@ == insert(self@ as u64, 5, 1, value as u64),
            (extract(reg@ as u64, 5, 1) != 0) == value,
    {
        proof {
            lemma_low_mask_values();
        }
        Self(insert_u8(self.0, 5, 1, value as u8))
    }

    /// Returns the register with `fed` set to `value`. Every value fits the
    /// field, so the result is always `Ok`.
    pub fn with_fed_checked(self, value: bool) -> (reg: Result<Self, ()>)
        ensures
            reg is Ok,
            reg.unwrap()@ == insert(self@ as u64, 5, 1, value as u64),
    {
        Ok(self.with_fed(value))
    }

    /// Sets `fed` to `value`.
    pub fn set_fed(&mut self, value: bool)
        ensures
            final(self)@ == insert(old(self)@ as u64, 5, 1, value as u64),
            (extract(final(self)@ as u64, 5, 1) != 0) == value,
    {
        proof {
            lemma_low_mask_values();
        }
        self.0 = insert_u8(self.0, 5, 1, value as u8);
    }

    /// Sets `fed` to `value`. Every value fits the field, so the result is
    /// always `Ok`.
    pub fn set_fed_checked(&mut self, value: bool) -> (done: Result<(), ()>)
        ensures
            done is Ok,
            final(self)@ == insert(old(self)@ as u64, 5, 1, value as u64),
    {
        self.set_fed(value);
        Ok(())
    }

    /// IQ Output Selector
    /// - 0: Normalized I/Q: (PMUI + i*PMUQ) ≈ 63 * exp(i * π * PMUVAL/128)
    /// - 1: I/Q without normalization: arg(PMUI + i*PMUQ) = π * PMUVAL/128
    ///
    /// Bits: 6..7
    pub fn iqsel(&self) -> (value: bool)
        ensures
            value == (extract(self@ as u64, 6, 1) != 0),
    {
        extract_u8(self.0, 6, 1) != 0
    }

    /// Returns the register with `iqsel` set to `value`.
    pub fn with_iqsel(self, value: bool) -> (reg: Self)
        ensures
            reg@ == insert(self@ as u64, 6, 1, value as u64),
            (extract(reg@ as u64, 6, 1) != 0) == value,
    {
        proof {
            lemma_low_mask_values();
        }
        Self(insert_u8(self.0, 6, 1, value as u8))
    }

    /// Returns the register with `iqsel` set to `value`. Every value fits the
    /// field, so the result is always `Ok`.
    pub fn with_iqsel_checked(self, value: bool) -> (reg: Result<Self, ()>)
        ensures
            reg is Ok,
            reg.unwrap()@ == insert(self@ as u64, 6, 1, value as u64),
    {
        Ok(self.with_iqsel(value))
    }

    /// Sets `iqsel` to `value`.
    pub fn set_iqsel(&mut self, value: bool)
        ensures
            final(self)@ == insert(old(self)@ as u64, 6, 1, value as u64),
            (extract(final(self)@ as u64, 6, 1) != 0) == value,
    {
        proof {
            lemma_low_mask_values();
        }
        self.0 = insert_u8(self.0, 6, 1, value as u8);
    }

    /// Sets `iqsel` to `value`. Every value fits the field, so the result is
    /// always `Ok`.
    pub fn set_iqsel_checked(&mut self, value: bool) -> (done: Result<(), ()>)
        ensures
            done is Ok,
            final(self)@ == insert(old(self)@ as u64, 6, 1, value as u64),
    {
        self.set_iqsel(value);
        Ok(())
    }

    /// Channel Center Frequency Time Synchronization
    /// - 0: Frequency changes applied directly per CNM register
    /// - 1: Frequency changes time-aligned to 8µs PMU period
    ///
    /// Bits: 7..8
    pub fn ccfts(&self) -> (value: bool)
        ensures
            value == (extract(self@ as u64, 7, 1) != 0),
    {
        extract_u8(self.0, 7, 1) != 0
    }

    /// Returns the register with `ccfts` set to `value`.
    pub fn with_ccfts(self, value: bool) -> (reg: Self)
        ensures
            reg@ == insert(self@ as u64, 7, 1, value as u64),
            (extract(reg@ as u64, 7, 1) != 0) == value,
    {
        proof {
            lemma_low_mask_values();
        }
        Self(insert_u8(self.0, 7, 1, value as u8))
    }

    /// Returns the register with `ccfts` set to `value`. Every value fits the
    /// field, so the result is always `Ok`.
    pub fn with_ccfts_checked(self, value: bool) -> (reg: Result<Self, ()>)
        ensures
            reg is Ok,
            reg.unwrap()@ == insert(self@ as u64, 7, 1, value as u64),
    {
        Ok(self.with_ccfts(value))
    }

    /// Sets `ccfts` to `value`.
    pub fn set_ccfts(&mut self, value: bool)
        ensures
            final(self)@ == insert(old(self)@ as u64, 7, 1, value as u64),
            (extract(final(self)@ as u64, 7, 1) != 0) == value,
    {
        proof {
            lemma_low_mask_values();
        }
        self.0 = insert_u8(self.0, 7, 1, value as u8);
    }

    /// Sets `ccfts` to `value`. Every value fits the field, so the result is
    /// always `Ok`.
    pub fn set_ccfts_checked(&mut self, value: bool) -> (done: Result<(), ()>)
        ensures
            done is Ok,
            final(self)@ == insert(old(self)@ as u64, 7, 1, value as u64),
    {
        self.set_ccfts(value);
        Ok(())
    }
}

impl Default for BbcnPmuc {
    fn default() -> (reg: Self)
        ensures
            reg@ == 0,
    {
        Self::new()
    }
}

impl From<u8> for BbcnPmuc {
    fn from(v: u8) -> (reg: Self) {
        Self(v)
    }
}

impl FromSpecImpl<u8> for BbcnPmuc {
    open spec fn obeys_from_spec() -> bool {
        true
    }

    open spec fn from_spec(v: u8) -> Self {
        BbcnPmuc(v)
    }
}

impl From<BbcnPmuc> for u8 {
    fn from(v: BbcnPmuc) -> (bits: u8) {
        v.0
    }
}

impl FromSpecImpl<BbcnPmuc> for u8 {
    open spec fn obeys_from_spec() -> bool {
        true
    }

    open spec fn from_spec(v: BbcnPmuc) -> u8 {
        v.0
    }
}

/// BBCn_PMUVAL - PMU Phase Value (Read Only)
///
/// 8-bit phase value covering angles 0 to 2π in 256 steps.
/// - 0 = 0°
/// - 255 = (360/256) × 255°
#[derive(Debug, Clone, Copy, PartialEq, Eq)]
pub struct BbcnPmuval(pub u8);

impl View for BbcnPmuval {
    type V = u8;

    open spec fn view(&self) -> u8 {
        self.0
    }
}

impl BbcnPmuval {
    /// The register with every field at its reset value.
    pub fn new() -> (reg: Self)
        ensures
            reg@ == 0,
    {
        Self(0)
    }

    /// The register that holds `bits`.
    pub fn from_bits(bits: u8) -> (reg: Self)
        ensures
            reg@ == bits,
    {
        Self(bits)
    }

    /// The bits that the register holds.
    pub fn into_bits(self) -> (bits: u8)
        ensures
            bits == self@,
    {
        self.0
    }

    /// PMU Phase Value
    /// Represents phase in range [0, 2π) with 256 discrete steps
    ///
    /// Bits: 0..8
    pub fn pmuval(&self) -> (value: u8)
        ensures
            value == extract(self@ as u64, 0, 8),
    {
        extract_u8(self.0, 0, 8)
    }
}

impl Default for BbcnPmuval {
    fn default() -> (reg: Self)
        ensures
            reg@ == 0,
    {
        Self::new()
    }
}

impl From<u8> for BbcnPmuval {
    fn from(v: u8) -> (reg: Self) {
        Self(v)
    }
}

impl FromSpecImpl<u8> for BbcnPmuval {
    open spec fn obeys_from_spec() -> bool {
        true
    }

    open spec fn from_spec(v: u8) -> Self {
        BbcnPmuval(v)
    }
}

impl From<BbcnPmuval> for u8 {
    fn from(v: BbcnPmuval) -> (bits: u8) {
        v.0
    }
}

impl FromSpecImpl<BbcnPmuval> for u8 {
    open spec fn obeys_from_spec() -> bool {
        true
    }

    open spec fn from_spec(v: BbcnPmuval) -> u8 {
        v.0
    }
}

/// BBCn_PMUQF - PMU Quality Factor (Read Only)
///
/// Dual-purpose register depending on PMUC.FED setting:
/// - FED=0: Quality factor (0-255, higher is better quality)
/// - FED=1: Frequency offset (signed two's complement)
#[derive(Debug, Clone, Copy, PartialEq, Eq)]
pub struct BbcnPmuqf(pub u8);

impl View for BbcnPmuqf {
    type V = u8;

    open spec fn view(&self) -> u8 {
        self.0
    }
}

impl BbcnPmuqf {
    /// The register with every field at its reset value.
    pub fn new() -> (reg: Self)
        ensures
            reg@ == 0,
    {
        Self(0)
    }

    /// The register that holds `bits`.
    pub fn from_bits(bits: u8) -> (reg: Self)
        ensures
            reg@ == bits,
    {
        Self(bits)
    }

    /// The bits that the register holds.
    pub fn into_bits(self) -> (bits: u8)
        ensures
            bits == self@,
    {
        self.0
    }

    /// PMU Quality Factor / Frequency Offset
    ///
    /// When PMUC.FED=0: Unsigned quality factor
    /// - 255 = best quality
    /// - Related to average phase drift during PMU interval
    ///
    /// When PMUC.FED=1: Signed frequency offset (two's complement)
    /// - FO[Hz] = 500kHz * PMUQF/256
    /// - Valid range: -128 to 127
    /// - Requires RXDFE_SR=4 (1MHz sample rate)
    ///
    /// Bits: 0..8
    pub fn pmuqf(&self) -> (value: i8)
        ensures
            value == signed8(extract(self@ as u64, 0, 8)),
    {
        to_signed8(extract_u8(self.0, 0, 8))
    }
}

impl Default for BbcnPmuqf {
    fn default() -> (reg: Self)
        ensures
            reg@ == 0,
    {
        Self::new()
    }
}

impl From<u8> for BbcnPmuqf {
    fn from(v: u8) -> (reg: Self) {
        Self(v)
    }
}

impl FromSpecImpl<u8> for BbcnPmuqf {
    open spec fn obeys_from_spec() -> bool {
        true
    }

    open spec fn from_spec(v: u8) -> Self {
        BbcnPmuqf(v)
    }
}

impl From<BbcnPmuqf> for u8 {
    fn from(v: BbcnPmuqf) -> (bits: u8) {
        v.0
    }
}

impl FromSpecImpl<BbcnPmuqf> for u8 {
    open spec fn obeys_from_spec() -> bool {
        true
    }

    open spec fn from_spec(v: BbcnPmuqf) -> u8 {
        v.0
    }
}

/// BBCn_PMUI - PMU I/Q Value, Real Part (Read Only)
///
/// Real (I) component of PMU measurement value.
#[derive(Debug, Clone, Copy, PartialEq, Eq)]
pub struct BbcnPmui(pub u8);

impl View for BbcnPmui {
    type V = u8;

    open spec fn view(&self) -> u8 {
        self.0
    }
}

impl BbcnPmui {
    /// The register with every field at its reset value.
    pub fn new() -> (reg: Self)
        ensures
            reg@ == 0,
    {
        Self(0)
    }

    /// The register that holds `bits`.
    pub fn from_bits(bits: u8) -> (reg: Self)
        ensures
            reg@ == bits,
    {
        Self(bits)
    }

    /// The bits that the register holds.
    pub fn into_bits(self) -> (bits: u8)
        ensures
            bits == self@,
    {
        self.0
    }

    /// PMU I/Q Value, Real Part (signed two's complement)
    ///
    /// Interpretation depends on PMUC.IQSEL:
    /// - IQSEL=0: Normalized, range ≈ [-63, 63]
    /// - IQSEL=1: Non-normalized I component
    ///
    /// Bits: 0..8
    pub fn pmui(&self) -> (value: i8)
        ensures
            value == signed8(extract(self@ as u64, 0, 8)),
    {
        to_signed8(extract_u8(self.0, 0, 8))
    }
}

impl Default for BbcnPmui {
    fn default() -> (reg: Self)
        ensures
            reg@ == 0,
    {
        Self::new()
    }
}

impl From<u8> for BbcnPmui {
    fn from(v: u8) -> (reg: Self) {
        Self(v)
    }
}

impl FromSpecImpl<u8> for BbcnPmui {
    open spec fn obeys_from_spec() -> bool {
        true
    }

    open spec fn from_spec(v: u8) -> Self {
        BbcnPmui(v)
    }
}

impl From<BbcnPmui> for u8 {
    fn from(v: BbcnPmui) -> (bits: u8) {
        v.0
    }
}

impl FromSpecImpl<BbcnPmui> for u8 {
    open spec fn obeys_from_spec() -> bool {
        true
    }

    open spec fn from_spec(v: BbcnPmui) -> u8 {
        v.0
    }
}

/// BBCn_PMUQ - PMU I/Q Value, Imaginary Part (Read Only)
///
/// Imaginary (Q) component of PMU measurement value.
#[derive(Debug, Clone, Copy, PartialEq, Eq)]
pub struct BbcnPmuq(pub u8);

impl View for BbcnPmuq {
    type V = u8;

    open spec fn view(&self) -> u8 {
        self.0
    }
}

impl BbcnPmuq {
    /// The register with every field at its reset value.
    pub fn new() -> (reg: Self)
        ensures
            reg@ == 0,
    {
        Self(0)
    }

    /// The register that holds `bits`.
    pub fn from_bits(bits: u8) -> (reg: Self)
        ensures
            reg@ == bits,
    {
        Self(bits)
    }

    /// The bits that the register holds.
    pub fn into_bits(self) -> (bits: u8)
        ensures
            bits == self@,
    {
        self.0
    }

    /// PMU I/Q Value, Imaginary Part (signed two's complement)
    ///
    /// Interpretation depends on PMUC.IQSEL:
    /// - IQSEL=0: Normalized, range ≈ [-63, 63]
    /// - IQSEL=1: Non-normalized Q component
    ///
    /// Bits: 0..8
    pub fn pmuq(&self) -> (value: i8)
        ensures
            value == signed8(extract(self@ as u64, 0, 8)),
    {
        to_signed8(extract_u8(self.0, 0, 8))
    }
}

impl Default for BbcnPmuq {
    fn default() -> (reg: Self)
        ensures
            reg@ == 0,
    {
        Self::new()
    }
}

impl From<u8> for BbcnPmuq {
    fn from(v: u8) -> (reg: Self) {
        Self(v)
    }
}

impl FromSpecImpl<u8> for BbcnPmuq {
    open spec fn obeys_from_spec() -> bool {
        true
    }

    open spec fn from_spec(v: u8) -> Self {
        BbcnPmuq(v)
    }
}

impl From<BbcnPmuq> for u8 {
    fn from(v: BbcnPmuq) -> (bits: u8) {
        v.0
    }
}

impl FromSpecImpl<BbcnPmuq> for u8 {
    open spec fn obeys_from_spec() -> bool {
        true
    }

    open spec fn from_spec(v: BbcnPmuq) -> u8 {
        v.0
    }
}

} // verus!
