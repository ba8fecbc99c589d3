//! Timestamp counter registers.

use vstd::prelude::*;
use vstd::std_specs::convert::FromSpecImpl;
use crate::bits::{extract, extract_u8, extract_u32, insert, insert_u8, lemma_low_mask_values};

verus! {

/// BBCn_CNTC - Counter Control
///
/// Counter enable and control.
#[derive(Debug, Clone, Copy, PartialEq, Eq)]
pub struct BbcnCntc(pub u8);

impl View for BbcnCntc {
    type V = u8;

    open spec fn view(&self) -> u8 {
        self.0
    }
}

impl BbcnCntc {
    /// The register with every field at its reset value.
    pub fn new() -> (reg: Self)
        ensures
            reg@ == 0,
    {
        Self(0)
    }

    /// The register that holds `bits`.
    pub fn from_bits(bits: u8) -> (reg: Self)
        ensures
            reg@ == bits,
    {
        Self(bits)
    }

    /// The bits that the register holds.
    pub fn into_bits(self) -> (bits: u8)
        ensures
            bits == self@,
    {
        self.0
    }

    /// Enable Counter
    ///
    /// Bits: 0..1
    pub fn en(&self) -> (value: bool)
        ensures
            value == (extract(self@ as u64, 0, 1) != 0),
    {
        extract_u8(self.0, 0, 1) != 0
    }

    /// Returns the register with `en` set to `value`.
    pub fn with_en(self, value: bool) -> (reg: Self)
        ensures
            reg@ == insert(self@ as u64, 0, 1, value as u64),
            (extract(reg@ as u64, 0, 1) != 0) == value,
    {
        proof {
            lemma_low_mask_values();
        }
        Self(insert_u8(self.0, 0, 1, value as u8))
    }

    /// Returns the register with `en` set to `value`. Every value fits the
    /// field, so the result is always `Ok`.
    pub fn with_en_checked(self, value: bool) -> (reg: Result<Self, ()>)
        ensures
            reg is Ok,
            reg.unwrap()@ == insert(self@ as u64, 0, 1, value as u64),
    {
        Ok(self.with_en(value))
    }

    /// Sets `en` to `value`.
    pub fn set_en(&mut self, value: bool)
        ensures
            final(self)@ == insert(old(self)@ as u64, 0, 1, value as u64),
            (extract(final(self)@ as u64, 0, 1) != 0) == value,
    {
        proof {
            lemma_low_mask_values();
        }
        self.0 = insert_u8(self.0, 0, 1, value as u8);
    }

    /// Sets `en` to `value`. Every value fits the field, so the result is
    /// always `Ok`.
    pub fn set_en_checked(&mut self, value: bool) -> (done: Result<(), ()>)
        ensures
            done is Ok,
            final(self)@ == insert(old(self)@ as u64, 0, 1, value as u64),
    {
        self.set_en(value);
        Ok(())
    }

    /// Reset RX Symbol Counter
    ///
    /// Bits: 1..2
    pub fn rstrxs(&self) -> (value: bool)
        ensures
            value == (extract(self@ as u64, 1, 1) != 0),
    {
        extract_u8(self.0, 1, 1) != 0
    }

    /// Returns the register with `rstrxs` set to `value`.
    pub fn with_rstrxs(self, value: bool) -> (reg: Self)
        ensures
            reg@ == insert(self@ as u64, 1, 1, value as u64),
            (extract(reg@ as u64, 1, 1) != 0) == value,
    {
        proof {
            lemma_low_mask_values();
        }
        Self(insert_u8(self.0, 1, 1, value as u8))
    }

    /// Returns the register with `rstrxs` set to `value`. Every value fits the
    /// field, so the result is always `Ok`.
    pub fn with_rstrxs_checked(self, value: bool) -> (reg: Result<Self, ()>)
        ensures
            reg is Ok,
            reg.unwrap()@ == insert(self@ as u64, 1, 1, value as u64),
    {
        Ok(self.with_rstrxs(value))
    }

    /// Sets `rstrxs` to `value`.
    pub fn set_rstrxs(&mut self, value: bool)
        ensures
            final(self)@ == insert(old(self)@ as u64, 1, 1, value as u64),
            (extract(final(self)@ as u64, 1, 1) != 0) == value,
    {
        proof {
            lemma_low_mask_values();
        }
        self.0 = insert_u8(self.0, 1, 1, value as u8);
    }

    /// Sets `rstrxs` to `value`. Every value fits the field, so the result is
    /// always `Ok`.
    pub fn set_rstrxs_checked(&mut self, value: bool) -> (done: Result<(), ()>)
        ensures
            done is Ok,
            final(self)@ == insert(old(self)@ as u64, 1, 1, value as u64),
    {
        self.set_rstrxs(value);
        Ok(())
    }

    /// Reset TX Symbol Counter
    ///
    /// Bits: 2..3
    pub fn rsttxs(&self) -> (value: bool)
        ensures
            value == (extract(self@ as u64, 2, 1) != 0),
    {
        extract_u8(self.0, 2, 1) != 0
    }

    /// Returns the register with `rsttxs` set to `value`.
    pub fn with_rsttxs(self, value: bool) -> (reg: Self)
        ensures
            reg@ == insert(self@ as u64, 2, 1, value as u64),
            (extract(reg@ as u64, 2, 1) != 0) == value,
    {
        proof {
            lemma_low_mask_values();
        }
        Self(insert_u8(self.0, 2, 1, value as u8))
    }

    /// Returns the register with `rsttxs` set to `value`. Every value fits the
    /// field, so the result is always `Ok`.
    pub fn with_rsttxs_checked(self, value: bool) -> (reg: Result<Self, ()>)
        ensures
            reg is Ok,
            reg.unwrap()@ == insert(self@ as u64, 2, 1, value as u64),
    {
        Ok(self.with_rsttxs(value))
    }

    /// Sets `rsttxs` to `value`.
    pub fn set_rsttxs(&mut self, value: bool)
        ensures
            final(self)@ == insert(old(self)@ as u64, 2, 1, value as u64),
            (extract(final(self)@ as u64, 2, 1) != 0) == value,
    {
        proof {
            lemma_low_mask_values();
        }
        self.0 = insert_u8(self.0, 2, 1, value as u8);
    }

    /// Sets `rsttxs` to `value`. Every value fits the field, so the result is
    /// always `Ok`.
    pub fn set_rsttxs_checked(&mut self, value: bool) -> (done: Result<(), ()>)
        ensures
            done is Ok,
            final(self)@ == insert(old(self)@ as u64, 2, 1, value as u64),
    {
        self.set_rsttxs(value);
        Ok(())
    }

    /// Capture RX Symbol Counter
    ///
    /// Bits: 3..4
    pub fn caprxs(&self) -> (value: bool)
        ensures
            value == (extract(self@ as u64, 3, 1) != 0),
    {
        extract_u8(self.0, 3, 1) != 0
    }

    /// Returns the register with `caprxs` set to `value`.
    pub fn with_caprxs(self, value: bool) -> (reg: Self)
        ensures
            reg@ == insert(self@ as u64, 3, 1, value as u64),
            (extract(reg@ as u64, 3, 1) != 0) == value,
    {
        proof {
            lemma_low_mask_values();
        }
        Self(insert_u8(self.0, 3, 1, value as u8))
    }

    /// Returns the register with `caprxs` set to `value`. Every value fits the
    /// field, so the result is always `Ok`.
    pub fn with_caprxs_checked(self, value: bool) -> (reg: Result<Self, ()>)
        ensures
            reg is Ok,
            reg.unwrap()@ == insert(self@ as u64, 3, 1, value as u64),
    {
        Ok(self.with_caprxs(value))
    }

    /// Sets `caprxs` to `value`.
    pub fn set_caprxs(&mut self, value: bool)
        ensures
            final(self)@ == insert(old(self)@ as u64, 3, 1, value as u64),
            (extract(final(self)@ as u64, 3, 1) != 0) == value,
    {
        proof {
            lemma_low_mask_values();
        }
        self.0 = insert_u8(self.0, 3, 1, value as u8);
    }

    /// Sets `caprxs` to `value`. Every value fits the field, so the result is
    /// always `Ok`.
    pub fn set_caprxs_checked(&mut self, value: bool) -> (done: Result<(), ()>)
        ensures
            done is Ok,
            final(self)@ == insert(old(self)@ as u64, 3, 1, value as u64),
    {
        self.set_caprxs(value);
        Ok(())
    }

    /// Capture TX Symbol Counter
    ///
    /// Bits: 4..5
    pub fn captxs(&self) -> (value: bool)
        ensures
            value == (extract(self@ as u64, 4, 1) != 0),
    {
        extract_u8(self.0, 4, 1) != 0
    }

    /// Returns the register with `captxs` set to `value`.
    pub fn with_captxs(self, value: bool) -> (reg: Self)
        ensures
            reg@ == insert(self@ as u64, 4, 1, value as u64),
            (extract(reg@ as u64, 4, 1) != 0) == value,
    {
        proof {
            lemma_low_mask_values();
        }
        Self(insert_u8(self.0, 4, 1, value as u8))
    }

    /// Returns the register with `captxs` set to `value`. Every value fits the
    /// field, so the result is always `Ok`.
    pub fn with_captxs_checked(self, value: bool) -> (reg: Result<Self, ()>)
        ensures
            reg is Ok,
            reg.unwrap()@ == insert(self@ as u64, 4, 1, value as u64),
    {
        Ok(self.with_captxs(value))
    }

    /// Sets `captxs` to `value`.
    pub fn set_captxs(&mut self, value: bool)
        ensures
            final(self)@ == insert(old(self)@ as u64, 4, 1, value as u64),
            (extract(final(self)@ as u64, 4, 1) != 0) == value,
    {
        proof {
            lemma_low_mask_values();
        }
        self.0 = insert_u8(self.0, 4, 1, value as u8);
    }

    /// Sets `captxs` to `value`. Every value fits the field, so the result is
    /// always `Ok`.
    pub fn set_captxs_checked(&mut self, value: bool) -> (done: Result<(), ()>)
        ensures
            done is Ok,
            final(self)@ == insert(old(self)@ as u64, 4, 1, value as u64),
    {
        self.set_captxs(value);
        Ok(())
    }
}

impl Default for BbcnCntc {
    fn default() -> (reg: Self)
        ensures
            reg@ == 0,
    {
        Self::new()
    }
}

impl From<u8> for BbcnCntc {
    fn from(v: u8) -> (reg: Self) {
        Self(v)
    }
}

impl FromSpecImpl<u8> for BbcnCntc {
    open spec fn obeys_from_spec() -> bool {
        true
    }

    open spec fn from_spec(v: u8) -> Self {
        BbcnCntc(v)
    }
}

impl From<BbcnCntc> for u8 {
    fn from(v: BbcnCntc) -> (bits: u8) {
        v.0
    }
}

impl FromSpecImpl<BbcnCntc> for u8 {
    open spec fn obeys_from_spec() -> bool {
        true
    }

    open spec fn from_spec(v: BbcnCntc) -> u8 {
        v.0
    }
}

/// BBCn_CNT - Counter Value (Read Only)
///
/// 32-bit counter value.
#[derive(Debug, Clone, Copy, PartialEq, Eq)]
pub struct BbcnCnt(pub u32);

impl View for BbcnCnt {
    type V = u32;

    open spec fn view(&self) -> u32 {
        self.0
    }
}

impl BbcnCnt {
    /// The register with every field at its reset value.
    pub fn new() -> (reg: Self)
        ensures
            reg@ == 0,
    {
        Self(0)
    }

    /// The register that holds `bits`.
    pub fn from_bits(bits: u32) -> (reg: Self)
        ensures
            reg@ == bits,
    {
        Self(bits)
    }

    /// The bits that the register holds.
    pub fn into_bits(self) -> (bits: u32)
        ensures
            bits == self@,
    {
        self.0
    }

    /// Counter Value (32-bit)
    ///
    /// Bits: 0..32
    pub fn cnt(&self) -> (value: u32)
        ensures
            value == extract(self@ as u64, 0, 32),
    {
        extract_u32(self.0, 0, 32)
    }
}

impl Default for BbcnCnt {
    fn default() -> (reg: Self)
        ensures
            reg@ == 0,
    {
        Self::new()
    }
}

impl From<u32> for BbcnCnt {
    fn from(v: u32) -> (reg: Self) {
        Self(v)
    }
}

impl FromSpecImpl<u32> for BbcnCnt {
    open spec fn obeys_from_spec() -> bool {
        true
    }

    open spec fn from_spec(v: u32) -> Self {
        BbcnCnt(v)
    }
}

impl From<BbcnCnt> for u32 {
    fn from(v: BbcnCnt) -> (bits: u32) {
        v.0
    }
}

impl FromSpecImpl<BbcnCnt> for u32 {
    open spec fn obeys_from_spec() -> bool {
        true
    }

    open spec fn from_spec(v: BbcnCnt) -> u32 {
        v.0
    }
}

} // verus!
