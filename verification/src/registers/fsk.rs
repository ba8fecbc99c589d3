//! FSK PHY registers.

use vstd::prelude::*;
use vstd::std_specs::convert::FromSpecImpl;
use crate::bits::{
    extract, extract_u8, extract_u16, insert, insert_u8, insert_u16, lemma_low_mask_values,
};

verus! {

/// BBCn_FSKC0 - FSK Configuration 0
///
/// FSK modulation order and index configuration.
#[derive(Debug, Clone, Copy, PartialEq, Eq)]
pub struct BbcnFskc0(pub u8);

impl View for BbcnFskc0 {
    type V = u8;

    open spec fn view(&self) -> u8 {
        self.0
    }
}

impl BbcnFskc0 {
    /// The register with every field at its reset value.
    pub fn new() -> (reg: Self)
        ensures
            reg@ == 0,
    {
        Self(0)
    }

    /// The register that holds `bits`.
    pub fn from_bits(bits: u8) -> (reg: Self)
        ensures
            reg@ == bits,
    {
        Self(bits)
    }

    /// The bits that the register holds.
    pub fn into_bits(self) -> (bits: u8)
        ensures
            bits == self@,
    {
        self.0
    }

    /// Modulation Order
    /// - 0: 2FSK
    /// - 1: 4FSK
    ///
    /// Bits: 0..1
    pub fn mord(&self) -> (value: bool)
        ensures
            value == (extract(self@ as u64, 0, 1) != 0),
    {
        extract_u8(self.0, 0, 1) != 0
    }

    /// Returns the register with `mord` set to `value`.
    pub fn with_mord(self, value: bool) -> (reg: Self)
        ensures
            reg@ == insert(self@ as u64, 0, 1, value as u64),
            (extract(reg@ as u64, 0, 1) != 0) == value,
    {
        proof {
            lemma_low_mask_values();
        }
        Self(insert_u8(self.0, 0, 1, value as u8))
    }

    /// Returns the register with `mord` set to `value`. Every value fits the
    /// field, so the result is always `Ok`.
    pub fn with_mord_checked(self, value: bool) -> (reg: Result<Self, ()>)
        ensures
            reg is Ok,
            reg.unwrap()@ == insert(self@ as u64, 0, 1, value as u64),
    {
        Ok(self.with_mord(value))
    }

    /// Sets `mord` to `value`.
    pub fn set_mord(&mut self, value: bool)
        ensures
            final(self)@ == insert(old(self)@ as u64, 0, 1, value as u64),
            (extract(final(self)@ as u64, 0, 1) != 0) == value,
    {
        proof {
            lemma_low_mask_values();
        }
        self.0 = insert_u8(self.0, 0, 1, value as u8);
    }

    /// Sets `mord` to `value`. Every value fits the field, so the result is
    /// always `Ok`.
    pub fn set_mord_checked(&mut self, value: bool) -> (done: Result<(), ()>)
        ensures
            done is Ok,
            final(self)@ == insert(old(self)@ as u64, 0, 1, value as u64),
    {
        self.set_mord(value);
        Ok(())
    }

    /// Modulation Index
    ///
    /// Bits: 1..4
    pub fn midx(&self) -> (value: u8)
        ensures
            value == extract(self@ as u64, 1, 3),
    {
        extract_u8(self.0, 1, 3)
    }

    /// Returns the register with `midx` set to `value`.
    pub fn with_midx(self, value: u8) -> (reg: Self)
        requires
            value <= 0x7,
        ensures
            reg@ == insert(self@ as u64, 1, 3, value as u64),
            extract(reg@ as u64, 1, 3) == value,
    {
        proof {
            lemma_low_mask_values();
        }
        Self(insert_u8(self.0, 1, 3, value))
    }

    /// Returns the register with `midx` set to `value`, or `Err` where `value`
    /// exceeds `0x7`.
    pub fn with_midx_checked(self, value: u8) -> (reg: Result<Self, ()>)
        ensures
            value <= 0x7 ==> reg is Ok && reg.unwrap()@ == insert(self@ as u64, 1, 3, value as u64),
            value > 0x7 ==> reg is Err,
    {
        if value > 0x7 {
            return Err(());
        }
        Ok(self.with_midx(value))
    }

    /// Sets `midx` to `value`.
    pub fn set_midx(&mut self, value: u8)
        requires
            value <= 0x7,
        ensures
            final(self)@ == insert(old(self)@ as u64, 1, 3, value as u64),
            extract(final(self)@ as u64, 1, 3) == value,
    {
        proof {
            lemma_low_mask_values();
        }
        self.0 = insert_u8(self.0, 1, 3, value);
    }

    /// Sets `midx` to `value`, or returns `Err` and leaves the register as it
    /// is where `value` exceeds `0x7`.
    pub fn set_midx_checked(&mut self, value: u8) -> (done: Result<(), ()>)
        ensures
            value <= 0x7 ==> done is Ok && final(self)@ == insert(
                old(self)@ as u64,
                1,
                3,
                value as u64,
            ),
            value > 0x7 ==> done is Err && final(self)@ == old(self)@,
    {
        if value > 0x7 {
            return Err(());
        }
        self.set_midx(value);
        Ok(())
    }

    /// Modulation Index Scale
    ///
    /// Bits: 4..6
    pub fn midxs(&self) -> (value: u8)
        ensures
            value == extract(self@ as u64, 4, 2),
    {
        extract_u8(self.0, 4, 2)
    }

    /// Returns the register with `midxs` set to `value`.
    pub fn with_midxs(self, value: u8) -> (reg: Self)
        requires
            value <= 0x3,
        ensures
            reg@ == insert(self@ as u64, 4, 2, value as u64),
            extract(reg@ as u64, 4, 2) == value,
    {
        proof {
            lemma_low_mask_values();
        }
        Self(insert_u8(self.0, 4, 2, value))
    }

    /// Returns the register with `midxs` set to `value`, or `Err` where `value`
    /// exceeds `0x3`.
    pub fn with_midxs_checked(self, value: u8) -> (reg: Result<Self, ()>)
        ensures
            value <= 0x3 ==> reg is Ok && reg.unwrap()@ == insert(self@ as u64, 4, 2, value as u64),
            value > 0x3 ==> reg is Err,
    {
        if value > 0x3 {
            return Err(());
        }
        Ok(self.with_midxs(value))
    }

    /// Sets `midxs` to `value`.
    pub fn set_midxs(&mut self, value: u8)
        requires
            value <= 0x3,
        ensures
            final(self)@ == insert(old(self)@ as u64, 4, 2, value as u64),
            extract(final(self)@ as u64, 4, 2) == value,
    {
        proof {
            lemma_low_mask_values();
        }
        self.0 = insert_u8(self.0, 4, 2, value);
    }

    /// Sets `midxs` to `value`, or returns `Err` and leaves the register as it
    /// is where `value` exceeds `0x3`.
    pub fn set_midxs_checked(&mut self, value: u8) -> (done: Result<(), ()>)
        ensures
            value <= 0x3 ==> done is Ok && final(self)@ == insert(
                old(self)@ as u64,
                4,
                2,
                value as u64,
            ),
            value > 0x3 ==> done is Err && final(self)@ == old(self)@,
    {
        if value > 0x3 {
            return Err(());
        }
        self.set_midxs(value);
        Ok(())
    }

    /// BT Product (Gaussian Filter)
    ///
    /// Bits: 6..8
    pub fn bt(&self) -> (value: u8)
        ensures
            value == extract(self@ as u64, 6, 2),
    {
        extract_u8(self.0, 6, 2)
    }

    /// Returns the register with `bt` set to `value`.
    pub fn with_bt(self, value: u8) -> (reg: Self)
        requires
            value <= 0x3,
        ensures
            reg@ == insert(self@ as u64, 6, 2, value as u64),
            extract(reg@ as u64, 6, 2) == value,
    {
        proof {
            lemma_low_mask_values();
        }
        Self(insert_u8(self.0, 6, 2, value))
    }

    /// Returns the register with `bt` set to `value`, or `Err` where `value`
    /// exceeds `0x3`.
    pub fn with_bt_checked(self, value: u8) -> (reg: Result<Self, ()>)
        ensures
            value <= 0x3 ==> reg is Ok && reg.unwrap()@ == insert(self@ as u64, 6, 2, value as u64),
            value > 0x3 ==> reg is Err,
    {
        if value > 0x3 {
            return Err(());
        }
        Ok(self.with_bt(value))
    }

    /// Sets `bt` to `value`.
    pub fn set_bt(&mut self, value: u8)
        requires
            value <= 0x3,
        ensures
            final(self)@ == insert(old(self)@ as u64, 6, 2, value as u64),
            extract(final(self)@ as u64, 6, 2) == value,
    {
        proof {
            lemma_low_mask_values();
        }
        self.0 = insert_u8(self.0, 6, 2, value);
    }

    /// Sets `bt` to `value`, or returns `Err` and leaves the register as it
    /// is where `value` exceeds `0x3`.
    pub fn set_bt_checked(&mut self, value: u8) -> (done: Result<(), ()>)
        ensures
            value <= 0x3 ==> done is Ok && final(self)@ == insert(
                old(self)@ as u64,
                6,
                2,
                value as u64,
            ),
            value > 0x3 ==> done is Err && final(self)@ == old(self)@,
    {
        if value > 0x3 {
            return Err(());
        }
        self.set_bt(value);
        Ok(())
    }
}

impl Default for BbcnFskc0 {
    fn default() -> (reg: Self)
        ensures
            reg@ == 0,
    {
        Self::new()
    }
}

impl From<u8> for BbcnFskc0 {
    fn from(v: u8) -> (reg: Self) {
        Self(v)
    }
}

impl FromSpecImpl<u8> for BbcnFskc0 {
    open spec fn obeys_from_spec() -> bool {
        true
    }

    open spec fn from_spec(v: u8) -> Self {
        BbcnFskc0(v)
    }
}

impl From<BbcnFskc0> for u8 {
    fn from(v: BbcnFskc0) -> (bits: u8) {
        v.0
    }
}

impl FromSpecImpl<BbcnFskc0> for u8 {
    open spec fn obeys_from_spec() -> bool {
        true
    }

    open spec fn from_spec(v: BbcnFskc0) -> u8 {
        v.0
    }
}

/// BBCn_FSKC1 - FSK Configuration 1
///
/// FSK symbol rate and preamble configuration.
#[derive(Debug, Clone, Copy, PartialEq, Eq)]
pub struct BbcnFskc1(pub u8);

impl View for BbcnFskc1 {
    type V = u8;

    open spec fn view(&self) -> u8 {
        self.0
    }
}

impl BbcnFskc1 {
    /// The register with every field at its reset value.
    pub fn new() -> (reg: Self)
        ensures
            reg@ == 0,
    {
        Self(0)
    }

    /// The register that holds `bits`.
    pub fn from_bits(bits: u8) -> (reg: Self)
        ensures
            reg@ == bits,
    {
        Self(bits)
    }

    /// The bits that the register holds.
    pub fn into_bits(self) -> (bits: u8)
        ensures
            bits == self@,
    {
        self.0
    }

    /// Symbol Rate
    ///
    /// Bits: 0..4
    pub fn srate(&self) -> (value: u8)
        ensures
            value == extract(self@ as u64, 0, 4),
    {
        extract_u8(self.0, 0, 4)
    }

    /// Returns the register with `srate` set to `value`.
    pub fn with_srate(self, value: u8) -> (reg: Self)
        requires
            value <= 0xF,
        ensures
            reg@ == insert(self@ as u64, 0, 4, value as u64),
            extract(reg@ as u64, 0, 4) == value,
    {
        proof {
            lemma_low_mask_values();
        }
        Self(insert_u8(self.0, 0, 4, value))
    }

    /// Returns the register with `srate` set to `value`, or `Err` where `value`
    /// exceeds `0xF`.
    pub fn with_srate_checked(self, value: u8) -> (reg: Result<Self, ()>)
        ensures
            value <= 0xF ==> reg is Ok && reg.unwrap()@ == insert(self@ as u64, 0, 4, value as u64),
            value > 0xF ==> reg is Err,
    {
        if value > 0xF {
            return Err(());
        }
        Ok(self.with_srate(value))
    }

    /// Sets `srate` to `value`.
    pub fn set_srate(&mut self, value: u8)
        requires
            value <= 0xF,
        ensures
            final(self)@ == insert(old(self)@ as u64, 0, 4, value as u64),
            extract(final(self)@ as u64, 0, 4) == value,
    {
        proof {
            lemma_low_mask_values();
        }
        self.0 = insert_u8(self.0, 0, 4, value);
    }

    /// Sets `srate` to `value`, or returns `Err` and leaves the register as it
    /// is where `value` exceeds `0xF`.
    pub fn set_srate_checked(&mut self, value: u8) -> (done: Result<(), ()>)
        ensures
            value <= 0xF ==> done is Ok && final(self)@ == insert(
                old(self)@ as u64,
                0,
                4,
                value as u64,
            ),
            value > 0xF ==> done is Err && final(self)@ == old(self)@,
    {
        if value > 0xF {
            return Err(());
        }
        self.set_srate(value);
        Ok(())
    }

    /// Channel Filter Index
    ///
    /// Bits: 5..6
    pub fn fi(&self) -> (value: bool)
        ensures
            value == (extract(self@ as u64, 5, 1) != 0),
    {
        extract_u8(self.0, 5, 1) != 0
    }

    /// Returns the register with `fi` set to `value`.
    pub fn with_fi(self, value: bool) -> (reg: Self)
        ensures
            reg@ == insert(self@ as u64, 5, 1, value as u64),
            (extract(reg@ as u64, 5, 1) != 0) == value,
    {
        proof {
            lemma_low_mask_values();
        }
        Self(insert_u8(self.0, 5, 1, value as u8))
    }

    /// Returns the register with `fi` set to `value`. Every value fits the
    /// field, so the result is always `Ok`.
    pub fn with_fi_checked(self, value: bool) -> (reg: Result<Self, ()>)
        ensures
            reg is Ok,
            reg.unwrap()@ == insert(self@ as u64, 5, 1, value as u64),
    {
        Ok(self.with_fi(value))
    }

    /// Sets `fi` to `value`.
    pub fn set_fi(&mut self, value: bool)
        ensures
            final(self)@ == insert(old(self)@ as u64, 5, 1, value as u64),
            (extract(final(self)@ as u64, 5, 1) != 0) == value,
    {
        proof {
            lemma_low_mask_values();
        }
        self.0 = insert_u8(self.0, 5, 1, value as u8);
    }

    /// Sets `fi` to `value`. Every value fits the field, so the result is
    /// always `Ok`.
    pub fn set_fi_checked(&mut self, value: bool) -> (done: Result<(), ()>)
        ensures
            done is Ok,
            final(self)@ == insert(old(self)@ as u64, 5, 1, value as u64),
    {
        self.set_fi(value);
        Ok(())
    }

    /// Preamble Length
    ///
    /// Bits: 6..8
    pub fn fskplh(&self) -> (value: u8)
        ensures
            value == extract(self@ as u64, 6, 2),
    {
        extract_u8(self.0, 6, 2)
    }

    /// Returns the register with `fskplh` set to `value`.
    pub fn with_fskplh(self, value: u8) -> (reg: Self)
        requires
            value <= 0x3,
        ensures
            reg@ == insert(self@ as u64, 6, 2, value as u64),
            extract(reg@ as u64, 6, 2) == value,
    {
        proof {
            lemma_low_mask_values();
        }
        Self(insert_u8(self.0, 6, 2, value))
    }

    /// Returns the register with `fskplh` set to `value`, or `Err` where `value`
    /// exceeds `0x3`.
    pub fn with_fskplh_checked(self, value: u8) -> (reg: Result<Self, ()>)
        ensures
            value <= 0x3 ==> reg is Ok && reg.unwrap()@ == insert(self@ as u64, 6, 2, value as u64),
            value > 0x3 ==> reg is Err,
    {
        if value > 0x3 {
            return Err(());
        }
        Ok(self.with_fskplh(value))
    }

    /// Sets `fskplh` to `value`.
    pub fn set_fskplh(&mut self, value: u8)
        requires
            value <= 0x3,
        ensures
            final(self)@ == insert(old(self)@ as u64, 6, 2, value as u64),
            extract(final(self)@ as u64, 6, 2) == value,
    {
        proof {
            lemma_low_mask_values();
        }
        self.0 = insert_u8(self.0, 6, 2, value);
    }

    /// Sets `fskplh` to `value`, or returns `Err` and leaves the register as it
    /// is where `value` exceeds `0x3`.
    pub fn set_fskplh_checked(&mut self, value: u8) -> (done: Result<(), ()>)
        ensures
            value <= 0x3 ==> done is Ok && final(self)@ == insert(
                old(self)@ as u64,
                6,
                2,
                value as u64,
            ),
            value > 0x3 ==> done is Err && final(self)@ == old(self)@,
    {
        if value > 0x3 {
            return Err(());
        }
        self.set_fskplh(value);
        Ok(())
    }
}

impl Default for BbcnFskc1 {
    fn default() -> (reg: Self)
        ensures
            reg@ == 0,
    {
        Self::new()
    }
}

impl From<u8> for BbcnFskc1 {
    fn from(v: u8) -> (reg: Self) {
        Self(v)
    }
}

impl FromSpecImpl<u8> for BbcnFskc1 {
    open spec fn obeys_from_spec() -> bool {
        true
    }

    open spec fn from_spec(v: u8) -> Self {
        BbcnFskc1(v)
    }
}

impl From<BbcnFskc1> for u8 {
    fn from(v: BbcnFskc1) -> (bits: u8) {
        v.0
    }
}

impl FromSpecImpl<BbcnFskc1> for u8 {
    open spec fn obeys_from_spec() -> bool {
        true
    }

    open spec fn from_spec(v: BbcnFskc1) -> u8 {
        v.0
    }
}

/// BBCn_FSKC2 - FSK Configuration 2
///
/// FSK receiver configuration.
#[derive(Debug, Clone, Copy, PartialEq, Eq)]
pub struct BbcnFskc2(pub u8);

impl View for BbcnFskc2 {
    type V = u8;

    open spec fn view(&self) -> u8 {
        self.0
    }
}

impl BbcnFskc2 {
    /// The register with every field at its reset value.
    pub fn new() -> (reg: Self)
        ensures
            reg@ == 0,
    {
        Self(0)
    }

    /// The register that holds `bits`.
    pub fn from_bits(bits: u8) -> (reg: Self)
        ensures
            reg@ == bits,
    {
        Self(bits)
    }

    /// The bits that the register holds.
    pub fn into_bits(self) -> (bits: u8)
        ensures
            bits == self@,
    {
        self.0
    }

    /// FEC Inner Code Enable
    ///
    /// Bits: 0..1
    pub fn fecie(&self) -> (value: bool)
        ensures
            value == (extract(self@ as u64, 0, 1) != 0),
    {
        extract_u8(self.0, 0, 1) != 0
    }

    /// Returns the register with `fecie` set to `value`.
    pub fn with_fecie(self, value: bool) -> (reg: Self)
        ensures
            reg@ == insert(self@ as u64, 0, 1, value as u64),
            (extract(reg@ as u64, 0, 1) != 0) == value,
    {
        proof {
            lemma_low_mask_values();
        }
        Self(insert_u8(self.0, 0, 1, value as u8))
    }

    /// Returns the register with `fecie` set to `value`. Every value fits the
    /// field, so the result is always `Ok`.
    pub fn with_fecie_checked(self, value: bool) -> (reg: Result<Self, ()>)
        ensures
            reg is Ok,
            reg.unwrap()@ == insert(self@ as u64, 0, 1, value as u64),
    {
        Ok(self.with_fecie(value))
    }

    /// Sets `fecie` to `value`.
    pub fn set_fecie(&mut self, value: bool)
        ensures
            final(self)@ == insert(old(self)@ as u64, 0, 1, value as u64),
            (extract(final(self)@ as u64, 0, 1) != 0) == value,
    {
        proof {
            lemma_low_mask_values();
        }
        self.0 = insert_u8(self.0, 0, 1, value as u8);
    }

    /// Sets `fecie` to `value`. Every value fits the field, so the result is
    /// always `Ok`.
    pub fn set_fecie_checked(&mut self, value: bool) -> (done: Result<(), ()>)
        ensures
            done is Ok,
            final(self)@ == insert(old(self)@ as u64, 0, 1, value as u64),
    {
        self.set_fecie(value);
        Ok(())
    }

    /// FEC Scheme
    ///
    /// Bits: 1..2
    pub fn fecs(&self) -> (value: bool)
        ensures
            value == (extract(self@ as u64, 1, 1) != 0),
    {
        extract_u8(self.0, 1, 1) != 0
    }

    /// Returns the register with `fecs` set to `value`.
    pub fn with_fecs(self, value: bool) -> (reg: Self)
        ensures
            reg@ == insert(self@ as u64, 1, 1, value as u64),
            (extract(reg@ as u64, 1, 1) != 0) == value,
    {
        proof {
            lemma_low_mask_values();
        }
        Self(insert_u8(self.0, 1, 1, value as u8))
    }

    /// Returns the register with `fecs` set to `value`. Every value fits the
    /// field, so the result is always `Ok`.
    pub fn with_fecs_checked(self, value: bool) -> (reg: Result<Self, ()>)
        ensures
            reg is Ok,
            reg.unwrap()@ == insert(self@ as u64, 1, 1, value as u64),
    {
        Ok(self.with_fecs(value))
    }

    /// Sets `fecs` to `value`.
    pub fn set_fecs(&mut self, value: bool)
        ensures
            final(self)@ == insert(old(self)@ as u64, 1, 1, value as u64),
            (extract(final(self)@ as u64, 1, 1) != 0) == value,
    {
        proof {
            lemma_low_mask_values();
        }
        self.0 = insert_u8(self.0, 1, 1, value as u8);
    }

    /// Sets `fecs` to `value`. Every value fits the field, so the result is
    /// always `Ok`.
    pub fn set_fecs_checked(&mut self, value: bool) -> (done: Result<(), ()>)
        ensures
            done is Ok,
            final(self)@ == insert(old(self)@ as u64, 1, 1, value as u64),
    {
        self.set_fecs(value);
        Ok(())
    }

    /// Priority Mode for RX Interframe Spacing
    ///
    /// Bits: 2..3
    pub fn pri(&self) -> (value: bool)
        ensures
            value == (extract(self@ as u64, 2, 1) != 0),
    {
        extract_u8(self.0, 2, 1) != 0
    }

    /// Returns the register with `pri` set to `value`.
    pub fn with_pri(self, value: bool) -> (reg: Self)
        ensures
            reg@ == insert(self@ as u64, 2, 1, value as u64),
            (extract(reg@ as u64, 2, 1) != 0) == value,
    {
        proof {
            lemma_low_mask_values();
        }
        Self(insert_u8(self.0, 2, 1, value as u8))
    }

    /// Returns the register with `pri` set to `value`. Every value fits the
    /// field, so the result is always `Ok`.
    pub fn with_pri_checked(self, value: bool) -> (reg: Result<Self, ()>)
        ensures
            reg is Ok,
            reg.unwrap()@ == insert(self@ as u64, 2, 1, value as u64),
    {
        Ok(self.with_pri(value))
    }

    /// Sets `pri` to `value`.
    pub fn set_pri(&mut self, value: bool)
        ensures
            final(self)@ == insert(old(self)@ as u64, 2, 1, value as u64),
            (extract(final(self)@ as u64, 2, 1) != 0) == value,
    {
        proof {
            lemma_low_mask_values();
        }
        self.0 = insert_u8(self.0, 2, 1, value as u8);
    }

    /// Sets `pri` to `value`. Every value fits the field, so the result is
    /// always `Ok`.
    pub fn set_pri_checked(&mut self, value: bool) -> (done: Result<(), ()>)
        ensures
            done is Ok,
            final(self)@ == insert(old(self)@ as u64, 2, 1, value as u64),
    {
        self.set_pri(value);
        Ok(())
    }

    /// Mode Switch Enable
    ///
    /// Bits: 3..4
    pub fn mse(&self) -> (value: bool)
        ensures
            value == (extract(self@ as u64, 3, 1) != 0),
    {
        extract_u8(self.0, 3, 1) != 0
    }

    /// Returns the register with `mse` set to `value`.
    pub fn with_mse(self, value: bool) -> (reg: Self)
        ensures
            reg@ == insert(self@ as u64, 3, 1, value as u64),
            (extract(reg@ as u64, 3, 1) != 0) == value,
    {
        proof {
            lemma_low_mask_values();
        }
        Self(insert_u8(self.0, 3, 1, value as u8))
    }

    /// Returns the register with `mse` set to `value`. Every value fits the
    /// field, so the result is always `Ok`.
    pub fn with_mse_checked(self, value: bool) -> (reg: Result<Self, ()>)
        ensures
            reg is Ok,
            reg.unwrap()@ == insert(self@ as u64, 3, 1, value as u64),
    {
        Ok(self.with_mse(value))
    }

    /// Sets `mse` to `value`.
    pub fn set_mse(&mut self, value: bool)
        ensures
            final(self)@ == insert(old(self)@ as u64, 3, 1, value as u64),
            (extract(final(self)@ as u64, 3, 1) != 0) == value,
    {
        proof {
            lemma_low_mask_values();
        }
        self.0 = insert_u8(self.0, 3, 1, value as u8);
    }

    /// Sets `mse` to `value`. Every value fits the field, so the result is
    /// always `Ok`.
    pub fn set_mse_checked(&mut self, value: bool) -> (done: Result<(), ()>)
        ensures
            done is Ok,
            final(self)@ == insert(old(self)@ as u64, 3, 1, value as u64),
    {
        self.set_mse(value);
        Ok(())
    }

    /// RX PHR Timeout
    ///
    /// Bits: 4..5
    pub fn rxpto(&self) -> (value: bool)
        ensures
            value == (extract(self@ as u64, 4, 1) != 0),
    {
        extract_u8(self.0, 4, 1) != 0
    }

    /// Returns the register with `rxpto` set to `value`.
    pub fn with_rxpto(self, value: bool) -> (reg: Self)
        ensures
            reg@ == insert(self@ as u64, 4, 1, value as u64),
            (extract(reg@ as u64, 4, 1) != 0) == value,
    {
        proof {
            lemma_low_mask_values();
        }
        Self(insert_u8(self.0, 4, 1, value as u8))
    }

    /// Returns the register with `rxpto` set to `value`. Every value fits the
    /// field, so the result is always `Ok`.
    pub fn with_rxpto_checked(self, value: bool) -> (reg: Result<Self, ()>)
        ensures
            reg is Ok,
            reg.unwrap()@ == insert(self@ as u64, 4, 1, value as u64),
    {
        Ok(self.with_rxpto(value))
    }

    /// Sets `rxpto` to `value`.
    pub fn set_rxpto(&mut self, value: bool)
        ensures
            final(self)@ == insert(old(self)@ as u64, 4, 1, value as u64),
            (extract(final(self)@ as u64, 4, 1) != 0) == value,
    {
        proof {
            lemma_low_mask_values();
        }
        self.0 = insert_u8(self.0, 4, 1, value as u8);
    }

    /// Sets `rxpto` to `value`. Every value fits the field, so the result is
    /// always `Ok`.
    pub fn set_rxpto_checked(&mut self, value: bool) -> (done: Result<(), ()>)
        ensures
            done is Ok,
            final(self)@ == insert(old(self)@ as u64, 4, 1, value as u64),
    {
        self.set_rxpto(value);
        Ok(())
    }

    /// RX Override
    ///
    /// Bits: 5..7
    pub fn rxo(&self) -> (value: u8)
        ensures
            value == extract(self@ as u64, 5, 2),
    {
        extract_u8(self.0, 5, 2)
    }

    /// Returns the register with `rxo` set to `value`.
    pub fn with_rxo(self, value: u8) -> (reg: Self)
        requires
            value <= 0x3,
        ensures
            reg@ == insert(self@ as u64, 5, 2, value as u64),
            extract(reg@ as u64, 5, 2) == value,
    {
        proof {
            lemma_low_mask_values();
        }
        Self(insert_u8(self.0, 5, 2, value))
    }

    /// Returns the register with `rxo` set to `value`, or `Err` where `value`
    /// exceeds `0x3`.
    pub fn with_rxo_checked(self, value: u8) -> (reg: Result<Self, ()>)
        ensures
            value <= 0x3 ==> reg is Ok && reg.unwrap()@ == insert(self@ as u64, 5, 2, value as u64),
            value > 0x3 ==> reg is Err,
    {
        if value > 0x3 {
            return Err(());
        }
        Ok(self.with_rxo(value))
    }

    /// Sets `rxo` to `value`.
    pub fn set_rxo(&mut self, value: u8)
        requires
            value <= 0x3,
        ensures
            final(self)@ == insert(old(self)@ as u64, 5, 2, value as u64),
            extract(final(self)@ as u64, 5, 2) == value,
    {
        proof {
            lemma_low_mask_values();
        }
        self.0 = insert_u8(self.0, 5, 2, value);
    }

    /// Sets `rxo` to `value`, or returns `Err` and leaves the register as it
    /// is where `value` exceeds `0x3`.
    pub fn set_rxo_checked(&mut self, value: u8) -> (done: Result<(), ()>)
        ensures
            value <= 0x3 ==> done is Ok && final(self)@ == insert(
                old(self)@ as u64,
                5,
                2,
                value as u64,
            ),
            value > 0x3 ==> done is Err && final(self)@ == old(self)@,
    {
        if value > 0x3 {
            return Err(());
        }
        self.set_rxo(value);
        Ok(())
    }

    /// Preamble Detection Threshold Mode
    ///
    /// Bits: 7..8
    pub fn pdtm(&self) -> (value: bool)
        ensures
            value == (extract(self@ as u64, 7, 1) != 0),
    {
        extract_u8(self.0, 7, 1) != 0
    }

    /// Returns the register with `pdtm` set to `value`.
    pub fn with_pdtm(self, value: bool) -> (reg: Self)
        ensures
            reg@ == insert(self@ as u64, 7, 1, value as u64),
            (extract(reg@ as u64, 7, 1) != 0) == value,
    {
        proof {
            lemma_low_mask_values();
        }
        Self(insert_u8(self.0, 7, 1, value as u8))
    }

    /// Returns the register with `pdtm` set to `value`. Every value fits the
    /// field, so the result is always `Ok`.
    pub fn with_pdtm_checked(self, value: bool) -> (reg: Result<Self, ()>)
        ensures
            reg is Ok,
            reg.unwrap()@ == insert(self@ as u64, 7, 1, value as u64),
    {
        Ok(self.with_pdtm(value))
    }

    /// Sets `pdtm` to `value`.
    pub fn set_pdtm(&mut self, value: bool)
        ensures
            final(self)@ == insert(old(self)@ as u64, 7, 1, value as u64),
            (extract(final(self)@ as u64, 7, 1) != 0) == value,
    {
        proof {
            lemma_low_mask_values();
        }
        self.0 = insert_u8(self.0, 7, 1, value as u8);
    }

    /// Sets `pdtm` to `value`. Every value fits the field, so the result is
    /// always `Ok`.
    pub fn set_pdtm_checked(&mut self, value: bool) -> (done: Result<(), ()>)
        ensures
            done is Ok,
            final(self)@ == insert(old(self)@ as u64, 7, 1, value as u64),
    {
        self.set_pdtm(value);
        Ok(())
    }
}

impl Default for BbcnFskc2 {
    fn default() -> (reg: Self)
        ensures
            reg@ == 0,
    {
        Self::new()
    }
}

impl From<u8> for BbcnFskc2 {
    fn from(v: u8) -> (reg: Self) {
        Self(v)
    }
}

impl FromSpecImpl<u8> for BbcnFskc2 {
    open spec fn obeys_from_spec() -> bool {
        true
    }

    open spec fn from_spec(v: u8) -> Self {
        BbcnFskc2(v)
    }
}

impl From<BbcnFskc2> for u8 {
    fn from(v: BbcnFskc2) -> (bits: u8) {
        v.0
    }
}

impl FromSpecImpl<BbcnFskc2> for u8 {
    open spec fn obeys_from_spec() -> bool {
        true
    }

    open spec fn from_spec(v: BbcnFskc2) -> u8 {
        v.0
    }
}

/// BBCn_FSKC3 - FSK Configuration 3
///
/// FSK preamble and SFD configuration.
#[derive(Debug, Clone, Copy, PartialEq, Eq)]
pub struct BbcnFskc3(pub u8);

impl View for BbcnFskc3 {
    type V = u8;

    open spec fn view(&self) -> u8 {
        self.0
    }
}

impl BbcnFskc3 {
    /// The register with every field at its reset value.
    pub fn new() -> (reg: Self)
        ensures
            reg@ == 0,
    {
        Self(0)
    }

    /// The register that holds `bits`.
    pub fn from_bits(bits: u8) -> (reg: Self)
        ensures
            reg@ == bits,
    {
        Self(bits)
    }

    /// The bits that the register holds.
    pub fn into_bits(self) -> (bits: u8)
        ensures
            bits == self@,
    {
        self.0
    }

    /// Preamble Detection Threshold
    ///
    /// Bits: 0..5
    pub fn pdt(&self) -> (value: u8)
        ensures
            value == extract(self@ as u64, 0, 5),
    {
        extract_u8(self.0, 0, 5)
    }

    /// Returns the register with `pdt` set to `value`.
    pub fn with_pdt(self, value: u8) -> (reg: Self)
        requires
            value <= 0x1F,
        ensures
            reg@ == insert(self@ as u64, 0, 5, value as u64),
            extract(reg@ as u64, 0, 5) == value,
    {
        proof {
            lemma_low_mask_values();
        }
        Self(insert_u8(self.0, 0, 5, value))
    }

    /// Returns the register with `pdt` set to `value`, or `Err` where `value`
    /// exceeds `0x1F`.
    pub fn with_pdt_checked(self, value: u8) -> (reg: Result<Self, ()>)
        ensures
            value <= 0x1F ==> reg is Ok && reg.unwrap()@ == insert(
                self@ as u64,
                0,
                5,
                value as u64,
            ),
            value > 0x1F ==> reg is Err,
    {
        if value > 0x1F {
            return Err(());
        }
        Ok(self.with_pdt(value))
    }

    /// Sets `pdt` to `value`.
    pub fn set_pdt(&mut self, value: u8)
        requires
            value <= 0x1F,
        ensures
            final(self)@ == insert(old(self)@ as u64, 0, 5, value as u64),
            extract(final(self)@ as u64, 0, 5) == value,
    {
        proof {
            lemma_low_mask_values();
        }
        self.0 = insert_u8(self.0, 0, 5, value);
    }

    /// Sets `pdt` to `value`, or returns `Err` and leaves the register as it
    /// is where `value` exceeds `0x1F`.
    pub fn set_pdt_checked(&mut self, value: u8) -> (done: Result<(), ()>)
        ensures
            value <= 0x1F ==> done is Ok && final(self)@ == insert(
                old(self)@ as u64,
                0,
                5,
                value as u64,
            ),
            value > 0x1F ==> done is Err && final(self)@ == old(self)@,
    {
        if value > 0x1F {
            return Err(());
        }
        self.set_pdt(value);
        Ok(())
    }

    /// SFD Detection Threshold
    ///
    /// Bits: 5..8
    pub fn sfdt(&self) -> (value: u8)
        ensures
            value == extract(self@ as u64, 5, 3),
    {
        extract_u8(self.0, 5, 3)
    }

    /// Returns the register with `sfdt` set to `value`.
    pub fn with_sfdt(self, value: u8) -> (reg: Self)
        requires
            value <= 0x7,
        ensures
            reg@ == insert(self@ as u64, 5, 3, value as u64),
            extract(reg@ as u64, 5, 3) == value,
    {
        proof {
            lemma_low_mask_values();
        }
        Self(insert_u8(self.0, 5, 3, value))
    }

    /// Returns the register with `sfdt` set to `value`, or `Err` where `value`
    /// exceeds `0x7`.
    pub fn with_sfdt_checked(self, value: u8) -> (reg: Result<Self, ()>)
        ensures
            value <= 0x7 ==> reg is Ok && reg.unwrap()@ == insert(self@ as u64, 5, 3, value as u64),
            value > 0x7 ==> reg is Err,
    {
        if value > 0x7 {
            return Err(());
        }
        Ok(self.with_sfdt(value))
    }

    /// Sets `sfdt` to `value`.
    pub fn set_sfdt(&mut self, value: u8)
        requires
            value <= 0x7,
        ensures
            final(self)@ == insert(old(self)@ as u64, 5, 3, value as u64),
            extract(final(self)@ as u64, 5, 3) == value,
    {
        proof {
            lemma_low_mask_values();
        }
        self.0 = insert_u8(self.0, 5, 3, value);
    }

    /// Sets `sfdt` to `value`, or returns `Err` and leaves the register as it
    /// is where `value` exceeds `0x7`.
    pub fn set_sfdt_checked(&mut self, value: u8) -> (done: Result<(), ()>)
        ensures
            value <= 0x7 ==> done is Ok && final(self)@ == insert(
                old(self)@ as u64,
                5,
                3,
                value as u64,
            ),
            value > 0x7 ==> done is Err && final(self)@ == old(self)@,
    {
        if value > 0x7 {
            return Err(());
        }
        self.set_sfdt(value);
        Ok(())
    }
}

impl Default for BbcnFskc3 {
    fn default() -> (reg: Self)
        ensures
            reg@ == 0,
    {
        Self::new()
    }
}

impl From<u8> for BbcnFskc3 {
    fn from(v: u8) -> (reg: Self) {
        Self(v)
    }
}

impl FromSpecImpl<u8> for BbcnFskc3 {
    open spec fn obeys_from_spec() -> bool {
        true
    }

    open spec fn from_spec(v: u8) -> Self {
        BbcnFskc3(v)
    }
}

impl From<BbcnFskc3> for u8 {
    fn from(v: BbcnFskc3) -> (bits: u8) {
        v.0
    }
}

impl FromSpecImpl<BbcnFskc3> for u8 {
    open spec fn obeys_from_spec() -> bool {
        true
    }

    open spec fn from_spec(v: BbcnFskc3) -> u8 {
        v.0
    }
}

/// BBCn_FSKC4 - FSK Configuration 4
///
/// FSK SFD and raw bit configuration.
#[derive(Debug, Clone, Copy, PartialEq, Eq)]
pub struct BbcnFskc4(pub u8);

impl View for BbcnFskc4 {
    type V = u8;

    open spec fn view(&self) -> u8 {
        self.0
    }
}

impl BbcnFskc4 {
    /// The register with every field at its reset value.
    pub fn new() -> (reg: Self)
        ensures
            reg@ == 0,
    {
        Self(0)
    }

    /// The register that holds `bits`.
    pub fn from_bits(bits: u8) -> (reg: Self)
        ensures
            reg@ == bits,
    {
        Self(bits)
    }

    /// The bits that the register holds.
    pub fn into_bits(self) -> (bits: u8)
        ensures
            bits == self@,
    {
        self.0
    }

    /// Custom SFD 0
    ///
    /// Bits: 0..2
    pub fn csfd0(&self) -> (value: u8)
        ensures
            value == extract(self@ as u64, 0, 2),
    {
        extract_u8(self.0, 0, 2)
    }

    /// Returns the register with `csfd0` set to `value`.
    pub fn with_csfd0(self, value: u8) -> (reg: Self)
        requires
            value <= 0x3,
        ensures
            reg@ == insert(self@ as u64, 0, 2, value as u64),
            extract(reg@ as u64, 0, 2) == value,
    {
        proof {
            lemma_low_mask_values();
        }
        Self(insert_u8(self.0, 0, 2, value))
    }

    /// Returns the register with `csfd0` set to `value`, or `Err` where `value`
    /// exceeds `0x3`.
    pub fn with_csfd0_checked(self, value: u8) -> (reg: Result<Self, ()>)
        ensures
            value <= 0x3 ==> reg is Ok && reg.unwrap()@ == insert(self@ as u64, 0, 2, value as u64),
            value > 0x3 ==> reg is Err,
    {
        if value > 0x3 {
            return Err(());
        }
        Ok(self.with_csfd0(value))
    }

    /// Sets `csfd0` to `value`.
    pub fn set_csfd0(&mut self, value: u8)
        requires
            value <= 0x3,
        ensures
            final(self)@ == insert(old(self)@ as u64, 0, 2, value as u64),
            extract(final(self)@ as u64, 0, 2) == value,
    {
        proof {
            lemma_low_mask_values();
        }
        self.0 = insert_u8(self.0, 0, 2, value);
    }

    /// Sets `csfd0` to `value`, or returns `Err` and leaves the register as it
    /// is where `value` exceeds `0x3`.
    pub fn set_csfd0_checked(&mut self, value: u8) -> (done: Result<(), ()>)
        ensures
            value <= 0x3 ==> done is Ok && final(self)@ == insert(
                old(self)@ as u64,
                0,
                2,
                value as u64,
            ),
            value > 0x3 ==> done is Err && final(self)@ == old(self)@,
    {
        if value > 0x3 {
            return Err(());
        }
        self.set_csfd0(value);
        Ok(())
    }

    /// Custom SFD 1
    ///
    /// Bits: 2..4
    pub fn csfd1(&self) -> (value: u8)
        ensures
            value == extract(self@ as u64, 2, 2),
    {
        extract_u8(self.0, 2, 2)
    }

    /// Returns the register with `csfd1` set to `value`.
    pub fn with_csfd1(self, value: u8) -> (reg: Self)
        requires
            value <= 0x3,
        ensures
            reg@ == insert(self@ as u64, 2, 2, value as u64),
            extract(reg@ as u64, 2, 2) == value,
    {
        proof {
            lemma_low_mask_values();
        }
        Self(insert_u8(self.0, 2, 2, value))
    }

    /// Returns the register with `csfd1` set to `value`, or `Err` where `value`
    /// exceeds `0x3`.
    pub fn with_csfd1_checked(self, value: u8) -> (reg: Result<Self, ()>)
        ensures
            value <= 0x3 ==> reg is Ok && reg.unwrap()@ == insert(self@ as u64, 2, 2, value as u64),
            value > 0x3 ==> reg is Err,
    {
        if value > 0x3 {
            return Err(());
        }
        Ok(self.with_csfd1(value))
    }

    /// Sets `csfd1` to `value`.
    pub fn set_csfd1(&mut self, value: u8)
        requires
            value <= 0x3,
        ensures
            final(self)@ == insert(old(self)@ as u64, 2, 2, value as u64),
            extract(final(self)@ as u64, 2, 2) == value,
    {
        proof {
            lemma_low_mask_values();
        }
        self.0 = insert_u8(self.0, 2, 2, value);
    }

    /// Sets `csfd1` to `value`, or returns `Err` and leaves the register as it
    /// is where `value` exceeds `0x3`.
    pub fn set_csfd1_checked(&mut self, value: u8) -> (done: Result<(), ()>)
        ensures
            value <= 0x3 ==> done is Ok && final(self)@ == insert(
                old(self)@ as u64,
                2,
                2,
                value as u64,
            ),
            value > 0x3 ==> done is Err && final(self)@ == old(self)@,
    {
        if value > 0x3 {
            return Err(());
        }
        self.set_csfd1(value);
        Ok(())
    }

    /// Raw RX Bit Mode
    ///
    /// Bits: 4..5
    pub fn rawrbit(&self) -> (value: bool)
        ensures
            value == (extract(self@ as u64, 4, 1) != 0),
    {
        extract_u8(self.0, 4, 1) != 0
    }

    /// Returns the register with `rawrbit` set to `value`.
    pub fn with_rawrbit(self, value: bool) -> (reg: Self)
        ensures
            reg@ == insert(self@ as u64, 4, 1, value as u64),
            (extract(reg@ as u64, 4, 1) != 0) == value,
    {
        proof {
            lemma_low_mask_values();
        }
        Self(insert_u8(self.0, 4, 1, value as u8))
    }

    /// Returns the register with `rawrbit` set to `value`. Every value fits the
    /// field, so the result is always `Ok`.
    pub fn with_rawrbit_checked(self, value: bool) -> (reg: Result<Self, ()>)
        ensures
            reg is Ok,
            reg.unwrap()@ == insert(self@ as u64, 4, 1, value as u64),
    {
        Ok(self.with_rawrbit(value))
    }

    /// Sets `rawrbit` to `value`.
    pub fn set_rawrbit(&mut self, value: bool)
        ensures
            final(self)@ == insert(old(self)@ as u64, 4, 1, value as u64),
            (extract(final(self)@ as u64, 4, 1) != 0) == value,
    {
        proof {
            lemma_low_mask_values();
        }
        self.0 = insert_u8(self.0, 4, 1, value as u8);
    }

    /// Sets `rawrbit` to `value`. Every value fits the field, so the result is
    /// always `Ok`.
    pub fn set_rawrbit_checked(&mut self, value: bool) -> (done: Result<(), ()>)
        ensures
            done is Ok,
            final(self)@ == insert(old(self)@ as u64, 4, 1, value as u64),
    {
        self.set_rawrbit(value);
        Ok(())
    }

    /// SFD 32-bit Mode
    ///
    /// Bits: 5..6
    pub fn sfd32(&self) -> (value: bool)
        ensures
            value == (extract(self@ as u64, 5, 1) != 0),
    {
        extract_u8(self.0, 5, 1) != 0
    }

    /// Returns the register with `sfd32` set to `value`.
    pub fn with_sfd32(self, value: bool) -> (reg: Self)
        ensures
            reg@ == insert(self@ as u64, 5, 1, value as u64),
            (extract(reg@ as u64, 5, 1) != 0) == value,
    {
        proof {
            lemma_low_mask_values();
        }
        Self(insert_u8(self.0, 5, 1, value as u8))
    }

    /// Returns the register with `sfd32` set to `value`. Every value fits the
    /// field, so the result is always `Ok`.
    pub fn with_sfd32_checked(self, value: bool) -> (reg: Result<Self, ()>)
        ensures
            reg is Ok,
            reg.unwrap()@ == insert(self@ as u64, 5, 1, value as u64),
    {
        Ok(self.with_sfd32(value))
    }

    /// Sets `sfd32` to `value`.
    pub fn set_sfd32(&mut self, value: bool)
        ensures
            final(self)@ == insert(old(self)@ as u64, 5, 1, value as u64),
            (extract(final(self)@ as u64, 5, 1) != 0) == value,
    {
        proof {
            lemma_low_mask_values();
        }
        self.0 = insert_u8(self.0, 5, 1, value as u8);
    }

    /// Sets `sfd32` to `value`. Every value fits the field, so the result is
    /// always `Ok`.
    pub fn set_sfd32_checked(&mut self, value: bool) -> (done: Result<(), ()>)
        ensures
            done is Ok,
            final(self)@ == insert(old(self)@ as u64, 5, 1, value as u64),
    {
        self.set_sfd32(value);
        Ok(())
    }

    /// SFD Qualifier
    ///
    /// Bits: 6..7
    pub fn sfdq(&self) -> (value: bool)
        ensures
            value == (extract(self@ as u64, 6, 1) != 0),
    {
        extract_u8(self.0, 6, 1) != 0
    }

    /// Returns the register with `sfdq` set to `value`.
    pub fn with_sfdq(self, value: bool) -> (reg: Self)
        ensures
            reg@ == insert(self@ as u64, 6, 1, value as u64),
            (extract(reg@ as u64, 6, 1) != 0) == value,
    {
        proof {
            lemma_low_mask_values();
        }
        Self(insert_u8(self.0, 6, 1, value as u8))
    }

    /// Returns the register with `sfdq` set to `value`. Every value fits the
    /// field, so the result is always `Ok`.
    pub fn with_sfdq_checked(self, value: bool) -> (reg: Result<Self, ()>)
        ensures
            reg is Ok,
            reg.unwrap()@ == insert(self@ as u64, 6, 1, value as u64),
    {
        Ok(self.with_sfdq(value))
    }

    /// Sets `sfdq` to `value`.
    pub fn set_sfdq(&mut self, value: bool)
        ensures
            final(self)@ == insert(old(self)@ as u64, 6, 1, value as u64),
            (extract(final(self)@ as u64, 6, 1) != 0) == value,
    {
        proof {
            lemma_low_mask_values();
        }
        self.0 = insert_u8(self.0, 6, 1, value as u8);
    }

    /// Sets `sfdq` to `value`. Every value fits the field, so the result is
    /// always `Ok`.
    pub fn set_sfdq_checked(&mut self, value: bool) -> (done: Result<(), ()>)
        ensures
            done is Ok,
            final(self)@ == insert(old(self)@ as u64, 6, 1, value as u64),
    {
        self.set_sfdq(value);
        Ok(())
    }
}

impl Default for BbcnFskc4 {
    fn default() -> (reg: Self)
        ensures
            reg@ == 0,
    {
        Self::new()
    }
}

impl From<u8> for BbcnFskc4 {
    fn from(v: u8) -> (reg: Self) {
        Self(v)
    }
}

impl FromSpecImpl<u8> for BbcnFskc4 {
    open spec fn obeys_from_spec() -> bool {
        true
    }

    open spec fn from_spec(v: u8) -> Self {
        BbcnFskc4(v)
    }
}

impl From<BbcnFskc4> for u8 {
    fn from(v: BbcnFskc4) -> (bits: u8) {
        v.0
    }
}

impl FromSpecImpl<BbcnFskc4> for u8 {
    open spec fn obeys_from_spec() -> bool {
        true
    }

    open spec fn from_spec(v: BbcnFskc4) -> u8 {
        v.0
    }
}

/// BBCn_FSKPLL - FSK PLL Configuration
///
/// FSK PLL bandwidth configuration.
#[derive(Debug, Clone, Copy, PartialEq, Eq)]
pub struct BbcnFskpll(pub u8);

impl View for BbcnFskpll {
    type V = u8;

    open spec fn view(&self) -> u8 {
        self.0
    }
}

impl BbcnFskpll {
    /// The register with every field at its reset value.
    pub fn new() -> (reg: Self)
        ensures
            reg@ == 0,
    {
        Self(0)
    }

    /// The register that holds `bits`.
    pub fn from_bits(bits: u8) -> (reg: Self)
        ensures
            reg@ == bits,
    {
        Self(bits)
    }

    /// The bits that the register holds.
    pub fn into_bits(self) -> (bits: u8)
        ensures
            bits == self@,
    {
        self.0
    }

    /// Bits: 0..8
    pub fn fskpll(&self) -> (value: u8)
        ensures
            value == extract(self@ as u64, 0, 8),
    {
        extract_u8(self.0, 0, 8)
    }

    /// Returns the register with `fskpll` set to `value`.
    pub fn with_fskpll(self, value: u8) -> (reg: Self)
        ensures
            reg@ == insert(self@ as u64, 0, 8, value as u64),
            extract(reg@ as u64, 0, 8) == value,
    {
        proof {
            lemma_low_mask_values();
        }
        Self(insert_u8(self.0, 0, 8, value))
    }

    /// Returns the register with `fskpll` set to `value`. Every value fits the
    /// field, so the result is always `Ok`.
    pub fn with_fskpll_checked(self, value: u8) -> (reg: Result<Self, ()>)
        ensures
            reg is Ok,
            reg.unwrap()@ == insert(self@ as u64, 0, 8, value as u64),
    {
        Ok(self.with_fskpll(value))
    }

    /// Sets `fskpll` to `value`.
    pub fn set_fskpll(&mut self, value: u8)
        ensures
            final(self)@ == insert(old(self)@ as u64, 0, 8, value as u64),
            extract(final(self)@ as u64, 0, 8) == value,
    {
        proof {
            lemma_low_mask_values();
        }
        self.0 = insert_u8(self.0, 0, 8, value);
    }

    /// Sets `fskpll` to `value`. Every value fits the field, so the result is
    /// always `Ok`.
    pub fn set_fskpll_checked(&mut self, value: u8) -> (done: Result<(), ()>)
        ensures
            done is Ok,
            final(self)@ == insert(old(self)@ as u64, 0, 8, value as u64),
    {
        self.set_fskpll(value);
        Ok(())
    }
}

impl Default for BbcnFskpll {
    fn default() -> (reg: Self)
        ensures
            reg@ == 0,
    {
        Self::new()
    }
}

impl From<u8> for BbcnFskpll {
    fn from(v: u8) -> (reg: Self) {
        Self(v)
    }
}

impl FromSpecImpl<u8> for BbcnFskpll {
    open spec fn obeys_from_spec() -> bool {
        true
    }

    open spec fn from_spec(v: u8) -> Self {
        BbcnFskpll(v)
    }
}

impl From<BbcnFskpll> for u8 {
    fn from(v: BbcnFskpll) -> (bits: u8) {
        v.0
    }
}

impl FromSpecImpl<BbcnFskpll> for u8 {
    open spec fn obeys_from_spec() -> bool {
        true
    }

    open spec fn from_spec(v: BbcnFskpll) -> u8 {
        v.0
    }
}

/// BBCn_FSKSFD - FSK SFD Pattern
///
/// 16-bit custom SFD pattern for FSK.
#[derive(Debug, Clone, Copy, PartialEq, Eq)]
pub struct BbcnFsksfd(pub u16);

impl View for BbcnFsksfd {
    type V = u16;

    open spec fn view(&self) -> u16 {
        self.0
    }
}

impl BbcnFsksfd {
    /// The register with every field at its reset value.
    pub fn new() -> (reg: Self)
        ensures
            reg@ == 0,
    {
        Self(0)
    }

    /// The register that holds `bits`.
    pub fn from_bits(bits: u16) -> (reg: Self)
        ensures
            reg@ == bits,
    {
        Self(bits)
    }

    /// The bits that the register holds.
    pub fn into_bits(self) -> (bits: u16)
        ensures
            bits == self@,
    {
        self.0
    }

    /// SFD Pattern (16-bit)
    ///
    /// Bits: 0..16
    pub fn fsksfd(&self) -> (value: u16)
        ensures
            value == extract(self@ as u64, 0, 16),
    {
        extract_u16(self.0, 0, 16)
    }

    /// Returns the register with `fsksfd` set to `value`.
    pub fn with_fsksfd(self, value: u16) -> (reg: Self)
        ensures
            reg@ == insert(self@ as u64, 0, 16, value as u64),
            extract(reg@ as u64, 0, 16) == value,
    {
        proof {
            lemma_low_mask_values();
        }
        Self(insert_u16(self.0, 0, 16, value))
    }

    /// Returns the register with `fsksfd` set to `value`. Every value fits the
    /// field, so the result is always `Ok`.
    pub fn with_fsksfd_checked(self, value: u16) -> (reg: Result<Self, ()>)
        ensures
            reg is Ok,
            reg.unwrap()@ == insert(self@ as u64, 0, 16, value as u64),
    {
        Ok(self.with_fsksfd(value))
    }

    /// Sets `fsksfd` to `value`.
    pub fn set_fsksfd(&mut self, value: u16)
        ensures
            final(self)@ == insert(old(self)@ as u64, 0, 16, value as u64),
            extract(final(self)@ as u64, 0, 16) == value,
    {
        proof {
            lemma_low_mask_values();
        }
        self.0 = insert_u16(self.0, 0, 16, value);
    }

    /// Sets `fsksfd` to `value`. Every value fits the field, so the result is
    /// always `Ok`.
    pub fn set_fsksfd_checked(&mut self, value: u16) -> (done: Result<(), ()>)
        ensures
            done is Ok,
            final(self)@ == insert(old(self)@ as u64, 0, 16, value as u64),
    {
        self.set_fsksfd(value);
        Ok(())
    }
}

impl Default for BbcnFsksfd {
    fn default() -> (reg: Self)
        ensures
            reg@ == 0,
    {
        Self::new()
    }
}

impl From<u16> for BbcnFsksfd {
    fn from(v: u16) -> (reg: Self) {
        Self(v)
    }
}

impl FromSpecImpl<u16> for BbcnFsksfd {
    open spec fn obeys_from_spec() -> bool {
        true
    }

    open spec fn from_spec(v: u16) -> Self {
        BbcnFsksfd(v)
    }
}

impl From<BbcnFsksfd> for u16 {
    fn from(v: BbcnFsksfd) -> (bits: u16) {
        v.0
    }
}

impl FromSpecImpl<BbcnFsksfd> for u16 {
    open spec fn obeys_from_spec() -> bool {
        true
    }

    open spec fn from_spec(v: BbcnFsksfd) -> u16 {
        v.0
    }
}

/// BBCn_FSKPHRTX - FSK PHR Transmit
///
/// FSK PHY header transmit configuration.
#[derive(Debug, Clone, Copy, PartialEq, Eq)]
pub struct BbcnFskphrtx(pub u8);

impl View for BbcnFskphrtx {
    type V = u8;

    open spec fn view(&self) -> u8 {
        self.0
    }
}

impl BbcnFskphrtx {
    /// The register with every field at its reset value.
    pub fn new() -> (reg: Self)
        ensures
            reg@ == 0,
    {
        Self(0)
    }

    /// The register that holds `bits`.
    pub fn from_bits(bits: u8) -> (reg: Self)
        ensures
            reg@ == bits,
    {
        Self(bits)
    }

    /// The bits that the register holds.
    pub fn into_bits(self) -> (bits: u8)
        ensures
            bits == self@,
    {
        self.0
    }

    /// Reserved Bit 1
    ///
    /// Bits: 0..1
    pub fn rb1(&self) -> (value: bool)
        ensures
            value == (extract(self@ as u64, 0, 1) != 0),
    {
        extract_u8(self.0, 0, 1) != 0
    }

    /// Returns the register with `rb1` set to `value`.
    pub fn with_rb1(self, value: bool) -> (reg: Self)
        ensures
            reg@ == insert(self@ as u64, 0, 1, value as u64),
            (extract(reg@ as u64, 0, 1) != 0) == value,
    {
        proof {
            lemma_low_mask_values();
        }
        Self(insert_u8(self.0, 0, 1, value as u8))
    }

    /// Returns the register with `rb1` set to `value`. Every value fits the
    /// field, so the result is always `Ok`.
    pub fn with_rb1_checked(self, value: bool) -> (reg: Result<Self, ()>)
        ensures
            reg is Ok,
            reg.unwrap()@ == insert(self@ as u64, 0, 1, value as u64),
    {
        Ok(self.with_rb1(value))
    }

    /// Sets `rb1` to `value`.
    pub fn set_rb1(&mut self, value: bool)
        ensures
            final(self)@ == insert(old(self)@ as u64, 0, 1, value as u64),
            (extract(final(self)@ as u64, 0, 1) != 0) == value,
    {
        proof {
            lemma_low_mask_values();
        }
        self.0 = insert_u8(self.0, 0, 1, value as u8);
    }

    /// Sets `rb1` to `value`. Every value fits the field, so the result is
    /// always `Ok`.
    pub fn set_rb1_checked(&mut self, value: bool) -> (done: Result<(), ()>)
        ensures
            done is Ok,
            final(self)@ == insert(old(self)@ as u64, 0, 1, value as u64),
    {
        self.set_rb1(value);
        Ok(())
    }

    /// Reserved Bit 2
    ///
    /// Bits: 1..2
    pub fn rb2(&self) -> (value: bool)
        ensures
            value == (extract(self@ as u64, 1, 1) != 0),
    {
        extract_u8(self.0, 1, 1) != 0
    }

    /// Returns the register with `rb2` set to `value`.
    pub fn with_rb2(self, value: bool) -> (reg: Self)
        ensures
            reg@ == insert(self@ as u64, 1, 1, value as u64),
            (extract(reg@ as u64, 1, 1) != 0) == value,
    {
        proof {
            lemma_low_mask_values();
        }
        Self(insert_u8(self.0, 1, 1, value as u8))
    }

    /// Returns the register with `rb2` set to `value`. Every value fits the
    /// field, so the result is always `Ok`.
    pub fn with_rb2_checked(self, value: bool) -> (reg: Result<Self, ()>)
        ensures
            reg is Ok,
            reg.unwrap()@ == insert(self@ as u64, 1, 1, value as u64),
    {
        Ok(self.with_rb2(value))
    }

    /// Sets `rb2` to `value`.
    pub fn set_rb2(&mut self, value: bool)
        ensures
            final(self)@ == insert(old(self)@ as u64, 1, 1, value as u64),
            (extract(final(self)@ as u64, 1, 1) != 0) == value,
    {
        proof {
            lemma_low_mask_values();
        }
        self.0 = insert_u8(self.0, 1, 1, value as u8);
    }

    /// Sets `rb2` to `value`. Every value fits the field, so the result is
    /// always `Ok`.
    pub fn set_rb2_checked(&mut self, value: bool) -> (done: Result<(), ()>)
        ensures
            done is Ok,
            final(self)@ == insert(old(self)@ as u64, 1, 1, value as u64),
    {
        self.set_rb2(value);
        Ok(())
    }

    /// Data Whitening
    ///
    /// Bits: 2..3
    pub fn dw(&self) -> (value: bool)
        ensures
            value == (extract(self@ as u64, 2, 1) != 0),
    {
        extract_u8(self.0, 2, 1) != 0
    }

    /// Returns the register with `dw` set to `value`.
    pub fn with_dw(self, value: bool) -> (reg: Self)
        ensures
            reg@ == insert(self@ as u64, 2, 1, value as u64),
            (extract(reg@ as u64, 2, 1) != 0) == value,
    {
        proof {
            lemma_low_mask_values();
        }
        Self(insert_u8(self.0, 2, 1, value as u8))
    }

    /// Returns the register with `dw` set to `value`. Every value fits the
    /// field, so the result is always `Ok`.
    pub fn with_dw_checked(self, value: bool) -> (reg: Result<Self, ()>)
        ensures
            reg is Ok,
            reg.unwrap()@ == insert(self@ as u64, 2, 1, value as u64),
    {
        Ok(self.with_dw(value))
    }

    /// Sets `dw` to `value`.
    pub fn set_dw(&mut self, value: bool)
        ensures
            final(self)@ == insert(old(self)@ as u64, 2, 1, value as u64),
            (extract(final(self)@ as u64, 2, 1) != 0) == value,
    {
        proof {
            lemma_low_mask_values();
        }
        self.0 = insert_u8(self.0, 2, 1, value as u8);
    }

    /// Sets `dw` to `value`. Every value fits the field, so the result is
    /// always `Ok`.
    pub fn set_dw_checked(&mut self, value: bool) -> (done: Result<(), ()>)
        ensures
            done is Ok,
            final(self)@ == insert(old(self)@ as u64, 2, 1, value as u64),
    {
        self.set_dw(value);
        Ok(())
    }

    /// SFD Identifier
    ///
    /// Bits: 3..4
    pub fn sfd(&self) -> (value: bool)
        ensures
            value == (extract(self@ as u64, 3, 1) != 0),
    {
        extract_u8(self.0, 3, 1) != 0
    }

    /// Returns the register with `sfd` set to `value`.
    pub fn with_sfd(self, value: bool) -> (reg: Self)
        ensures
            reg@ == insert(self@ as u64, 3, 1, value as u64),
            (extract(reg@ as u64, 3, 1) != 0) == value,
    {
        proof {
            lemma_low_mask_values();
        }
        Self(insert_u8(self.0, 3, 1, value as u8))
    }

    /// Returns the register with `sfd` set to `value`. Every value fits the
    /// field, so the result is always `Ok`.
    pub fn with_sfd_checked(self, value: bool) -> (reg: Result<Self, ()>)
        ensures
            reg is Ok,
            reg.unwrap()@ == insert(self@ as u64, 3, 1, value as u64),
    {
        Ok(self.with_sfd(value))
    }

    /// Sets `sfd` to `value`.
    pub fn set_sfd(&mut self, value: bool)
        ensures
            final(self)@ == insert(old(self)@ as u64, 3, 1, value as u64),
            (extract(final(self)@ as u64, 3, 1) != 0) == value,
    {
        proof {
            lemma_low_mask_values();
        }
        self.0 = insert_u8(self.0, 3, 1, value as u8);
    }

    /// Sets `sfd` to `value`. Every value fits the field, so the result is
    /// always `Ok`.
    pub fn set_sfd_checked(&mut self, value: bool) -> (done: Result<(), ()>)
        ensures
            done is Ok,
            final(self)@ == insert(old(self)@ as u64, 3, 1, value as u64),
    {
        self.set_sfd(value);
        Ok(())
    }
}

impl Default for BbcnFskphrtx {
    fn default() -> (reg: Self)
        ensures
            reg@ == 0,
    {
        Self::new()
    }
}

impl From<u8> for BbcnFskphrtx {
    fn from(v: u8) -> (reg: Self) {
        Self(v)
    }
}

impl FromSpecImpl<u8> for BbcnFskphrtx {
    open spec fn obeys_from_spec() -> bool {
        true
    }

    open spec fn from_spec(v: u8) -> Self {
        BbcnFskphrtx(v)
    }
}

impl From<BbcnFskphrtx> for u8 {
    fn from(v: BbcnFskphrtx) -> (bits: u8) {
        v.0
    }
}

impl FromSpecImpl<BbcnFskphrtx> for u8 {
    open spec fn obeys_from_spec() -> bool {
        true
    }

    open spec fn from_spec(v: BbcnFskphrtx) -> u8 {
        v.0
    }
}

/// BBCn_FSKPHRRX - FSK PHR Receive (Read Only)
///
/// FSK PHY header received.
#[derive(Debug, Clone, Copy, PartialEq, Eq)]
pub struct BbcnFskphrrx(pub u8);

impl View for BbcnFskphrrx {
    type V = u8;

    open spec fn view(&self) -> u8 {
        self.0
    }
}

impl BbcnFskphrrx {
    /// The register with every field at its reset value.
    pub fn new() -> (reg: Self)
        ensures
            reg@ == 0,
    {
        Self(0)
    }

    /// The register that holds `bits`.
    pub fn from_bits(bits: u8) -> (reg: Self)
        ensures
            reg@ == bits,
    {
        Self(bits)
    }

    /// The bits that the register holds.
    pub fn into_bits(self) -> (bits: u8)
        ensures
            bits == self@,
    {
        self.0
    }

    /// Reserved Bit 1 (Read Only)
    ///
    /// Bits: 0..1
    pub fn rb1(&self) -> (value: bool)
        ensures
            value == (extract(self@ as u64, 0, 1) != 0),
    {
        extract_u8(self.0, 0, 1) != 0
    }

    /// Reserved Bit 2 (Read Only)
    ///
    /// Bits: 1..2
    pub fn rb2(&self) -> (value: bool)
        ensures
            value == (extract(self@ as u64, 1, 1) != 0),
    {
        extract_u8(self.0, 1, 1) != 0
    }

    /// Data Whitening (Read Only)
    ///
    /// Bits: 2..3
    pub fn dw(&self) -> (value: bool)
        ensures
            value == (extract(self@ as u64, 2, 1) != 0),
    {
        extract_u8(self.0, 2, 1) != 0
    }

    /// SFD Identifier (Read Only)
    ///
    /// Bits: 3..4
    pub fn sfd(&self) -> (value: bool)
        ensures
            value == (extract(self@ as u64, 3, 1) != 0),
    {
        extract_u8(self.0, 3, 1) != 0
    }

    /// Mode Switch (Read Only)
    ///
    /// Bits: 6..7
    pub fn ms(&self) -> (value: bool)
        ensures
            value == (extract(self@ as u64, 6, 1) != 0),
    {
        extract_u8(self.0, 6, 1) != 0
    }

    /// FCS Type (Read Only)
    ///
    /// Bits: 7..8
    pub fn fcst(&self) -> (value: bool)
        ensures
            value == (extract(self@ as u64, 7, 1) != 0),
    {
        extract_u8(self.0, 7, 1) != 0
    }
}

impl Default for BbcnFskphrrx {
    fn default() -> (reg: Self)
        ensures
            reg@ == 0,
    {
        Self::new()
    }
}

impl From<u8> for BbcnFskphrrx {
    fn from(v: u8) -> (reg: Self) {
        Self(v)
    }
}

impl FromSpecImpl<u8> for BbcnFskphrrx {
    open spec fn obeys_from_spec() -> bool {
        true
    }

    open spec fn from_spec(v: u8) -> Self {
        BbcnFskphrrx(v)
    }
}

impl From<BbcnFskphrrx> for u8 {
    fn from(v: BbcnFskphrrx) -> (bits: u8) {
        v.0
    }
}

impl FromSpecImpl<BbcnFskphrrx> for u8 {
    open spec fn obeys_from_spec() -> bool {
        true
    }

    open spec fn from_spec(v: BbcnFskphrrx) -> u8 {
        v.0
    }
}

/// BBCn_FSKRPC - FSK Raw Pattern Configuration
///
/// Raw pattern transmit mode configuration.
#[derive(Debug, Clone, Copy, PartialEq, Eq)]
pub struct BbcnFskrpc(pub u8);

impl View for BbcnFskrpc {
    type V = u8;

    open spec fn view(&self) -> u8 {
        self.0
    }
}

impl BbcnFskrpc {
    /// The register with every field at its reset value.
    pub fn new() -> (reg: Self)
        ensures
            reg@ == 0,
    {
        Self(0)
    }

    /// The register that holds `bits`.
    pub fn from_bits(bits: u8) -> (reg: Self)
        ensures
            reg@ == bits,
    {
        Self(bits)
    }

    /// The bits that the register holds.
    pub fn into_bits(self) -> (bits: u8)
        ensures
            bits == self@,
    {
        self.0
    }

    /// Base Time
    ///
    /// Bits: 0..4
    pub fn baset(&self) -> (value: u8)
        ensures
            value == extract(self@ as u64, 0, 4),
    {
        extract_u8(self.0, 0, 4)
    }

    /// Returns the register with `baset` set to `value`.
    pub fn with_baset(self, value: u8) -> (reg: Self)
        requires
            value <= 0xF,
        ensures
            reg@ == insert(self@ as u64, 0, 4, value as u64),
            extract(reg@ as u64, 0, 4) == value,
    {
        proof {
            lemma_low_mask_values();
        }
        Self(insert_u8(self.0, 0, 4, value))
    }

    /// Returns the register with `baset` set to `value`, or `Err` where `value`
    /// exceeds `0xF`.
    pub fn with_baset_checked(self, value: u8) -> (reg: Result<Self, ()>)
        ensures
            value <= 0xF ==> reg is Ok && reg.unwrap()@ == insert(self@ as u64, 0, 4, value as u64),
            value > 0xF ==> reg is Err,
    {
        if value > 0xF {
            return Err(());
        }
        Ok(self.with_baset(value))
    }

    /// Sets `baset` to `value`.
    pub fn set_baset(&mut self, value: u8)
        requires
            value <= 0xF,
        ensures
            final(self)@ == insert(old(self)@ as u64, 0, 4, value as u64),
            extract(final(self)@ as u64, 0, 4) == value,
    {
        proof {
            lemma_low_mask_values();
        }
        self.0 = insert_u8(self.0, 0, 4, value);
    }

    /// Sets `baset` to `value`, or returns `Err` and leaves the register as it
    /// is where `value` exceeds `0xF`.
    pub fn set_baset_checked(&mut self, value: u8) -> (done: Result<(), ()>)
        ensures
            value <= 0xF ==> done is Ok && final(self)@ == insert(
                old(self)@ as u64,
                0,
                4,
                value as u64,
            ),
            value > 0xF ==> done is Err && final(self)@ == old(self)@,
    {
        if value > 0xF {
            return Err(());
        }
        self.set_baset(value);
        Ok(())
    }

    /// Enable
    ///
    /// Bits: 4..5
    pub fn en(&self) -> (value: bool)
        ensures
            value == (extract(self@ as u64, 4, 1) != 0),
    {
        extract_u8(self.0, 4, 1) != 0
    }

    /// Returns the register with `en` set to `value`.
    pub fn with_en(self, value: bool) -> (reg: Self)
        ensures
            reg@ == insert(self@ as u64, 4, 1, value as u64),
            (extract(reg@ as u64, 4, 1) != 0) == value,
    {
        proof {
            lemma_low_mask_values();
        }
        Self(insert_u8(self.0, 4, 1, value as u8))
    }

    /// Returns the register with `en` set to `value`. Every value fits the
    /// field, so the result is always `Ok`.
    pub fn with_en_checked(self, value: bool) -> (reg: Result<Self, ()>)
        ensures
            reg is Ok,
            reg.unwrap()@ == insert(self@ as u64, 4, 1, value as u64),
    {
        Ok(self.with_en(value))
    }

    /// Sets `en` to `value`.
    pub fn set_en(&mut self, value: bool)
        ensures
            final(self)@ == insert(old(self)@ as u64, 4, 1, value as u64),
            (extract(final(self)@ as u64, 4, 1) != 0) == value,
    {
        proof {
            lemma_low_mask_values();
        }
        self.0 = insert_u8(self.0, 4, 1, value as u8);
    }

    /// Sets `en` to `value`. Every value fits the field, so the result is
    /// always `Ok`.
    pub fn set_en_checked(&mut self, value: bool) -> (done: Result<(), ()>)
        ensures
            done is Ok,
            final(self)@ == insert(old(self)@ as u64, 4, 1, value as u64),
    {
        self.set_en(value);
        Ok(())
    }
}

impl Default for BbcnFskrpc {
    fn default() -> (reg: Self)
        ensures
            reg@ == 0,
    {
        Self::new()
    }
}

impl From<u8> for BbcnFskrpc {
    fn from(v: u8) -> (reg: Self) {
        Self(v)
    }
}

impl FromSpecImpl<u8> for BbcnFskrpc {
    open spec fn obeys_from_spec() -> bool {
        true
    }

    open spec fn from_spec(v: u8) -> Self {
        BbcnFskrpc(v)
    }
}

impl From<BbcnFskrpc> for u8 {
    fn from(v: BbcnFskrpc) -> (bits: u8) {
        v.0
    }
}

impl FromSpecImpl<BbcnFskrpc> for u8 {
    open spec fn obeys_from_spec() -> bool {
        true
    }

    open spec fn from_spec(v: BbcnFskrpc) -> u8 {
        v.0
    }
}

/// BBCn_FSKRPCONT - FSK Raw Pattern Continuous
///
/// Continuous raw pattern value.
#[derive(Debug, Clone, Copy, PartialEq, Eq)]
pub struct BbcnFskrpcont(pub u8);

impl View for BbcnFskrpcont {
    type V = u8;

    open spec fn view(&self) -> u8 {
        self.0
    }
}

impl BbcnFskrpcont {
    /// The register with every field at its reset value.
    pub fn new() -> (reg: Self)
        ensures
            reg@ == 0,
    {
        Self(0)
    }

    /// The register that holds `bits`.
    pub fn from_bits(bits: u8) -> (reg: Self)
        ensures
            reg@ == bits,
    {
        Self(bits)
    }

    /// The bits that the register holds.
    pub fn into_bits(self) -> (bits: u8)
        ensures
            bits == self@,
    {
        self.0
    }

    /// Bits: 0..8
    pub fn fskrpcont(&self) -> (value: u8)
        ensures
            value == extract(self@ as u64, 0, 8),
    {
        extract_u8(self.0, 0, 8)
    }

    /// Returns the register with `fskrpcont` set to `value`.
    pub fn with_fskrpcont(self, value: u8) -> (reg: Self)
        ensures
            reg@ == insert(self@ as u64, 0, 8, value as u64),
            extract(reg@ as u64, 0, 8) == value,
    {
        proof {
            lemma_low_mask_values();
        }
        Self(insert_u8(self.0, 0, 8, value))
    }

    /// Returns the register with `fskrpcont` set to `value`. Every value fits the
    /// field, so the result is always `Ok`.
    pub fn with_fskrpcont_checked(self, value: u8) -> (reg: Result<Self, ()>)
        ensures
            reg is Ok,
            reg.unwrap()@ == insert(self@ as u64, 0, 8, value as u64),
    {
        Ok(self.with_fskrpcont(value))
    }

    /// Sets `fskrpcont` to `value`.
    pub fn set_fskrpcont(&mut self, value: u8)
        ensures
            final(self)@ == insert(old(self)@ as u64, 0, 8, value as u64),
            extract(final(self)@ as u64, 0, 8) == value,
    {
        proof {
            lemma_low_mask_values();
        }
        self.0 = insert_u8(self.0, 0, 8, value);
    }

    /// Sets `fskrpcont` to `value`. Every value fits the field, so the result is
    /// always `Ok`.
    pub fn set_fskrpcont_checked(&mut self, value: u8) -> (done: Result<(), ()>)
        ensures
            done is Ok,
            final(self)@ == insert(old(self)@ as u64, 0, 8, value as u64),
    {
        self.set_fskrpcont(value);
        Ok(())
    }
}

impl Default for BbcnFskrpcont {
    fn default() -> (reg: Self)
        ensures
            reg@ == 0,
    {
        Self::new()
    }
}

impl From<u8> for BbcnFskrpcont {
    fn from(v: u8) -> (reg: Self) {
        Self(v)
    }
}

impl FromSpecImpl<u8> for BbcnFskrpcont {
    open spec fn obeys_from_spec() -> bool {
        true
    }

    open spec fn from_spec(v: u8) -> Self {
        BbcnFskrpcont(v)
    }
}

impl From<BbcnFskrpcont> for u8 {
    fn from(v: BbcnFskrpcont) -> (bits: u8) {
        v.0
    }
}

impl FromSpecImpl<BbcnFskrpcont> for u8 {
    open spec fn obeys_from_spec() -> bool {
        true
    }

    open spec fn from_spec(v: BbcnFskrpcont) -> u8 {
        v.0
    }
}

/// BBCn_FSKRPCOFFT - FSK Raw Pattern Offset
///
/// Raw pattern offset.
#[derive(Debug, Clone, Copy, PartialEq, Eq)]
pub struct BbcnFskrpcofft(pub u8);

impl View for BbcnFskrpcofft {
    type V = u8;

    open spec fn view(&self) -> u8 {
        self.0
    }
}

impl BbcnFskrpcofft {
    /// The register with every field at its reset value.
    pub fn new() -> (reg: Self)
        ensures
            reg@ == 0,
    {
        Self(0)
    }

    /// The register that holds `bits`.
    pub fn from_bits(bits: u8) -> (reg: Self)
        ensures
            reg@ == bits,
    {
        Self(bits)
    }

    /// The bits that the register holds.
    pub fn into_bits(self) -> (bits: u8)
        ensures
            bits == self@,
    {
        self.0
    }

    /// Bits: 0..8
    pub fn fskrpcofft(&self) -> (value: u8)
        ensures
            value == extract(self@ as u64, 0, 8),
    {
        extract_u8(self.0, 0, 8)
    }

    /// Returns the register with `fskrpcofft` set to `value`.
    pub fn with_fskrpcofft(self, value: u8) -> (reg: Self)
        ensures
            reg@ == insert(self@ as u64, 0, 8, value as u64),
            extract(reg@ as u64, 0, 8) == value,
    {
        proof {
            lemma_low_mask_values();
        }
        Self(insert_u8(self.0, 0, 8, value))
    }

    /// Returns the register with `fskrpcofft` set to `value`. Every value fits the
    /// field, so the result is always `Ok`.
    pub fn with_fskrpcofft_checked(self, value: u8) -> (reg: Result<Self, ()>)
        ensures
            reg is Ok,
            reg.unwrap()@ == insert(self@ as u64, 0, 8, value as u64),
    {
        Ok(self.with_fskrpcofft(value))
    }

    /// Sets `fskrpcofft` to `value`.
    pub fn set_fskrpcofft(&mut self, value: u8)
        ensures
            final(self)@ == insert(old(self)@ as u64, 0, 8, value as u64),
            extract(final(self)@ as u64, 0, 8) == value,
    {
        proof {
            lemma_low_mask_values();
        }
        self.0 = insert_u8(self.0, 0, 8, value);
    }

    /// Sets `fskrpcofft` to `value`. Every value fits the field, so the result is
    /// always `Ok`.
    pub fn set_fskrpcofft_checked(&mut self, value: u8) -> (done: Result<(), ()>)
        ensures
            done is Ok,
            final(self)@ == insert(old(self)@ as u64, 0, 8, value as u64),
    {
        self.set_fskrpcofft(value);
        Ok(())
    }
}

impl Default for BbcnFskrpcofft {
    fn default() -> (reg: Self)
        ensures
            reg@ == 0,
    {
        Self::new()
    }
}

impl From<u8> for BbcnFskrpcofft {
    fn from(v: u8) -> (reg: Self) {
        Self(v)
    }
}

impl FromSpecImpl<u8> for BbcnFskrpcofft {
    open spec fn obeys_from_spec() -> bool {
        true
    }

    open spec fn from_spec(v: u8) -> Self {
        BbcnFskrpcofft(v)
    }
}

impl From<BbcnFskrpcofft> for u8 {
    fn from(v: BbcnFskrpcofft) -> (bits: u8) {
        v.0
    }
}

impl FromSpecImpl<BbcnFskrpcofft> for u8 {
    open spec fn obeys_from_spec() -> bool {
        true
    }

    open spec fn from_spec(v: BbcnFskrpcofft) -> u8 {
        v.0
    }
}

/// BBCn_FSKRRXFL - FSK Raw RX Frame Length (Read Only)
///
/// 11-bit raw mode RX frame length.
#[derive(Debug, Clone, Copy, PartialEq, Eq)]
pub struct BbcnFskrrxfl(pub u16);

impl View for BbcnFskrrxfl {
    type V = u16;

    open spec fn view(&self) -> u16 {
        self.0
    }
}

impl BbcnFskrrxfl {
    /// The register with every field at its reset value.
    pub fn new() -> (reg: Self)
        ensures
            reg@ == 0,
    {
        Self(0)
    }

    /// The register that holds `bits`.
    pub fn from_bits(bits: u16) -> (reg: Self)
        ensures
            reg@ == bits,
    {
        Self(bits)
    }

    /// The bits that the register holds.
    pub fn into_bits(self) -> (bits: u16)
        ensures
            bits == self@,
    {
        self.0
    }

    /// FSK Raw RX Frame Length (11-bit)
    ///
    /// Bits: 0..11
    pub fn fskrrxfl(&self) -> (value: u16)
        ensures
            value == extract(self@ as u64, 0, 11),
    {
        extract_u16(self.0, 0, 11)
    }
}

impl Default for BbcnFskrrxfl {
    fn default() -> (reg: Self)
        ensures
            reg@ == 0,
    {
        Self::new()
    }
}

impl From<u16> for BbcnFskrrxfl {
    fn from(v: u16) -> (reg: Self) {
        Self(v)
    }
}

impl FromSpecImpl<u16> for BbcnFskrrxfl {
    open spec fn obeys_from_spec() -> bool {
        true
    }

    open spec fn from_spec(v: u16) -> Self {
        BbcnFskrrxfl(v)
    }
}

impl From<BbcnFskrrxfl> for u16 {
    fn from(v: BbcnFskrrxfl) -> (bits: u16) {
        v.0
    }
}

impl FromSpecImpl<BbcnFskrrxfl> for u16 {
    open spec fn obeys_from_spec() -> bool {
        true
    }

    open spec fn from_spec(v: BbcnFskrrxfl) -> u16 {
        v.0
    }
}

/// BBCn_FSKDM - FSK Direct Modulation
///
/// Direct modulation configuration.
#[derive(Debug, Clone, Copy, PartialEq, Eq)]
pub struct BbcnFskdm(pub u8);

impl View for BbcnFskdm {
    type V = u8;

    open spec fn view(&self) -> u8 {
        self.0
    }
}

impl BbcnFskdm {
    /// The register with every field at its reset value.
    pub fn new() -> (reg: Self)
        ensures
            reg@ == 0,
    {
        Self(0)
    }

    /// The register that holds `bits`.
    pub fn from_bits(bits: u8) -> (reg: Self)
        ensures
            reg@ == bits,
    {
        Self(bits)
    }

    /// The bits that the register holds.
    pub fn into_bits(self) -> (bits: u8)
        ensures
            bits == self@,
    {
        self.0
    }

    /// Enable Direct Modulation
    ///
    /// Bits: 0..1
    pub fn en(&self) -> (value: bool)
        ensures
            value == (extract(self@ as u64, 0, 1) != 0),
    {
        extract_u8(self.0, 0, 1) != 0
    }

    /// Returns the register with `en` set to `value`.
    pub fn with_en(self, value: bool) -> (reg: Self)
        ensures
            reg@ == insert(self@ as u64, 0, 1, value as u64),
            (extract(reg@ as u64, 0, 1) != 0) == value,
    {
        proof {
            lemma_low_mask_values();
        }
        Self(insert_u8(self.0, 0, 1, value as u8))
    }

    /// Returns the register with `en` set to `value`. Every value fits the
    /// field, so the result is always `Ok`.
    pub fn with_en_checked(self, value: bool) -> (reg: Result<Self, ()>)
        ensures
            reg is Ok,
            reg.unwrap()@ == insert(self@ as u64, 0, 1, value as u64),
    {
        Ok(self.with_en(value))
    }

    /// Sets `en` to `value`.
    pub fn set_en(&mut self, value: bool)
        ensures
            final(self)@ == insert(old(self)@ as u64, 0, 1, value as u64),
            (extract(final(self)@ as u64, 0, 1) != 0) == value,
    {
        proof {
            lemma_low_mask_values();
        }
        self.0 = insert_u8(self.0, 0, 1, value as u8);
    }

    /// Sets `en` to `value`. Every value fits the field, so the result is
    /// always `Ok`.
    pub fn set_en_checked(&mut self, value: bool) -> (done: Result<(), ()>)
        ensures
            done is Ok,
            final(self)@ == insert(old(self)@ as u64, 0, 1, value as u64),
    {
        self.set_en(value);
        Ok(())
    }

    /// Preamble Extension
    ///
    /// Bits: 1..2
    pub fn pe(&self) -> (value: bool)
        ensures
            value == (extract(self@ as u64, 1, 1) != 0),
    {
        extract_u8(self.0, 1, 1) != 0
    }

    /// Returns the register with `pe` set to `value`.
    pub fn with_pe(self, value: bool) -> (reg: Self)
        ensures
            reg@ == insert(self@ as u64, 1, 1, value as u64),
            (extract(reg@ as u64, 1, 1) != 0) == value,
    {
        proof {
            lemma_low_mask_values();
        }
        Self(insert_u8(self.0, 1, 1, value as u8))
    }

    /// Returns the register with `pe` set to `value`. Every value fits the
    /// field, so the result is always `Ok`.
    pub fn with_pe_checked(self, value: bool) -> (reg: Result<Self, ()>)
        ensures
            reg is Ok,
            reg.unwrap()@ == insert(self@ as u64, 1, 1, value as u64),
    {
        Ok(self.with_pe(value))
    }

    /// Sets `pe` to `value`.
    pub fn set_pe(&mut self, value: bool)
        ensures
            final(self)@ == insert(old(self)@ as u64, 1, 1, value as u64),
            (extract(final(self)@ as u64, 1, 1) != 0) == value,
    {
        proof {
            lemma_low_mask_values();
        }
        self.0 = insert_u8(self.0, 1, 1, value as u8);
    }

    /// Sets `pe` to `value`. Every value fits the field, so the result is
    /// always `Ok`.
    pub fn set_pe_checked(&mut self, value: bool) -> (done: Result<(), ()>)
        ensures
            done is Ok,
            final(self)@ == insert(old(self)@ as u64, 1, 1, value as u64),
    {
        self.set_pe(value);
        Ok(())
    }
}

impl Default for BbcnFskdm {
    fn default() -> (reg: Self)
        ensures
            reg@ == 0,
    {
        Self::new()
    }
}

impl From<u8> for BbcnFskdm {
    fn from(v: u8) -> (reg: Self) {
        Self(v)
    }
}

impl FromSpecImpl<u8> for BbcnFskdm {
    open spec fn obeys_from_spec() -> bool {
        true
    }

    open spec fn from_spec(v: u8) -> Self {
        BbcnFskdm(v)
    }
}

impl From<BbcnFskdm> for u8 {
    fn from(v: BbcnFskdm) -> (bits: u8) {
        v.0
    }
}

impl FromSpecImpl<BbcnFskdm> for u8 {
    open spec fn obeys_from_spec() -> bool {
        true
    }

    open spec fn from_spec(v: BbcnFskdm) -> u8 {
        v.0
    }
}

/// BBCn_FSKPEn - FSK Preamble Extension n
///
/// Preamble extension pattern bytes.
#[derive(Debug, Clone, Copy, PartialEq, Eq)]
pub struct BbcnFskpe(pub u8);

impl View for BbcnFskpe {
    type V = u8;

    open spec fn view(&self) -> u8 {
        self.0
    }
}

impl BbcnFskpe {
    /// The register with every field at its reset value.
    pub fn new() -> (reg: Self)
        ensures
            reg@ == 0,
    {
        Self(0)
    }

    /// The register that holds `bits`.
    pub fn from_bits(bits: u8) -> (reg: Self)
        ensures
            reg@ == bits,
    {
        Self(bits)
    }

    /// The bits that the register holds.
    pub fn into_bits(self) -> (bits: u8)
        ensures
            bits == self@,
    {
        self.0
    }

    /// Bits: 0..8
    pub fn fskpe(&self) -> (value: u8)
        ensures
            value == extract(self@ as u64, 0, 8),
    {
        extract_u8(self.0, 0, 8)
    }

    /// Returns the register with `fskpe` set to `value`.
    pub fn with_fskpe(self, value: u8) -> (reg: Self)
        ensures
            reg@ == insert(self@ as u64, 0, 8, value as u64),
            extract(reg@ as u64, 0, 8) == value,
    {
        proof {
            lemma_low_mask_values();
        }
        Self(insert_u8(self.0, 0, 8, value))
    }

    /// Returns the register with `fskpe` set to `value`. Every value fits the
    /// field, so the result is always `Ok`.
    pub fn with_fskpe_checked(self, value: u8) -> (reg: Result<Self, ()>)
        ensures
            reg is Ok,
            reg.unwrap()@ == insert(self@ as u64, 0, 8, value as u64),
    {
        Ok(self.with_fskpe(value))
    }

    /// Sets `fskpe` to `value`.
    pub fn set_fskpe(&mut self, value: u8)
        ensures
            final(self)@ == insert(old(self)@ as u64, 0, 8, value as u64),
            extract(final(self)@ as u64, 0, 8) == value,
    {
        proof {
            lemma_low_mask_values();
        }
        self.0 = insert_u8(self.0, 0, 8, value);
    }

    /// Sets `fskpe` to `value`. Every value fits the field, so the result is
    /// always `Ok`.
    pub fn set_fskpe_checked(&mut self, value: u8) -> (done: Result<(), ()>)
        ensures
            done is Ok,
            final(self)@ == insert(old(self)@ as u64, 0, 8, value as u64),
    {
        self.set_fskpe(value);
        Ok(())
    }
}

impl Default for BbcnFskpe {
    fn default() -> (reg: Self)
        ensures
            reg@ == 0,
    {
        Self::new()
    }
}

impl From<u8> for BbcnFskpe {
    fn from(v: u8) -> (reg: Self) {
        Self(v)
    }
}

impl FromSpecImpl<u8> for BbcnFskpe {
    open spec fn obeys_from_spec() -> bool {
        true
    }

    open spec fn from_spec(v: u8) -> Self {
        BbcnFskpe(v)
    }
}

impl From<BbcnFskpe> for u8 {
    fn from(v: BbcnFskpe) -> (bits: u8) {
        v.0
    }
}

impl FromSpecImpl<BbcnFskpe> for u8 {
    open spec fn obeys_from_spec() -> bool {
        true
    }

    open spec fn from_spec(v: BbcnFskpe) -> u8 {
        v.0
    }
}

} // verus!
