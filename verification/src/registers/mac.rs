//! Frame filter and automatic mode registers of the baseband core.

use vstd::prelude::*;
use vstd::std_specs::convert::FromSpecImpl;
use crate::bits::{
    extract, extract_u8, extract_u16, extract_u64, insert, insert_u8, insert_u16, insert_u64,
    lemma_low_mask_values,
};

verus! {

/// BBCn_AFC0 - Automatic Frame Filtering Configuration 0
///
/// Frame filtering enable bits.
#[derive(Debug, Clone, Copy, PartialEq, Eq)]
pub struct BbcnAfc0(pub u8);

impl View for BbcnAfc0 {
    type V = u8;

    open spec fn view(&self) -> u8 {
        self.0
    }
}

impl BbcnAfc0 {
    /// The register with every field at its reset value.
    pub fn new() -> (reg: Self)
        ensures
            reg@ == 0,
    {
        Self(0)
    }

    /// The register that holds `bits`.
    pub fn from_bits(bits: u8) -> (reg: Self)
        ensures
            reg@ == bits,
    {
        Self(bits)
    }

    /// The bits that the register holds.
    pub fn into_bits(self) -> (bits: u8)
        ensures
            bits == self@,
    {
        self.0
    }

    /// Address Filter Enable 0
    ///
    /// Bits: 0..1
    pub fn afen0(&self) -> (value: bool)
        ensures
            value == (extract(self@ as u64, 0, 1) != 0),
    {
        extract_u8(self.0, 0, 1) != 0
    }

    /// Returns the register with `afen0` set to `value`.
    pub fn with_afen0(self, value: bool) -> (reg: Self)
        ensures
            reg@ == insert(self@ as u64, 0, 1, value as u64),
            (extract(reg@ as u64, 0, 1) != 0) == value,
    {
        proof {
            lemma_low_mask_values();
        }
        Self(insert_u8(self.0, 0, 1, value as u8))
    }

    /// Returns the register with `afen0` set to `value`. Every value fits the
    /// field, so the result is always `Ok`.
    pub fn with_afen0_checked(self, value: bool) -> (reg: Result<Self, ()>)
        ensures
            reg is Ok,
            reg.unwrap()@ == insert(self@ as u64, 0, 1, value as u64),
    {
        Ok(self.with_afen0(value))
    }

    /// Sets `afen0` to `value`.
    pub fn set_afen0(&mut self, value: bool)
        ensures
            final(self)@ == insert(old(self)@ as u64, 0, 1, value as u64),
            (extract(final(self)@ as u64, 0, 1) != 0) == value,
    {
        proof {
            lemma_low_mask_values();
        }
        self.0 = insert_u8(self.0, 0, 1, value as u8);
    }

    /// Sets `afen0` to `value`. Every value fits the field, so the result is
    /// always `Ok`.
    pub fn set_afen0_checked(&mut self, value: bool) -> (done: Result<(), ()>)
        ensures
            done is Ok,
            final(self)@ == insert(old(self)@ as u64, 0, 1, value as u64),
    {
        self.set_afen0(value);
        Ok(())
    }

    /// Address Filter Enable 1
    ///
    /// Bits: 1..2
    pub fn afen1(&self) -> (value: bool)
        ensures
            value == (extract(self@ as u64, 1, 1) != 0),
    {
        extract_u8(self.0, 1, 1) != 0
    }

    /// Returns the register with `afen1` set to `value`.
    pub fn with_afen1(self, value: bool) -> (reg: Self)
        ensures
            reg@ == insert(self@ as u64, 1, 1, value as u64),
            (extract(reg@ as u64, 1, 1) != 0) == value,
    {
        proof {
            lemma_low_mask_values();
        }
        Self(insert_u8(self.0, 1, 1, value as u8))
    }

    /// Returns the register with `afen1` set to `value`. Every value fits the
    /// field, so the result is always `Ok`.
    pub fn with_afen1_checked(self, value: bool) -> (reg: Result<Self, ()>)
        ensures
            reg is Ok,
            reg.unwrap()@ == insert(self@ as u64, 1, 1, value as u64),
    {
        Ok(self.with_afen1(value))
    }

    /// Sets `afen1` to `value`.
    pub fn set_afen1(&mut self, value: bool)
        ensures
            final(self)@ == insert(old(self)@ as u64, 1, 1, value as u64),
            (extract(final(self)@ as u64, 1, 1) != 0) == value,
    {
        proof {
            lemma_low_mask_values();
        }
        self.0 = insert_u8(self.0, 1, 1, value as u8);
    }

    /// Sets `afen1` to `value`. Every value fits the field, so the result is
    /// always `Ok`.
    pub fn set_afen1_checked(&mut self, value: bool) -> (done: Result<(), ()>)
        ensures
            done is Ok,
            final(self)@ == insert(old(self)@ as u64, 1, 1, value as u64),
    {
        self.set_afen1(value);
        Ok(())
    }

    /// Address Filter Enable 2
    ///
    /// Bits: 2..3
    pub fn afen2(&self) -> (value: bool)
        ensures
            value == (extract(self@ as u64, 2, 1) != 0),
    {
        extract_u8(self.0, 2, 1) != 0
    }

    /// Returns the register with `afen2` set to `value`.
    pub fn with_afen2(self, value: bool) -> (reg: Self)
        ensures
            reg@ == insert(self@ as u64, 2, 1, value as u64),
            (extract(reg@ as u64, 2, 1) != 0) == value,
    {
        proof {
            lemma_low_mask_values();
        }
        Self(insert_u8(self.0, 2, 1, value as u8))
    }

    /// Returns the register with `afen2` set to `value`. Every value fits the
    /// field, so the result is always `Ok`.
    pub fn with_afen2_checked(self, value: bool) -> (reg: Result<Self, ()>)
        ensures
            reg is Ok,
            reg.unwrap()@ == insert(self@ as u64, 2, 1, value as u64),
    {
        Ok(self.with_afen2(value))
    }

    /// Sets `afen2` to `value`.
    pub fn set_afen2(&mut self, value: bool)
        ensures
            final(self)@ == insert(old(self)@ as u64, 2, 1, value as u64),
            (extract(final(self)@ as u64, 2, 1) != 0) == value,
    {
        proof {
            lemma_low_mask_values();
        }
        self.0 = insert_u8(self.0, 2, 1, value as u8);
    }

    /// Sets `afen2` to `value`. Every value fits the field, so the result is
    /// always `Ok`.
    pub fn set_afen2_checked(&mut self, value: bool) -> (done: Result<(), ()>)
        ensures
            done is Ok,
            final(self)@ == insert(old(self)@ as u64, 2, 1, value as u64),
    {
        self.set_afen2(value);
        Ok(())
    }

    /// Address Filter Enable 3
    ///
    /// Bits: 3..4
    pub fn afen3(&self) -> (value: bool)
        ensures
            value == (extract(self@ as u64, 3, 1) != 0),
    {
        extract_u8(self.0, 3, 1) != 0
    }

    /// Returns the register with `afen3` set to `value`.
    pub fn with_afen3(self, value: bool) -> (reg: Self)
        ensures
            reg@ == insert(self@ as u64, 3, 1, value as u64),
            (extract(reg@ as u64, 3, 1) != 0) == value,
    {
        proof {
            lemma_low_mask_values();
        }
        Self(insert_u8(self.0, 3, 1, value as u8))
    }

    /// Returns the register with `afen3` set to `value`. Every value fits the
    /// field, so the result is always `Ok`.
    pub fn with_afen3_checked(self, value: bool) -> (reg: Result<Self, ()>)
        ensures
            reg is Ok,
            reg.unwrap()@ == insert(self@ as u64, 3, 1, value as u64),
    {
        Ok(self.with_afen3(value))
    }

    /// Sets `afen3` to `value`.
    pub fn set_afen3(&mut self, value: bool)
        ensures
            final(self)@ == insert(old(self)@ as u64, 3, 1, value as u64),
            (extract(final(self)@ as u64, 3, 1) != 0) == value,
    {
        proof {
            lemma_low_mask_values();
        }
        self.0 = insert_u8(self.0, 3, 1, value as u8);
    }

    /// Sets `afen3` to `value`. Every value fits the field, so the result is
    /// always `Ok`.
    pub fn set_afen3_checked(&mut self, value: bool) -> (done: Result<(), ()>)
        ensures
            done is Ok,
            final(self)@ == insert(old(self)@ as u64, 3, 1, value as u64),
    {
        self.set_afen3(value);
        Ok(())
    }

    /// Promiscuous Mode
    /// - 0: Normal filtering
    /// - 1: Accept all frames
    ///
    /// Bits: 4..5
    pub fn pm(&self) -> (value: bool)
        ensures
            value == (extract(self@ as u64, 4, 1) != 0),
    {
        extract_u8(self.0, 4, 1) != 0
    }

    /// Returns the register with `pm` set to `value`.
    pub fn with_pm(self, value: bool) -> (reg: Self)
        ensures
            reg@ == insert(self@ as u64, 4, 1, value as u64),
            (extract(reg@ as u64, 4, 1) != 0) == value,
    {
        proof {
            lemma_low_mask_values();
        }
        Self(insert_u8(self.0, 4, 1, value as u8))
    }

    /// Returns the register with `pm` set to `value`. Every value fits the
    /// field, so the result is always `Ok`.
    pub fn with_pm_checked(self, value: bool) -> (reg: Result<Self, ()>)
        ensures
            reg is Ok,
            reg.unwrap()@ == insert(self@ as u64, 4, 1, value as u64),
    {
        Ok(self.with_pm(value))
    }

    /// Sets `pm` to `value`.
    pub fn set_pm(&mut self, value: bool)
        ensures
            final(self)@ == insert(old(self)@ as u64, 4, 1, value as u64),
            (extract(final(self)@ as u64, 4, 1) != 0) == value,
    {
        proof {
            lemma_low_mask_values();
        }
        self.0 = insert_u8(self.0, 4, 1, value as u8);
    }

    /// Sets `pm` to `value`. Every value fits the field, so the result is
    /// always `Ok`.
    pub fn set_pm_checked(&mut self, value: bool) -> (done: Result<(), ()>)
        ensures
            done is Ok,
            final(self)@ == insert(old(self)@ as u64, 4, 1, value as u64),
    {
        self.set_pm(value);
        Ok(())
    }
}

impl Default for BbcnAfc0 {
    fn default() -> (reg: Self)
        ensures
            reg@ == 0,
    {
        Self::new()
    }
}

impl From<u8> for BbcnAfc0 {
    fn from(v: u8) -> (reg: Self) {
        Self(v)
    }
}

impl FromSpecImpl<u8> for BbcnAfc0 {
    open spec fn obeys_from_spec() -> bool {
        true
    }

    open spec fn from_spec(v: u8) -> Self {
        BbcnAfc0(v)
    }
}

impl From<BbcnAfc0> for u8 {
    fn from(v: BbcnAfc0) -> (bits: u8) {
        v.0
    }
}

impl FromSpecImpl<BbcnAfc0> for u8 {
    open spec fn obeys_from_spec() -> bool {
        true
    }

    open spec fn from_spec(v: BbcnAfc0) -> u8 {
        v.0
    }
}

/// BBCn_AFC1 - Automatic Frame Filtering Configuration 1
///
/// PAN coordinator and MAC reserved frame type filtering.
#[derive(Debug, Clone, Copy, PartialEq, Eq)]
pub struct BbcnAfc1(pub u8);

impl View for BbcnAfc1 {
    type V = u8;

    open spec fn view(&self) -> u8 {
        self.0
    }
}

impl BbcnAfc1 {
    /// The register with every field at its reset value.
    pub fn new() -> (reg: Self)
        ensures
            reg@ == 0,
    {
        Self(0)
    }

    /// The register that holds `bits`.
    pub fn from_bits(bits: u8) -> (reg: Self)
        ensures
            reg@ == bits,
    {
        Self(bits)
    }

    /// The bits that the register holds.
    pub fn into_bits(self) -> (bits: u8)
        ensures
            bits == self@,
    {
        self.0
    }

    /// PAN Coordinator
    ///
    /// Bits: 0..4
    pub fn panc(&self) -> (value: u8)
        ensures
            value == extract(self@ as u64, 0, 4),
    {
        extract_u8(self.0, 0, 4)
    }

    /// Returns the register with `panc` set to `value`.
    pub fn with_panc(self, value: u8) -> (reg: Self)
        requires
            value <= 0xF,
        ensures
            reg@ == insert(self@ as u64, 0, 4, value as u64),
            extract(reg@ as u64, 0, 4) == value,
    {
        proof {
            lemma_low_mask_values();
        }
        Self(insert_u8(self.0, 0, 4, value))
    }

    /// Returns the register with `panc` set to `value`, or `Err` where `value`
    /// exceeds `0xF`.
    pub fn with_panc_checked(self, value: u8) -> (reg: Result<Self, ()>)
        ensures
            value <= 0xF ==> reg is Ok && reg.unwrap()@ == insert(self@ as u64, 0, 4, value as u64),
            value > 0xF ==> reg is Err,
    {
        if value > 0xF {
            return Err(());
        }
        Ok(self.with_panc(value))
    }

    /// Sets `panc` to `value`.
    pub fn set_panc(&mut self, value: u8)
        requires
            value <= 0xF,
        ensures
            final(self)@ == insert(old(self)@ as u64, 0, 4, value as u64),
            extract(final(self)@ as u64, 0, 4) == value,
    {
        proof {
            lemma_low_mask_values();
        }
        self.0 = insert_u8(self.0, 0, 4, value);
    }

    /// Sets `panc` to `value`, or returns `Err` and leaves the register as it
    /// is where `value` exceeds `0xF`.
    pub fn set_panc_checked(&mut self, value: u8) -> (done: Result<(), ()>)
        ensures
            value <= 0xF ==> done is Ok && final(self)@ == insert(
                old(self)@ as u64,
                0,
                4,
                value as u64,
            ),
            value > 0xF ==> done is Err && final(self)@ == old(self)@,
    {
        if value > 0xF {
            return Err(());
        }
        self.set_panc(value);
        Ok(())
    }

    /// MAC Reserved Frame Type
    ///
    /// Bits: 4..8
    pub fn mrft(&self) -> (value: u8)
        ensures
            value == extract(self@ as u64, 4, 4),
    {
        extract_u8(self.0, 4, 4)
    }

    /// Returns the register with `mrft` set to `value`.
    pub fn with_mrft(self, value: u8) -> (reg: Self)
        requires
            value <= 0xF,
        ensures
            reg@ == insert(self@ as u64, 4, 4, value as u64),
            extract(reg@ as u64, 4, 4) == value,
    {
        proof {
            lemma_low_mask_values();
        }
        Self(insert_u8(self.0, 4, 4, value))
    }

    /// Returns the register with `mrft` set to `value`, or `Err` where `value`
    /// exceeds `0xF`.
    pub fn with_mrft_checked(self, value: u8) -> (reg: Result<Self, ()>)
        ensures
            value <= 0xF ==> reg is Ok && reg.unwrap()@ == insert(self@ as u64, 4, 4, value as u64),
            value > 0xF ==> reg is Err,
    {
        if value > 0xF {
            return Err(());
        }
        Ok(self.with_mrft(value))
    }

    /// Sets `mrft` to `value`.
    pub fn set_mrft(&mut self, value: u8)
        requires
            value <= 0xF,
        ensures
            final(self)@ == insert(old(self)@ as u64, 4, 4, value as u64),
            extract(final(self)@ as u64, 4, 4) == value,
    {
        proof {
            lemma_low_mask_values();
        }
        self.0 = insert_u8(self.0, 4, 4, value);
    }

    /// Sets `mrft` to `value`, or returns `Err` and leaves the register as it
    /// is where `value` exceeds `0xF`.
    pub fn set_mrft_checked(&mut self, value: u8) -> (done: Result<(), ()>)
        ensures
            value <= 0xF ==> done is Ok && final(self)@ == insert(
                old(self)@ as u64,
                4,
                4,
                value as u64,
            ),
            value > 0xF ==> done is Err && final(self)@ == old(self)@,
    {
        if value > 0xF {
            return Err(());
        }
        self.set_mrft(value);
        Ok(())
    }
}

impl Default for BbcnAfc1 {
    fn default() -> (reg: Self)
        ensures
            reg@ == 0,
    {
        Self::new()
    }
}

impl From<u8> for BbcnAfc1 {
    fn from(v: u8) -> (reg: Self) {
        Self(v)
    }
}

impl FromSpecImpl<u8> for BbcnAfc1 {
    open spec fn obeys_from_spec() -> bool {
        true
    }

    open spec fn from_spec(v: u8) -> Self {
        BbcnAfc1(v)
    }
}

impl From<BbcnAfc1> for u8 {
    fn from(v: BbcnAfc1) -> (bits: u8) {
        v.0
    }
}

impl FromSpecImpl<BbcnAfc1> for u8 {
    open spec fn obeys_from_spec() -> bool {
        true
    }

    open spec fn from_spec(v: BbcnAfc1) -> u8 {
        v.0
    }
}

/// BBCn_AFFTM - Automatic Frame Filtering Type Mask
///
/// Frame type filter mask.
#[derive(Debug, Clone, Copy, PartialEq, Eq)]
pub struct BbcnAfftm(pub u8);

impl View for BbcnAfftm {
    type V = u8;

    open spec fn view(&self) -> u8 {
        self.0
    }
}

impl BbcnAfftm {
    /// The register with every field at its reset value.
    pub fn new() -> (reg: Self)
        ensures
            reg@ == 0,
    {
        Self(0)
    }

    /// The register that holds `bits`.
    pub fn from_bits(bits: u8) -> (reg: Self)
        ensures
            reg@ == bits,
    {
        Self(bits)
    }

    /// The bits that the register holds.
    pub fn into_bits(self) -> (bits: u8)
        ensures
            bits == self@,
    {
        self.0
    }

    /// Bits: 0..8
    pub fn afftm(&self) -> (value: u8)
        ensures
            value == extract(self@ as u64, 0, 8),
    {
        extract_u8(self.0, 0, 8)
    }

    /// Returns the register with `afftm` set to `value`.
    pub fn with_afftm(self, value: u8) -> (reg: Self)
        ensures
            reg@ == insert(self@ as u64, 0, 8, value as u64),
            extract(reg@ as u64, 0, 8) == value,
    {
        proof {
            lemma_low_mask_values();
        }
        Self(insert_u8(self.0, 0, 8, value))
    }

    /// Returns the register with `afftm` set to `value`. Every value fits the
    /// field, so the result is always `Ok`.
    pub fn with_afftm_checked(self, value: u8) -> (reg: Result<Self, ()>)
        ensures
            reg is Ok,
            reg.unwrap()@ == insert(self@ as u64, 0, 8, value as u64),
    {
        Ok(self.with_afftm(value))
    }

    /// Sets `afftm` to `value`.
    pub fn set_afftm(&mut self, value: u8)
        ensures
            final(self)@ == insert(old(self)@ as u64, 0, 8, value as u64),
            extract(final(self)@ as u64, 0, 8) == value,
    {
        proof {
            lemma_low_mask_values();
        }
        self.0 = insert_u8(self.0, 0, 8, value);
    }

    /// Sets `afftm` to `value`. Every value fits the field, so the result is
    /// always `Ok`.
    pub fn set_afftm_checked(&mut self, value: u8) -> (done: Result<(), ()>)
        ensures
            done is Ok,
            final(self)@ == insert(old(self)@ as u64, 0, 8, value as u64),
    {
        self.set_afftm(value);
        Ok(())
    }
}

impl Default for BbcnAfftm {
    fn default() -> (reg: Self)
        ensures
            reg@ == 0,
    {
        Self::new()
    }
}

impl From<u8> for BbcnAfftm {
    fn from(v: u8) -> (reg: Self) {
        Self(v)
    }
}

impl FromSpecImpl<u8> for BbcnAfftm {
    open spec fn obeys_from_spec() -> bool {
        true
    }

    open spec fn from_spec(v: u8) -> Self {
        BbcnAfftm(v)
    }
}

impl From<BbcnAfftm> for u8 {
    fn from(v: BbcnAfftm) -> (bits: u8) {
        v.0
    }
}

impl FromSpecImpl<BbcnAfftm> for u8 {
    open spec fn obeys_from_spec() -> bool {
        true
    }

    open spec fn from_spec(v: BbcnAfftm) -> u8 {
        v.0
    }
}

/// BBCn_AFFVM - Automatic Frame Filtering Version Mask
///
/// Frame version filter mask.
#[derive(Debug, Clone, Copy, PartialEq, Eq)]
pub struct BbcnAffvm(pub u8);

impl View for BbcnAffvm {
    type V = u8;

    open spec fn view(&self) -> u8 {
        self.0
    }
}

impl BbcnAffvm {
    /// The register with every field at its reset value.
    pub fn new() -> (reg: Self)
        ensures
            reg@ == 0,
    {
        Self(0)
    }

    /// The register that holds `bits`.
    pub fn from_bits(bits: u8) -> (reg: Self)
        ensures
            reg@ == bits,
    {
        Self(bits)
    }

    /// The bits that the register holds.
    pub fn into_bits(self) -> (bits: u8)
        ensures
            bits == self@,
    {
        self.0
    }

    /// Address Filter Frame Version Mask
    ///
    /// Bits: 0..4
    pub fn affvm(&self) -> (value: u8)
        ensures
            value == extract(self@ as u64, 0, 4),
    {
        extract_u8(self.0, 0, 4)
    }

    /// Returns the register with `affvm` set to `value`.
    pub fn with_affvm(self, value: u8) -> (reg: Self)
        requires
            value <= 0xF,
        ensures
            reg@ == insert(self@ as u64, 0, 4, value as u64),
            extract(reg@ as u64, 0, 4) == value,
    {
        proof {
            lemma_low_mask_values();
        }
        Self(insert_u8(self.0, 0, 4, value))
    }

    /// Returns the register with `affvm` set to `value`, or `Err` where `value`
    /// exceeds `0xF`.
    pub fn with_affvm_checked(self, value: u8) -> (reg: Result<Self, ()>)
        ensures
            value <= 0xF ==> reg is Ok && reg.unwrap()@ == insert(self@ as u64, 0, 4, value as u64),
            value > 0xF ==> reg is Err,
    {
        if value > 0xF {
            return Err(());
        }
        Ok(self.with_affvm(value))
    }

    /// Sets `affvm` to `value`.
    pub fn set_affvm(&mut self, value: u8)
        requires
            value <= 0xF,
        ensures
            final(self)@ == insert(old(self)@ as u64, 0, 4, value as u64),
            extract(final(self)@ as u64, 0, 4) == value,
    {
        proof {
            lemma_low_mask_values();
        }
        self.0 = insert_u8(self.0, 0, 4, value);
    }

    /// Sets `affvm` to `value`, or returns `Err` and leaves the register as it
    /// is where `value` exceeds `0xF`.
    pub fn set_affvm_checked(&mut self, value: u8) -> (done: Result<(), ()>)
        ensures
            value <= 0xF ==> done is Ok && final(self)@ == insert(
                old(self)@ as u64,
                0,
                4,
                value as u64,
            ),
            value > 0xF ==> done is Err && final(self)@ == old(self)@,
    {
        if value > 0xF {
            return Err(());
        }
        self.set_affvm(value);
        Ok(())
    }
}

impl Default for BbcnAffvm {
    fn default() -> (reg: Self)
        ensures
            reg@ == 0,
    {
        Self::new()
    }
}

impl From<u8> for BbcnAffvm {
    fn from(v: u8) -> (reg: Self) {
        Self(v)
    }
}

impl FromSpecImpl<u8> for BbcnAffvm {
    open spec fn obeys_from_spec() -> bool {
        true
    }

    open spec fn from_spec(v: u8) -> Self {
        BbcnAffvm(v)
    }
}

impl From<BbcnAffvm> for u8 {
    fn from(v: BbcnAffvm) -> (bits: u8) {
        v.0
    }
}

impl FromSpecImpl<BbcnAffvm> for u8 {
    open spec fn obeys_from_spec() -> bool {
        true
    }

    open spec fn from_spec(v: BbcnAffvm) -> u8 {
        v.0
    }
}

/// BBCn_AFS - Automatic Frame Filtering Status (Read Only)
///
/// Address match status.
#[derive(Debug, Clone, Copy, PartialEq, Eq)]
pub struct BbcnAfs(pub u8);

impl View for BbcnAfs {
    type V = u8;

    open spec fn view(&self) -> u8 {
        self.0
    }
}

impl BbcnAfs {
    /// The register with every field at its reset value.
    pub fn new() -> (reg: Self)
        ensures
            reg@ == 0,
    {
        Self(0)
    }

    /// The register that holds `bits`.
    pub fn from_bits(bits: u8) -> (reg: Self)
        ensures
            reg@ == bits,
    {
        Self(bits)
    }

    /// The bits that the register holds.
    pub fn into_bits(self) -> (bits: u8)
        ensures
            bits == self@,
    {
        self.0
    }

    /// Address Match 0
    ///
    /// Bits: 0..1
    pub fn am0(&self) -> (value: bool)
        ensures
            value == (extract(self@ as u64, 0, 1) != 0),
    {
        extract_u8(self.0, 0, 1) != 0
    }

    /// Address Match 1
    ///
    /// Bits: 1..2
    pub fn am1(&self) -> (value: bool)
        ensures
            value == (extract(self@ as u64, 1, 1) != 0),
    {
        extract_u8(self.0, 1, 1) != 0
    }

    /// Address Match 2
    ///
    /// Bits: 2..3
    pub fn am2(&self) -> (value: bool)
        ensures
            value == (extract(self@ as u64, 2, 1) != 0),
    {
        extract_u8(self.0, 2, 1) != 0
    }

    /// Address Match 3
    ///
    /// Bits: 3..4
    pub fn am3(&self) -> (value: bool)
        ensures
            value == (extract(self@ as u64, 3, 1) != 0),
    {
        extract_u8(self.0, 3, 1) != 0
    }

    /// Extended Address Match
    ///
    /// Bits: 4..5
    pub fn em(&self) -> (value: bool)
        ensures
            value == (extract(self@ as u64, 4, 1) != 0),
    {
        extract_u8(self.0, 4, 1) != 0
    }
}

impl Default for BbcnAfs {
    fn default() -> (reg: Self)
        ensures
            reg@ == 0,
    {
        Self::new()
    }
}

impl From<u8> for BbcnAfs {
    fn from(v: u8) -> (reg: Self) {
        Self(v)
    }
}

impl FromSpecImpl<u8> for BbcnAfs {
    open spec fn obeys_from_spec() -> bool {
        true
    }

    open spec fn from_spec(v: u8) -> Self {
        BbcnAfs(v)
    }
}

impl From<BbcnAfs> for u8 {
    fn from(v: BbcnAfs) -> (bits: u8) {
        v.0
    }
}

impl FromSpecImpl<BbcnAfs> for u8 {
    open spec fn obeys_from_spec() -> bool {
        true
    }

    open spec fn from_spec(v: BbcnAfs) -> u8 {
        v.0
    }
}

/// BBCn_MACEA - MAC Extended Address
///
/// 64-bit extended MAC address.
#[derive(Debug, Clone, Copy, PartialEq, Eq)]
pub struct BbcnMacea(pub u64);

impl View for BbcnMacea {
    type V = u64;

    open spec fn view(&self) -> u64 {
        self.0
    }
}

impl BbcnMacea {
    /// The register with every field at its reset value.
    pub fn new() -> (reg: Self)
        ensures
            reg@ == 0,
    {
        Self(0)
    }

    /// The register that holds `bits`.
    pub fn from_bits(bits: u64) -> (reg: Self)
        ensures
            reg@ == bits,
    {
        Self(bits)
    }

    /// The bits that the register holds.
    pub fn into_bits(self) -> (bits: u64)
        ensures
            bits == self@,
    {
        self.0
    }

    /// MAC Extended Address (64-bit)
    ///
    /// Bits: 0..64
    pub fn macea(&self) -> (value: u64)
        ensures
            value == extract(self@, 0, 64),
    {
        extract_u64(self.0, 0, 64)
    }

    /// Returns the register with `macea` set to `value`.
    pub fn with_macea(self, value: u64) -> (reg: Self)
        ensures
            reg@ == insert(self@, 0, 64, value),
            extract(reg@, 0, 64) == value,
    {
        proof {
            lemma_low_mask_values();
        }
        Self(insert_u64(self.0, 0, 64, value))
    }

    /// Returns the register with `macea` set to `value`. Every value fits the
    /// field, so the result is always `Ok`.
    pub fn with_macea_checked(self, value: u64) -> (reg: Result<Self, ()>)
        ensures
            reg is Ok,
            reg.unwrap()@ == insert(self@, 0, 64, value),
    {
        Ok(self.with_macea(value))
    }

    /// Sets `macea` to `value`.
    pub fn set_macea(&mut self, value: u64)
        ensures
            final(self)@ == insert(old(self)@, 0, 64, value),
            extract(final(self)@, 0, 64) == value,
    {
        proof {
            lemma_low_mask_values();
        }
        self.0 = insert_u64(self.0, 0, 64, value);
    }

    /// Sets `macea` to `value`. Every value fits the field, so the result is
    /// always `Ok`.
    pub fn set_macea_checked(&mut self, value: u64) -> (done: Result<(), ()>)
        ensures
            done is Ok,
            final(self)@ == insert(old(self)@, 0, 64, value),
    {
        self.set_macea(value);
        Ok(())
    }
}

impl Default for BbcnMacea {
    fn default() -> (reg: Self)
        ensures
            reg@ == 0,
    {
        Self::new()
    }
}

impl From<u64> for BbcnMacea {
    fn from(v: u64) -> (reg: Self) {
        Self(v)
    }
}

impl FromSpecImpl<u64> for BbcnMacea {
    open spec fn obeys_from_spec() -> bool {
        true
    }

    open spec fn from_spec(v: u64) -> Self {
        BbcnMacea(v)
    }
}

impl From<BbcnMacea> for u64 {
    fn from(v: BbcnMacea) -> (bits: u64) {
        v.0
    }
}

impl FromSpecImpl<BbcnMacea> for u64 {
    open spec fn obeys_from_spec() -> bool {
        true
    }

    open spec fn from_spec(v: BbcnMacea) -> u64 {
        v.0
    }
}

/// BBCn_MACPID - MAC PAN ID
///
/// 16-bit PAN ID for address filtering.
#[derive(Debug, Clone, Copy, PartialEq, Eq)]
pub struct BbcnMacpid(pub u16);

impl View for BbcnMacpid {
    type V = u16;

    open spec fn view(&self) -> u16 {
        self.0
    }
}

impl BbcnMacpid {
    /// The register with every field at its reset value.
    pub fn new() -> (reg: Self)
        ensures
            reg@ == 0,
    {
        Self(0)
    }

    /// The register that holds `bits`.
    pub fn from_bits(bits: u16) -> (reg: Self)
        ensures
            reg@ == bits,
    {
        Self(bits)
    }

    /// The bits that the register holds.
    pub fn into_bits(self) -> (bits: u16)
        ensures
            bits == self@,
    {
        self.0
    }

    /// PAN ID (16-bit)
    ///
    /// Bits: 0..16
    pub fn macpid(&self) -> (value: u16)
        ensures
            value == extract(self@ as u64, 0, 16),
    {
        extract_u16(self.0, 0, 16)
    }

    /// Returns the register with `macpid` set to `value`.
    pub fn with_macpid(self, value: u16) -> (reg: Self)
        ensures
            reg@ == insert(self@ as u64, 0, 16, value as u64),
            extract(reg@ as u64, 0, 16) == value,
    {
        proof {
            lemma_low_mask_values();
        }
        Self(insert_u16(self.0, 0, 16, value))
    }

    /// Returns the register with `macpid` set to `value`. Every value fits the
    /// field, so the result is always `Ok`.
    pub fn with_macpid_checked(self, value: u16) -> (reg: Result<Self, ()>)
        ensures
            reg is Ok,
            reg.unwrap()@ == insert(self@ as u64, 0, 16, value as u64),
    {
        Ok(self.with_macpid(value))
    }

    /// Sets `macpid` to `value`.
    pub fn set_macpid(&mut self, value: u16)
        ensures
            final(self)@ == insert(old(self)@ as u64, 0, 16, value as u64),
            extract(final(self)@ as u64, 0, 16) == value,
    {
        proof {
            lemma_low_mask_values();
        }
        self.0 = insert_u16(self.0, 0, 16, value);
    }

    /// Sets `macpid` to `value`. Every value fits the field, so the result is
    /// always `Ok`.
    pub fn set_macpid_checked(&mut self, value: u16) -> (done: Result<(), ()>)
        ensures
            done is Ok,
            final(self)@ == insert(old(self)@ as u64, 0, 16, value as u64),
    {
        self.set_macpid(value);
        Ok(())
    }
}

impl Default for BbcnMacpid {
    fn default() -> (reg: Self)
        ensures
            reg@ == 0,
    {
        Self::new()
    }
}

impl From<u16> for BbcnMacpid {
    fn from(v: u16) -> (reg: Self) {
        Self(v)
    }
}

impl FromSpecImpl<u16> for BbcnMacpid {
    open spec fn obeys_from_spec() -> bool {
        true
    }

    open spec fn from_spec(v: u16) -> Self {
        BbcnMacpid(v)
    }
}

impl From<BbcnMacpid> for u16 {
    fn from(v: BbcnMacpid) -> (bits: u16) {
        v.0
    }
}

impl FromSpecImpl<BbcnMacpid> for u16 {
    open spec fn obeys_from_spec() -> bool {
        true
    }

    open spec fn from_spec(v: BbcnMacpid) -> u16 {
        v.0
    }
}

/// BBCn_MACSHA - MAC Short Address
///
/// 16-bit short address for filtering.
#[derive(Debug, Clone, Copy, PartialEq, Eq)]
pub struct BbcnMacsha(pub u16);

impl View for BbcnMacsha {
    type V = u16;

    open spec fn view(&self) -> u16 {
        self.0
    }
}

impl BbcnMacsha {
    /// The register with every field at its reset value.
    pub fn new() -> (reg: Self)
        ensures
            reg@ == 0,
    {
        Self(0)
    }

    /// The register that holds `bits`.
    pub fn from_bits(bits: u16) -> (reg: Self)
        ensures
            reg@ == bits,
    {
        Self(bits)
    }

    /// The bits that the register holds.
    pub fn into_bits(self) -> (bits: u16)
        ensures
            bits == self@,
    {
        self.0
    }

    /// Short Address (16-bit)
    ///
    /// Bits: 0..16
    pub fn macsha(&self) -> (value: u16)
        ensures
            value == extract(self@ as u64, 0, 16),
    {
        extract_u16(self.0, 0, 16)
    }

    /// Returns the register with `macsha` set to `value`.
    pub fn with_macsha(self, value: u16) -> (reg: Self)
        ensures
            reg@ == insert(self@ as u64, 0, 16, value as u64),
            extract(reg@ as u64, 0, 16) == value,
    {
        proof {
            lemma_low_mask_values();
        }
        Self(insert_u16(self.0, 0, 16, value))
    }

    /// Returns the register with `macsha` set to `value`. Every value fits the
    /// field, so the result is always `Ok`.
    pub fn with_macsha_checked(self, value: u16) -> (reg: Result<Self, ()>)
        ensures
            reg is Ok,
            reg.unwrap()@ == insert(self@ as u64, 0, 16, value as u64),
    {
        Ok(self.with_macsha(value))
    }

    /// Sets `macsha` to `value`.
    pub fn set_macsha(&mut self, value: u16)
        ensures
            final(self)@ == insert(old(self)@ as u64, 0, 16, value as u64),
            extract(final(self)@ as u64, 0, 16) == value,
    {
        proof {
            lemma_low_mask_values();
        }
        self.0 = insert_u16(self.0, 0, 16, value);
    }

    /// Sets `macsha` to `value`. Every value fits the field, so the result is
    /// always `Ok`.
    pub fn set_macsha_checked(&mut self, value: u16) -> (done: Result<(), ()>)
        ensures
            done is Ok,
            final(self)@ == insert(old(self)@ as u64, 0, 16, value as u64),
    {
        self.set_macsha(value);
        Ok(())
    }
}

impl Default for BbcnMacsha {
    fn default() -> (reg: Self)
        ensures
            reg@ == 0,
    {
        Self::new()
    }
}

impl From<u16> for BbcnMacsha {
    fn from(v: u16) -> (reg: Self) {
        Self(v)
    }
}

impl FromSpecImpl<u16> for BbcnMacsha {
    open spec fn obeys_from_spec() -> bool {
        true
    }

    open spec fn from_spec(v: u16) -> Self {
        BbcnMacsha(v)
    }
}

impl From<BbcnMacsha> for u16 {
    fn from(v: BbcnMacsha) -> (bits: u16) {
        v.0
    }
}

impl FromSpecImpl<BbcnMacsha> for u16 {
    open spec fn obeys_from_spec() -> bool {
        true
    }

    open spec fn from_spec(v: BbcnMacsha) -> u16 {
        v.0
    }
}

/// BBCn_AMCS - Automatic MAC ACK Control & Settings
///
/// Automatic acknowledgment configuration.
#[derive(Debug, Clone, Copy, PartialEq, Eq)]
pub struct BbcnAmcs(pub u8);

impl View for BbcnAmcs {
    type V = u8;

    open spec fn view(&self) -> u8 {
        self.0
    }
}

impl BbcnAmcs {
    /// The register with every field at its reset value.
    pub fn new() -> (reg: Self)
        ensures
            reg@ == 0,
    {
        Self(0)
    }

    /// The register that holds `bits`.
    pub fn from_bits(bits: u8) -> (reg: Self)
        ensures
            reg@ == bits,
    {
        Self(bits)
    }

    /// The bits that the register holds.
    pub fn into_bits(self) -> (bits: u8)
        ensures
            bits == self@,
    {
        self.0
    }

    /// TX to RX Switch
    ///
    /// Bits: 0..1
    pub fn tx2rx(&self) -> (value: bool)
        ensures
            value == (extract(self@ as u64, 0, 1) != 0),
    {
        extract_u8(self.0, 0, 1) != 0
    }

    /// Returns the register with `tx2rx` set to `value`.
    pub fn with_tx2rx(self, value: bool) -> (reg: Self)
        ensures
            reg@ == insert(self@ as u64, 0, 1, value as u64),
            (extract(reg@ as u64, 0, 1) != 0) == value,
    {
        proof {
            lemma_low_mask_values();
        }
        Self(insert_u8(self.0, 0, 1, value as u8))
    }

    /// Returns the register with `tx2rx` set to `value`. Every value fits the
    /// field, so the result is always `Ok`.
    pub fn with_tx2rx_checked(self, value: bool) -> (reg: Result<Self, ()>)
        ensures
            reg is Ok,
            reg.unwrap()@ == insert(self@ as u64, 0, 1, value as u64),
    {
        Ok(self.with_tx2rx(value))
    }

    /// Sets `tx2rx` to `value`.
    pub fn set_tx2rx(&mut self, value: bool)
        ensures
            final(self)@ == insert(old(self)@ as u64, 0, 1, value as u64),
            (extract(final(self)@ as u64, 0, 1) != 0) == value,
    {
        proof {
            lemma_low_mask_values();
        }
        self.0 = insert_u8(self.0, 0, 1, value as u8);
    }

    /// Sets `tx2rx` to `value`. Every value fits the field, so the result is
    /// always `Ok`.
    pub fn set_tx2rx_checked(&mut self, value: bool) -> (done: Result<(), ()>)
        ensures
            done is Ok,
            final(self)@ == insert(old(self)@ as u64, 0, 1, value as u64),
    {
        self.set_tx2rx(value);
        Ok(())
    }

    /// CCA before TX
    ///
    /// Bits: 1..2
    pub fn ccatx(&self) -> (value: bool)
        ensures
            value == (extract(self@ as u64, 1, 1) != 0),
    {
        extract_u8(self.0, 1, 1) != 0
    }

    /// Returns the register with `ccatx` set to `value`.
    pub fn with_ccatx(self, value: bool) -> (reg: Self)
        ensures
            reg@ == insert(self@ as u64, 1, 1, value as u64),
            (extract(reg@ as u64, 1, 1) != 0) == value,
    {
        proof {
            lemma_low_mask_values();
        }
        Self(insert_u8(self.0, 1, 1, value as u8))
    }

    /// Returns the register with `ccatx` set to `value`. Every value fits the
    /// field, so the result is always `Ok`.
    pub fn with_ccatx_checked(self, value: bool) -> (reg: Result<Self, ()>)
        ensures
            reg is Ok,
            reg.unwrap()@ == insert(self@ as u64, 1, 1, value as u64),
    {
        Ok(self.with_ccatx(value))
    }

    /// Sets `ccatx` to `value`.
    pub fn set_ccatx(&mut self, value: bool)
        ensures
            final(self)@ == insert(old(self)@ as u64, 1, 1, value as u64),
            (extract(final(self)@ as u64, 1, 1) != 0) == value,
    {
        proof {
            lemma_low_mask_values();
        }
        self.0 = insert_u8(self.0, 1, 1, value as u8);
    }

    /// Sets `ccatx` to `value`. Every value fits the field, so the result is
    /// always `Ok`.
    pub fn set_ccatx_checked(&mut self, value: bool) -> (done: Result<(), ()>)
        ensures
            done is Ok,
            final(self)@ == insert(old(self)@ as u64, 1, 1, value as u64),
    {
        self.set_ccatx(value);
        Ok(())
    }

    /// CCA Energy Detection
    ///
    /// Bits: 2..3
    pub fn ccaed(&self) -> (value: bool)
        ensures
            value == (extract(self@ as u64, 2, 1) != 0),
    {
        extract_u8(self.0, 2, 1) != 0
    }

    /// Returns the register with `ccaed` set to `value`.
    pub fn with_ccaed(self, value: bool) -> (reg: Self)
        ensures
            reg@ == insert(self@ as u64, 2, 1, value as u64),
            (extract(reg@ as u64, 2, 1) != 0) == value,
    {
        proof {
            lemma_low_mask_values();
        }
        Self(insert_u8(self.0, 2, 1, value as u8))
    }

    /// Returns the register with `ccaed` set to `value`. Every value fits the
    /// field, so the result is always `Ok`.
    pub fn with_ccaed_checked(self, value: bool) -> (reg: Result<Self, ()>)
        ensures
            reg is Ok,
            reg.unwrap()@ == insert(self@ as u64, 2, 1, value as u64),
    {
        Ok(self.with_ccaed(value))
    }

    /// Sets `ccaed` to `value`.
    pub fn set_ccaed(&mut self, value: bool)
        ensures
            final(self)@ == insert(old(self)@ as u64, 2, 1, value as u64),
            (extract(final(self)@ as u64, 2, 1) != 0) == value,
    {
        proof {
            lemma_low_mask_values();
        }
        self.0 = insert_u8(self.0, 2, 1, value as u8);
    }

    /// Sets `ccaed` to `value`. Every value fits the field, so the result is
    /// always `Ok`.
    pub fn set_ccaed_checked(&mut self, value: bool) -> (done: Result<(), ()>)
        ensures
            done is Ok,
            final(self)@ == insert(old(self)@ as u64, 2, 1, value as u64),
    {
        self.set_ccaed(value);
        Ok(())
    }

    /// Auto ACK Enable
    ///
    /// Bits: 3..4
    pub fn aack(&self) -> (value: bool)
        ensures
            value == (extract(self@ as u64, 3, 1) != 0),
    {
        extract_u8(self.0, 3, 1) != 0
    }

    /// Returns the register with `aack` set to `value`.
    pub fn with_aack(self, value: bool) -> (reg: Self)
        ensures
            reg@ == insert(self@ as u64, 3, 1, value as u64),
            (extract(reg@ as u64, 3, 1) != 0) == value,
    {
        proof {
            lemma_low_mask_values();
        }
        Self(insert_u8(self.0, 3, 1, value as u8))
    }

    /// Returns the register with `aack` set to `value`. Every value fits the
    /// field, so the result is always `Ok`.
    pub fn with_aack_checked(self, value: bool) -> (reg: Result<Self, ()>)
        ensures
            reg is Ok,
            reg.unwrap()@ == insert(self@ as u64, 3, 1, value as u64),
    {
        Ok(self.with_aack(value))
    }

    /// Sets `aack` to `value`.
    pub fn set_aack(&mut self, value: bool)
        ensures
            final(self)@ == insert(old(self)@ as u64, 3, 1, value as u64),
            (extract(final(self)@ as u64, 3, 1) != 0) == value,
    {
        proof {
            lemma_low_mask_values();
        }
        self.0 = insert_u8(self.0, 3, 1, value as u8);
    }

    /// Sets `aack` to `value`. Every value fits the field, so the result is
    /// always `Ok`.
    pub fn set_aack_checked(&mut self, value: bool) -> (done: Result<(), ()>)
        ensures
            done is Ok,
            final(self)@ == insert(old(self)@ as u64, 3, 1, value as u64),
    {
        self.set_aack(value);
        Ok(())
    }

    /// Auto ACK Status
    ///
    /// Bits: 4..5
    pub fn aacks(&self) -> (value: bool)
        ensures
            value == (extract(self@ as u64, 4, 1) != 0),
    {
        extract_u8(self.0, 4, 1) != 0
    }

    /// Returns the register with `aacks` set to `value`.
    pub fn with_aacks(self, value: bool) -> (reg: Self)
        ensures
            reg@ == insert(self@ as u64, 4, 1, value as u64),
            (extract(reg@ as u64, 4, 1) != 0) == value,
    {
        proof {
            lemma_low_mask_values();
        }
        Self(insert_u8(self.0, 4, 1, value as u8))
    }

    /// Returns the register with `aacks` set to `value`. Every value fits the
    /// field, so the result is always `Ok`.
    pub fn with_aacks_checked(self, value: bool) -> (reg: Result<Self, ()>)
        ensures
            reg is Ok,
            reg.unwrap()@ == insert(self@ as u64, 4, 1, value as u64),
    {
        Ok(self.with_aacks(value))
    }

    /// Sets `aacks` to `value`.
    pub fn set_aacks(&mut self, value: bool)
        ensures
            final(self)@ == insert(old(self)@ as u64, 4, 1, value as u64),
            (extract(final(self)@ as u64, 4, 1) != 0) == value,
    {
        proof {
            lemma_low_mask_values();
        }
        self.0 = insert_u8(self.0, 4, 1, value as u8);
    }

    /// Sets `aacks` to `value`. Every value fits the field, so the result is
    /// always `Ok`.
    pub fn set_aacks_checked(&mut self, value: bool) -> (done: Result<(), ()>)
        ensures
            done is Ok,
            final(self)@ == insert(old(self)@ as u64, 4, 1, value as u64),
    {
        self.set_aacks(value);
        Ok(())
    }

    /// Auto ACK Data Rate
    ///
    /// Bits: 5..6
    pub fn aackdr(&self) -> (value: bool)
        ensures
            value == (extract(self@ as u64, 5, 1) != 0),
    {
        extract_u8(self.0, 5, 1) != 0
    }

    /// Returns the register with `aackdr` set to `value`.
    pub fn with_aackdr(self, value: bool) -> (reg: Self)
        ensures
            reg@ == insert(self@ as u64, 5, 1, value as u64),
            (extract(reg@ as u64, 5, 1) != 0) == value,
    {
        proof {
            lemma_low_mask_values();
        }
        Self(insert_u8(self.0, 5, 1, value as u8))
    }

    /// Returns the register with `aackdr` set to `value`. Every value fits the
    /// field, so the result is always `Ok`.
    pub fn with_aackdr_checked(self, value: bool) -> (reg: Result<Self, ()>)
        ensures
            reg is Ok,
            reg.unwrap()@ == insert(self@ as u64, 5, 1, value as u64),
    {
        Ok(self.with_aackdr(value))
    }

    /// Sets `aackdr` to `value`.
    pub fn set_aackdr(&mut self, value: bool)
        ensures
            final(self)@ == insert(old(self)@ as u64, 5, 1, value as u64),
            (extract(final(self)@ as u64, 5, 1) != 0) == value,
    {
        proof {
            lemma_low_mask_values();
        }
        self.0 = insert_u8(self.0, 5, 1, value as u8);
    }

    /// Sets `aackdr` to `value`. Every value fits the field, so the result is
    /// always `Ok`.
    pub fn set_aackdr_checked(&mut self, value: bool) -> (done: Result<(), ()>)
        ensures
            done is Ok,
            final(self)@ == insert(old(self)@ as u64, 5, 1, value as u64),
    {
        self.set_aackdr(value);
        Ok(())
    }

    /// Auto ACK Frame Pending Address
    ///
    /// Bits: 6..7
    pub fn aackfa(&self) -> (value: bool)
        ensures
            value == (extract(self@ as u64, 6, 1) != 0),
    {
        extract_u8(self.0, 6, 1) != 0
    }

    /// Returns the register with `aackfa` set to `value`.
    pub fn with_aackfa(self, value: bool) -> (reg: Self)
        ensures
            reg@ == insert(self@ as u64, 6, 1, value as u64),
            (extract(reg@ as u64, 6, 1) != 0) == value,
    {
        proof {
            lemma_low_mask_values();
        }
        Self(insert_u8(self.0, 6, 1, value as u8))
    }

    /// Returns the register with `aackfa` set to `value`. Every value fits the
    /// field, so the result is always `Ok`.
    pub fn with_aackfa_checked(self, value: bool) -> (reg: Result<Self, ()>)
        ensures
            reg is Ok,
            reg.unwrap()@ == insert(self@ as u64, 6, 1, value as u64),
    {
        Ok(self.with_aackfa(value))
    }

    /// Sets `aackfa` to `value`.
    pub fn set_aackfa(&mut self, value: bool)
        ensures
            final(self)@ == insert(old(self)@ as u64, 6, 1, value as u64),
            (extract(final(self)@ as u64, 6, 1) != 0) == value,
    {
        proof {
            lemma_low_mask_values();
        }
        self.0 = insert_u8(self.0, 6, 1, value as u8);
    }

    /// Sets `aackfa` to `value`. Every value fits the field, so the result is
    /// always `Ok`.
    pub fn set_aackfa_checked(&mut self, value: bool) -> (done: Result<(), ()>)
        ensures
            done is Ok,
            final(self)@ == insert(old(self)@ as u64, 6, 1, value as u64),
    {
        self.set_aackfa(value);
        Ok(())
    }

    /// Auto ACK Frame Pending Type
    ///
    /// Bits: 7..8
    pub fn aackft(&self) -> (value: bool)
        ensures
            value == (extract(self@ as u64, 7, 1) != 0),
    {
        extract_u8(self.0, 7, 1) != 0
    }

    /// Returns the register with `aackft` set to `value`.
    pub fn with_aackft(self, value: bool) -> (reg: Self)
        ensures
            reg@ == insert(self@ as u64, 7, 1, value as u64),
            (extract(reg@ as u64, 7, 1) != 0) == value,
    {
        proof {
            lemma_low_mask_values();
        }
        Self(insert_u8(self.0, 7, 1, value as u8))
    }

    /// Returns the register with `aackft` set to `value`. Every value fits the
    /// field, so the result is always `Ok`.
    pub fn with_aackft_checked(self, value: bool) -> (reg: Result<Self, ()>)
        ensures
            reg is Ok,
            reg.unwrap()@ == insert(self@ as u64, 7, 1, value as u64),
    {
        Ok(self.with_aackft(value))
    }

    /// Sets `aackft` to `value`.
    pub fn set_aackft(&mut self, value: bool)
        ensures
            final(self)@ == insert(old(self)@ as u64, 7, 1, value as u64),
            (extract(final(self)@ as u64, 7, 1) != 0) == value,
    {
        proof {
            lemma_low_mask_values();
        }
        self.0 = insert_u8(self.0, 7, 1, value as u8);
    }

    /// Sets `aackft` to `value`. Every value fits the field, so the result is
    /// always `Ok`.
    pub fn set_aackft_checked(&mut self, value: bool) -> (done: Result<(), ()>)
        ensures
            done is Ok,
            final(self)@ == insert(old(self)@ as u64, 7, 1, value as u64),
    {
        self.set_aackft(value);
        Ok(())
    }
}

impl Default for BbcnAmcs {
    fn default() -> (reg: Self)
        ensures
            reg@ == 0,
    {
        Self::new()
    }
}

impl From<u8> for BbcnAmcs {
    fn from(v: u8) -> (reg: Self) {
        Self(v)
    }
}

impl FromSpecImpl<u8> for BbcnAmcs {
    open spec fn obeys_from_spec() -> bool {
        true
    }

    open spec fn from_spec(v: u8) -> Self {
        BbcnAmcs(v)
    }
}

impl From<BbcnAmcs> for u8 {
    fn from(v: BbcnAmcs) -> (bits: u8) {
        v.0
    }
}

impl FromSpecImpl<BbcnAmcs> for u8 {
    open spec fn obeys_from_spec() -> bool {
        true
    }

    open spec fn from_spec(v: BbcnAmcs) -> u8 {
        v.0
    }
}

/// BBCn_AMEDT - Automatic MAC ACK ED Threshold
///
/// Energy detection threshold for auto-ACK.
#[derive(Debug, Clone, Copy, PartialEq, Eq)]
pub struct BbcnAmedt(pub u8);

impl View for BbcnAmedt {
    type V = u8;

    open spec fn view(&self) -> u8 {
        self.0
    }
}

impl BbcnAmedt {
    /// The register with every field at its reset value.
    pub fn new() -> (reg: Self)
        ensures
            reg@ == 0,
    {
        Self(0)
    }

    /// The register that holds `bits`.
    pub fn from_bits(bits: u8) -> (reg: Self)
        ensures
            reg@ == bits,
    {
        Self(bits)
    }

    /// The bits that the register holds.
    pub fn into_bits(self) -> (bits: u8)
        ensures
            bits == self@,
    {
        self.0
    }

    /// Bits: 0..8
    pub fn amedt(&self) -> (value: u8)
        ensures
            value == extract(self@ as u64, 0, 8),
    {
        extract_u8(self.0, 0, 8)
    }

    /// Returns the register with `amedt` set to `value`.
    pub fn with_amedt(self, value: u8) -> (reg: Self)
        ensures
            reg@ == insert(self@ as u64, 0, 8, value as u64),
            extract(reg@ as u64, 0, 8) == value,
    {
        proof {
            lemma_low_mask_values();
        }
        Self(insert_u8(self.0, 0, 8, value))
    }

    /// Returns the register with `amedt` set to `value`. Every value fits the
    /// field, so the result is always `Ok`.
    pub fn with_amedt_checked(self, value: u8) -> (reg: Result<Self, ()>)
        ensures
            reg is Ok,
            reg.unwrap()@ == insert(self@ as u64, 0, 8, value as u64),
    {
        Ok(self.with_amedt(value))
    }

    /// Sets `amedt` to `value`.
    pub fn set_amedt(&mut self, value: u8)
        ensures
            final(self)@ == insert(old(self)@ as u64, 0, 8, value as u64),
            extract(final(self)@ as u64, 0, 8) == value,
    {
        proof {
            lemma_low_mask_values();
        }
        self.0 = insert_u8(self.0, 0, 8, value);
    }

    /// Sets `amedt` to `value`. Every value fits the field, so the result is
    /// always `Ok`.
    pub fn set_amedt_checked(&mut self, value: u8) -> (done: Result<(), ()>)
        ensures
            done is Ok,
            final(self)@ == insert(old(self)@ as u64, 0, 8, value as u64),
    {
        self.set_amedt(value);
        Ok(())
    }
}

impl Default for BbcnAmedt {
    fn default() -> (reg: Self)
        ensures
            reg@ == 0,
    {
        Self::new()
    }
}

impl From<u8> for BbcnAmedt {
    fn from(v: u8) -> (reg: Self) {
        Self(v)
    }
}

impl FromSpecImpl<u8> for BbcnAmedt {
    open spec fn obeys_from_spec() -> bool {
        true
    }

    open spec fn from_spec(v: u8) -> Self {
        BbcnAmedt(v)
    }
}

impl From<BbcnAmedt> for u8 {
    fn from(v: BbcnAmedt) -> (bits: u8) {
        v.0
    }
}

impl FromSpecImpl<BbcnAmedt> for u8 {
    open spec fn obeys_from_spec() -> bool {
        true
    }

    open spec fn from_spec(v: BbcnAmedt) -> u8 {
        v.0
    }
}

/// BBCn_AMAACKPD - Automatic MAC ACK Pending Bit
///
/// Frame pending bit configuration for auto-ACK.
#[derive(Debug, Clone, Copy, PartialEq, Eq)]
pub struct BbcnAmaackpd(pub u8);

impl View for BbcnAmaackpd {
    type V = u8;

    open spec fn view(&self) -> u8 {
        self.0
    }
}

impl BbcnAmaackpd {
    /// The register with every field at its reset value.
    pub fn new() -> (reg: Self)
        ensures
            reg@ == 0,
    {
        Self(0)
    }

    /// The register that holds `bits`.
    pub fn from_bits(bits: u8) -> (reg: Self)
        ensures
            reg@ == bits,
    {
        Self(bits)
    }

    /// The bits that the register holds.
    pub fn into_bits(self) -> (bits: u8)
        ensures
            bits == self@,
    {
        self.0
    }

    /// Pending Data 0
    ///
    /// Bits: 0..1
    pub fn pd0(&self) -> (value: bool)
        ensures
            value == (extract(self@ as u64, 0, 1) != 0),
    {
        extract_u8(self.0, 0, 1) != 0
    }

    /// Returns the register with `pd0` set to `value`.
    pub fn with_pd0(self, value: bool) -> (reg: Self)
        ensures
            reg@ == insert(self@ as u64, 0, 1, value as u64),
            (extract(reg@ as u64, 0, 1) != 0) == value,
    {
        proof {
            lemma_low_mask_values();
        }
        Self(insert_u8(self.0, 0, 1, value as u8))
    }

    /// Returns the register with `pd0` set to `value`. Every value fits the
    /// field, so the result is always `Ok`.
    pub fn with_pd0_checked(self, value: bool) -> (reg: Result<Self, ()>)
        ensures
            reg is Ok,
            reg.unwrap()@ == insert(self@ as u64, 0, 1, value as u64),
    {
        Ok(self.with_pd0(value))
    }

    /// Sets `pd0` to `value`.
    pub fn set_pd0(&mut self, value: bool)
        ensures
            final(self)@ == insert(old(self)@ as u64, 0, 1, value as u64),
            (extract(final(self)@ as u64, 0, 1) != 0) == value,
    {
        proof {
            lemma_low_mask_values();
        }
        self.0 = insert_u8(self.0, 0, 1, value as u8);
    }

    /// Sets `pd0` to `value`. Every value fits the field, so the result is
    /// always `Ok`.
    pub fn set_pd0_checked(&mut self, value: bool) -> (done: Result<(), ()>)
        ensures
            done is Ok,
            final(self)@ == insert(old(self)@ as u64, 0, 1, value as u64),
    {
        self.set_pd0(value);
        Ok(())
    }

    /// Pending Data 1
    ///
    /// Bits: 1..2
    pub fn pd1(&self) -> (value: bool)
        ensures
            value == (extract(self@ as u64, 1, 1) != 0),
    {
        extract_u8(self.0, 1, 1) != 0
    }

    /// Returns the register with `pd1` set to `value`.
    pub fn with_pd1(self, value: bool) -> (reg: Self)
        ensures
            reg@ == insert(self@ as u64, 1, 1, value as u64),
            (extract(reg@ as u64, 1, 1) != 0) == value,
    {
        proof {
            lemma_low_mask_values();
        }
        Self(insert_u8(self.0, 1, 1, value as u8))
    }

    /// Returns the register with `pd1` set to `value`. Every value fits the
    /// field, so the result is always `Ok`.
    pub fn with_pd1_checked(self, value: bool) -> (reg: Result<Self, ()>)
        ensures
            reg is Ok,
            reg.unwrap()@ == insert(self@ as u64, 1, 1, value as u64),
    {
        Ok(self.with_pd1(value))
    }

    /// Sets `pd1` to `value`.
    pub fn set_pd1(&mut self, value: bool)
        ensures
            final(self)@ == insert(old(self)@ as u64, 1, 1, value as u64),
            (extract(final(self)@ as u64, 1, 1) != 0) == value,
    {
        proof {
            lemma_low_mask_values();
        }
        self.0 = insert_u8(self.0, 1, 1, value as u8);
    }

    /// Sets `pd1` to `value`. Every value fits the field, so the result is
    /// always `Ok`.
    pub fn set_pd1_checked(&mut self, value: bool) -> (done: Result<(), ()>)
        ensures
            done is Ok,
            final(self)@ == insert(old(self)@ as u64, 1, 1, value as u64),
    {
        self.set_pd1(value);
        Ok(())
    }

    /// Pending Data 2
    ///
    /// Bits: 2..3
    pub fn pd2(&self) -> (value: bool)
        ensures
            value == (extract(self@ as u64, 2, 1) != 0),
    {
        extract_u8(self.0, 2, 1) != 0
    }

    /// Returns the register with `pd2` set to `value`.
    pub fn with_pd2(self, value: bool) -> (reg: Self)
        ensures
            reg@ == insert(self@ as u64, 2, 1, value as u64),
            (extract(reg@ as u64, 2, 1) != 0) == value,
    {
        proof {
            lemma_low_mask_values();
        }
        Self(insert_u8(self.0, 2, 1, value as u8))
    }

    /// Returns the register with `pd2` set to `value`. Every value fits the
    /// field, so the result is always `Ok`.
    pub fn with_pd2_checked(self, value: bool) -> (reg: Result<Self, ()>)
        ensures
            reg is Ok,
            reg.unwrap()@ == insert(self@ as u64, 2, 1, value as u64),
    {
        Ok(self.with_pd2(value))
    }

    /// Sets `pd2` to `value`.
    pub fn set_pd2(&mut self, value: bool)
        ensures
            final(self)@ == insert(old(self)@ as u64, 2, 1, value as u64),
            (extract(final(self)@ as u64, 2, 1) != 0) == value,
    {
        proof {
            lemma_low_mask_values();
        }
        self.0 = insert_u8(self.0, 2, 1, value as u8);
    }

    /// Sets `pd2` to `value`. Every value fits the field, so the result is
    /// always `Ok`.
    pub fn set_pd2_checked(&mut self, value: bool) -> (done: Result<(), ()>)
        ensures
            done is Ok,
            final(self)@ == insert(old(self)@ as u64, 2, 1, value as u64),
    {
        self.set_pd2(value);
        Ok(())
    }

    /// Pending Data 3
    ///
    /// Bits: 3..4
    pub fn pd3(&self) -> (value: bool)
        ensures
            value == (extract(self@ as u64, 3, 1) != 0),
    {
        extract_u8(self.0, 3, 1) != 0
    }

    /// Returns the register with `pd3` set to `value`.
    pub fn with_pd3(self, value: bool) -> (reg: Self)
        ensures
            reg@ == insert(self@ as u64, 3, 1, value as u64),
            (extract(reg@ as u64, 3, 1) != 0) == value,
    {
        proof {
            lemma_low_mask_values();
        }
        Self(insert_u8(self.0, 3, 1, value as u8))
    }

    /// Returns the register with `pd3` set to `value`. Every value fits the
    /// field, so the result is always `Ok`.
    pub fn with_pd3_checked(self, value: bool) -> (reg: Result<Self, ()>)
        ensures
            reg is Ok,
            reg.unwrap()@ == insert(self@ as u64, 3, 1, value as u64),
    {
        Ok(self.with_pd3(value))
    }

    /// Sets `pd3` to `value`.
    pub fn set_pd3(&mut self, value: bool)
        ensures
            final(self)@ == insert(old(self)@ as u64, 3, 1, value as u64),
            (extract(final(self)@ as u64, 3, 1) != 0) == value,
    {
        proof {
            lemma_low_mask_values();
        }
        self.0 = insert_u8(self.0, 3, 1, value as u8);
    }

    /// Sets `pd3` to `value`. Every value fits the field, so the result is
    /// always `Ok`.
    pub fn set_pd3_checked(&mut self, value: bool) -> (done: Result<(), ()>)
        ensures
            done is Ok,
            final(self)@ == insert(old(self)@ as u64, 3, 1, value as u64),
    {
        self.set_pd3(value);
        Ok(())
    }
}

impl Default for BbcnAmaackpd {
    fn default() -> (reg: Self)
        ensures
            reg@ == 0,
    {
        Self::new()
    }
}

impl From<u8> for BbcnAmaackpd {
    fn from(v: u8) -> (reg: Self) {
        Self(v)
    }
}

impl FromSpecImpl<u8> for BbcnAmaackpd {
    open spec fn obeys_from_spec() -> bool {
        true
    }

    open spec fn from_spec(v: u8) -> Self {
        BbcnAmaackpd(v)
    }
}

impl From<BbcnAmaackpd> for u8 {
    fn from(v: BbcnAmaackpd) -> (bits: u8) {
        v.0
    }
}

impl FromSpecImpl<BbcnAmaackpd> for u8 {
    open spec fn obeys_from_spec() -> bool {
        true
    }

    open spec fn from_spec(v: BbcnAmaackpd) -> u8 {
        v.0
    }
}

/// BBCn_AMAACKT - Automatic MAC ACK Turnaround Time
///
/// ACK turnaround time in microseconds (11-bit value).
#[derive(Debug, Clone, Copy, PartialEq, Eq)]
pub struct BbcnAmaackt(pub u16);

impl View for BbcnAmaackt {
    type V = u16;

    open spec fn view(&self) -> u16 {
        self.0
    }
}

impl BbcnAmaackt {
    /// The register with every field at its reset value.
    pub fn new() -> (reg: Self)
        ensures
            reg@ == 0,
    {
        Self(0)
    }

    /// The register that holds `bits`.
    pub fn from_bits(bits: u16) -> (reg: Self)
        ensures
            reg@ == bits,
    {
        Self(bits)
    }

    /// The bits that the register holds.
    pub fn into_bits(self) -> (bits: u16)
        ensures
            bits == self@,
    {
        self.0
    }

    /// ACK Turnaround Time in µs (11-bit)
    ///
    /// Bits: 0..11
    pub fn amaackt(&self) -> (value: u16)
        ensures
            value == extract(self@ as u64, 0, 11),
    {
        extract_u16(self.0, 0, 11)
    }

    /// Returns the register with `amaackt` set to `value`.
    pub fn with_amaackt(self, value: u16) -> (reg: Self)
        requires
            value <= 0x7FF,
        ensures
            reg@ == insert(self@ as u64, 0, 11, value as u64),
            extract(reg@ as u64, 0, 11) == value,
    {
        proof {
            lemma_low_mask_values();
        }
        Self(insert_u16(self.0, 0, 11, value))
    }

    /// Returns the register with `amaackt` set to `value`, or `Err` where `value`
    /// exceeds `0x7FF`.
    pub fn with_amaackt_checked(self, value: u16) -> (reg: Result<Self, ()>)
        ensures
            value <= 0x7FF ==> reg is Ok && reg.unwrap()@ == insert(
                self@ as u64,
                0,
                11,
                value as u64,
            ),
            value > 0x7FF ==> reg is Err,
    {
        if value > 0x7FF {
            return Err(());
        }
        Ok(self.with_amaackt(value))
    }

    /// Sets `amaackt` to `value`.
    pub fn set_amaackt(&mut self, value: u16)
        requires
            value <= 0x7FF,
        ensures
            final(self)@ == insert(old(self)@ as u64, 0, 11, value as u64),
            extract(final(self)@ as u64, 0, 11) == value,
    {
        proof {
            lemma_low_mask_values();
        }
        self.0 = insert_u16(self.0, 0, 11, value);
    }

    /// Sets `amaackt` to `value`, or returns `Err` and leaves the register as it
    /// is where `value` exceeds `0x7FF`.
    pub fn set_amaackt_checked(&mut self, value: u16) -> (done: Result<(), ()>)
        ensures
            value <= 0x7FF ==> done is Ok && final(self)@ == insert(
                old(self)@ as u64,
                0,
                11,
                value as u64,
            ),
            value > 0x7FF ==> done is Err && final(self)@ == old(self)@,
    {
        if value > 0x7FF {
            return Err(());
        }
        self.set_amaackt(value);
        Ok(())
    }
}

impl Default for BbcnAmaackt {
    fn default() -> (reg: Self)
        ensures
            reg@ == 0,
    {
        Self::new()
    }
}

impl From<u16> for BbcnAmaackt {
    fn from(v: u16) -> (reg: Self) {
        Self(v)
    }
}

impl FromSpecImpl<u16> for BbcnAmaackt {
    open spec fn obeys_from_spec() -> bool {
        true
    }

    open spec fn from_spec(v: u16) -> Self {
        BbcnAmaackt(v)
    }
}

impl From<BbcnAmaackt> for u16 {
    fn from(v: BbcnAmaackt) -> (bits: u16) {
        v.0
    }
}

impl FromSpecImpl<BbcnAmaackt> for u16 {
    open spec fn obeys_from_spec() -> bool {
        true
    }

    open spec fn from_spec(v: BbcnAmaackt) -> u16 {
        v.0
    }
}

} // verus!
