//! Baseband interrupt registers.

use vstd::prelude::*;
use vstd::std_specs::convert::FromSpecImpl;
use crate::bits::{extract, extract_u8, insert, insert_u8, lemma_low_mask_values};

verus! {

/// BBCn_IRQS - Baseband IRQ Status (Read to Clear)
///
/// Baseband interrupt status. Reading clears all bits.
#[derive(Debug, Clone, Copy, PartialEq, Eq)]
pub struct BbcnIrqs(pub u8);

impl View for BbcnIrqs {
    type V = u8;

    open spec fn view(&self) -> u8 {
        self.0
    }
}

impl BbcnIrqs {
    /// The register with every field at its reset value.
    pub fn new() -> (reg: Self)
        ensures
            reg@ == 0,
    {
        Self(0)
    }

    /// The register that holds `bits`.
    pub fn from_bits(bits: u8) -> (reg: Self)
        ensures
            reg@ == bits,
    {
        Self(bits)
    }

    /// The bits that the register holds.
    pub fn into_bits(self) -> (bits: u8)
        ensures
            bits == self@,
    {
        self.0
    }

    /// Receiver Frame Start Interrupt
    /// Set when valid frame start (PHR) detected
    ///
    /// Bits: 0..1
    pub fn rxfs(&self) -> (value: bool)
        ensures
            value == (extract(self@ as u64, 0, 1) != 0),
    {
        extract_u8(self.0, 0, 1) != 0
    }

    /// Receiver Frame End Interrupt
    /// Set when frame end detected
    ///
    /// Bits: 1..2
    pub fn rxfe(&self) -> (value: bool)
        ensures
            value == (extract(self@ as u64, 1, 1) != 0),
    {
        extract_u8(self.0, 1, 1) != 0
    }

    /// Receiver Address Match Interrupt
    /// Set when received frame matches 3rd level filter
    ///
    /// Bits: 2..3
    pub fn rxam(&self) -> (value: bool)
        ensures
            value == (extract(self@ as u64, 2, 1) != 0),
    {
        extract_u8(self.0, 2, 1) != 0
    }

    /// Receiver Extended Match Interrupt
    /// Set when received frame matches extended filter
    ///
    /// Bits: 3..4
    pub fn rxem(&self) -> (value: bool)
        ensures
            value == (extract(self@ as u64, 3, 1) != 0),
    {
        extract_u8(self.0, 3, 1) != 0
    }

    /// Transmitter Frame End Interrupt
    /// Set when frame transmission completed
    ///
    /// Bits: 4..5
    pub fn txfe(&self) -> (value: bool)
        ensures
            value == (extract(self@ as u64, 4, 1) != 0),
    {
        extract_u8(self.0, 4, 1) != 0
    }

    /// AGC Hold Interrupt
    /// Set when baseband holds AGC
    ///
    /// Bits: 5..6
    pub fn agch(&self) -> (value: bool)
        ensures
            value == (extract(self@ as u64, 5, 1) != 0),
    {
        extract_u8(self.0, 5, 1) != 0
    }

    /// AGC Release Interrupt
    /// Set when baseband releases AGC
    ///
    /// Bits: 6..7
    pub fn agcr(&self) -> (value: bool)
        ensures
            value == (extract(self@ as u64, 6, 1) != 0),
    {
        extract_u8(self.0, 6, 1) != 0
    }

    /// Frame Buffer Level Indication Interrupt
    /// Set when RX bytes exceed frame buffer level
    ///
    /// Bits: 7..8
    pub fn fbli(&self) -> (value: bool)
        ensures
            value == (extract(self@ as u64, 7, 1) != 0),
    {
        extract_u8(self.0, 7, 1) != 0
    }
}

impl Default for BbcnIrqs {
    fn default() -> (reg: Self)
        ensures
            reg@ == 0,
    {
        Self::new()
    }
}

impl From<u8> for BbcnIrqs {
    fn from(v: u8) -> (reg: Self) {
        Self(v)
    }
}

impl FromSpecImpl<u8> for BbcnIrqs {
    open spec fn obeys_from_spec() -> bool {
        true
    }

    open spec fn from_spec(v: u8) -> Self {
        BbcnIrqs(v)
    }
}

impl From<BbcnIrqs> for u8 {
    fn from(v: BbcnIrqs) -> (bits: u8) {
        v.0
    }
}

impl FromSpecImpl<BbcnIrqs> for u8 {
    open spec fn obeys_from_spec() -> bool {
        true
    }

    open spec fn from_spec(v: BbcnIrqs) -> u8 {
        v.0
    }
}

/// BBCn_IRQM - Baseband IRQ Mask
///
/// Baseband interrupt mask. Bit set to 1 enables corresponding IRQ.
#[derive(Debug, Clone, Copy, PartialEq, Eq)]
pub struct BbcnIrqm(pub u8);

impl View for BbcnIrqm {
    type V = u8;

    open spec fn view(&self) -> u8 {
        self.0
    }
}

impl BbcnIrqm {
    /// The register with every field at its reset value.
    pub fn new() -> (reg: Self)
        ensures
            reg@ == 0,
    {
        Self(0)
    }

    /// The register that holds `bits`.
    pub fn from_bits(bits: u8) -> (reg: Self)
        ensures
            reg@ == bits,
    {
        Self(bits)
    }

    /// The bits that the register holds.
    pub fn into_bits(self) -> (bits: u8)
        ensures
            bits == self@,
    {
        self.0
    }

    /// Receiver Frame Start Interrupt Mask
    ///
    /// Bits: 0..1
    pub fn rxfs(&self) -> (value: bool)
        ensures
            value == (extract(self@ as u64, 0, 1) != 0),
    {
        extract_u8(self.0, 0, 1) != 0
    }

    /// Returns the register with `rxfs` set to `value`.
    pub fn with_rxfs(self, value: bool) -> (reg: Self)
        ensures
            reg@ == insert(self@ as u64, 0, 1, value as u64),
            (extract(reg@ as u64, 0, 1) != 0) == value,
    {
        proof {
            lemma_low_mask_values();
        }
        Self(insert_u8(self.0, 0, 1, value as u8))
    }

    /// Returns the register with `rxfs` set to `value`. Every value fits the
    /// field, so the result is always `Ok`.
    pub fn with_rxfs_checked(self, value: bool) -> (reg: Result<Self, ()>)
        ensures
            reg is Ok,
            reg.unwrap()@ == insert(self@ as u64, 0, 1, value as u64),
    {
        Ok(self.with_rxfs(value))
    }

    /// Sets `rxfs` to `value`.
    pub fn set_rxfs(&mut self, value: bool)
        ensures
            final(self)@ == insert(old(self)@ as u64, 0, 1, value as u64),
            (extract(final(self)@ as u64, 0, 1) != 0) == value,
    {
        proof {
            lemma_low_mask_values();
        }
        self.0 = insert_u8(self.0, 0, 1, value as u8);
    }

    /// Sets `rxfs` to `value`. Every value fits the field, so the result is
    /// always `Ok`.
    pub fn set_rxfs_checked(&mut self, value: bool) -> (done: Result<(), ()>)
        ensures
            done is Ok,
            final(self)@ == insert(old(self)@ as u64, 0, 1, value as u64),
    {
        self.set_rxfs(value);
        Ok(())
    }

    /// Receiver Frame End Interrupt Mask
    ///
    /// Bits: 1..2
    pub fn rxfe(&self) -> (value: bool)
        ensures
            value == (extract(self@ as u64, 1, 1) != 0),
    {
        extract_u8(self.0, 1, 1) != 0
    }

    /// Returns the register with `rxfe` set to `value`.
    pub fn with_rxfe(self, value: bool) -> (reg: Self)
        ensures
            reg@ == insert(self@ as u64, 1, 1, value as u64),
            (extract(reg@ as u64, 1, 1) != 0) == value,
    {
        proof {
            lemma_low_mask_values();
        }
        Self(insert_u8(self.0, 1, 1, value as u8))
    }

    /// Returns the register with `rxfe` set to `value`. Every value fits the
    /// field, so the result is always `Ok`.
    pub fn with_rxfe_checked(self, value: bool) -> (reg: Result<Self, ()>)
        ensures
            reg is Ok,
            reg.unwrap()@ == insert(self@ as u64, 1, 1, value as u64),
    {
        Ok(self.with_rxfe(value))
    }

    /// Sets `rxfe` to `value`.
    pub fn set_rxfe(&mut self, value: bool)
        ensures
            final(self)@ == insert(old(self)@ as u64, 1, 1, value as u64),
            (extract(final(self)@ as u64, 1, 1) != 0) == value,
    {
        proof {
            lemma_low_mask_values();
        }
        self.0 = insert_u8(self.0, 1, 1, value as u8);
    }

    /// Sets `rxfe` to `value`. Every value fits the field, so the result is
    /// always `Ok`.
    pub fn set_rxfe_checked(&mut self, value: bool) -> (done: Result<(), ()>)
        ensures
            done is Ok,
            final(self)@ == insert(old(self)@ as u64, 1, 1, value as u64),
    {
        self.set_rxfe(value);
        Ok(())
    }

    /// Receiver Address Match Interrupt Mask
    ///
    /// Bits: 2..3
    pub fn rxam(&self) -> (value: bool)
        ensures
            value == (extract(self@ as u64, 2, 1) != 0),
    {
        extract_u8(self.0, 2, 1) != 0
    }

    /// Returns the register with `rxam` set to `value`.
    pub fn with_rxam(self, value: bool) -> (reg: Self)
        ensures
            reg@ == insert(self@ as u64, 2, 1, value as u64),
            (extract(reg@ as u64, 2, 1) != 0) == value,
    {
        proof {
            lemma_low_mask_values();
        }
        Self(insert_u8(self.0, 2, 1, value as u8))
    }

    /// Returns the register with `rxam` set to `value`. Every value fits the
    /// field, so the result is always `Ok`.
    pub fn with_rxam_checked(self, value: bool) -> (reg: Result<Self, ()>)
        ensures
            reg is Ok,
            reg.unwrap()@ == insert(self@ as u64, 2, 1, value as u64),
    {
        Ok(self.with_rxam(value))
    }

    /// Sets `rxam` to `value`.
    pub fn set_rxam(&mut self, value: bool)
        ensures
            final(self)@ == insert(old(self)@ as u64, 2, 1, value as u64),
            (extract(final(self)@ as u64, 2, 1) != 0) == value,
    {
        proof {
            lemma_low_mask_values();
        }
        self.0 = insert_u8(self.0, 2, 1, value as u8);
    }

    /// Sets `rxam` to `value`. Every value fits the field, so the result is
    /// always `Ok`.
    pub fn set_rxam_checked(&mut self, value: bool) -> (done: Result<(), ()>)
        ensures
            done is Ok,
            final(self)@ == insert(old(self)@ as u64, 2, 1, value as u64),
    {
        self.set_rxam(value);
        Ok(())
    }

    /// Receiver Extended Match Interrupt Mask
    ///
    /// Bits: 3..4
    pub fn rxem(&self) -> (value: bool)
        ensures
            value == (extract(self@ as u64, 3, 1) != 0),
    {
        extract_u8(self.0, 3, 1) != 0
    }

    /// Returns the register with `rxem` set to `value`.
    pub fn with_rxem(self, value: bool) -> (reg: Self)
        ensures
            reg@ == insert(self@ as u64, 3, 1, value as u64),
            (extract(reg@ as u64, 3, 1) != 0) == value,
    {
        proof {
            lemma_low_mask_values();
        }
        Self(insert_u8(self.0, 3, 1, value as u8))
    }

    /// Returns the register with `rxem` set to `value`. Every value fits the
    /// field, so the result is always `Ok`.
    pub fn with_rxem_checked(self, value: bool) -> (reg: Result<Self, ()>)
        ensures
            reg is Ok,
            reg.unwrap()@ == insert(self@ as u64, 3, 1, value as u64),
    {
        Ok(self.with_rxem(value))
    }

    /// Sets `rxem` to `value`.
    pub fn set_rxem(&mut self, value: bool)
        ensures
            final(self)@ == insert(old(self)@ as u64, 3, 1, value as u64),
            (extract(final(self)@ as u64, 3, 1) != 0) == value,
    {
        proof {
            lemma_low_mask_values();
        }
        self.0 = insert_u8(self.0, 3, 1, value as u8);
    }

    /// Sets `rxem` to `value`. Every value fits the field, so the result is
    /// always `Ok`.
    pub fn set_rxem_checked(&mut self, value: bool) -> (done: Result<(), ()>)
        ensures
            done is Ok,
            final(self)@ == insert(old(self)@ as u64, 3, 1, value as u64),
    {
        self.set_rxem(value);
        Ok(())
    }

    /// Transmitter Frame End Interrupt Mask
    ///
    /// Bits: 4..5
    pub fn txfe(&self) -> (value: bool)
        ensures
            value == (extract(self@ as u64, 4, 1) != 0),
    {
        extract_u8(self.0, 4, 1) != 0
    }

    /// Returns the register with `txfe` set to `value`.
    pub fn with_txfe(self, value: bool) -> (reg: Self)
        ensures
            reg@ == insert(self@ as u64, 4, 1, value as u64),
            (extract(reg@ as u64, 4, 1) != 0) == value,
    {
        proof {
            lemma_low_mask_values();
        }
        Self(insert_u8(self.0, 4, 1, value as u8))
    }

    /// Returns the register with `txfe` set to `value`. Every value fits the
    /// field, so the result is always `Ok`.
    pub fn with_txfe_checked(self, value: bool) -> (reg: Result<Self, ()>)
        ensures
            reg is Ok,
            reg.unwrap()@ == insert(self@ as u64, 4, 1, value as u64),
    {
        Ok(self.with_txfe(value))
    }

    /// Sets `txfe` to `value`.
    pub fn set_txfe(&mut self, value: bool)
        ensures
            final(self)@ == insert(old(self)@ as u64, 4, 1, value as u64),
            (extract(final(self)@ as u64, 4, 1) != 0) == value,
    {
        proof {
            lemma_low_mask_values();
        }
        self.0 = insert_u8(self.0, 4, 1, value as u8);
    }

    /// Sets `txfe` to `value`. Every value fits the field, so the result is
    /// always `Ok`.
    pub fn set_txfe_checked(&mut self, value: bool) -> (done: Result<(), ()>)
        ensures
            done is Ok,
            final(self)@ == insert(old(self)@ as u64, 4, 1, value as u64),
    {
        self.set_txfe(value);
        Ok(())
    }

    /// AGC Hold Interrupt Mask
    ///
    /// Bits: 5..6
    pub fn agch(&self) -> (value: bool)
        ensures
            value == (extract(self@ as u64, 5, 1) != 0),
    {
        extract_u8(self.0, 5, 1) != 0
    }

    /// Returns the register with `agch` set to `value`.
    pub fn with_agch(self, value: bool) -> (reg: Self)
        ensures
            reg@ == insert(self@ as u64, 5, 1, value as u64),
            (extract(reg@ as u64, 5, 1) != 0) == value,
    {
        proof {
            lemma_low_mask_values();
        }
        Self(insert_u8(self.0, 5, 1, value as u8))
    }

    /// Returns the register with `agch` set to `value`. Every value fits the
    /// field, so the result is always `Ok`.
    pub fn with_agch_checked(self, value: bool) -> (reg: Result<Self, ()>)
        ensures
            reg is Ok,
            reg.unwrap()@ == insert(self@ as u64, 5, 1, value as u64),
    {
        Ok(self.with_agch(value))
    }

    /// Sets `agch` to `value`.
    pub fn set_agch(&mut self, value: bool)
        ensures
            final(self)@ == insert(old(self)@ as u64, 5, 1, value as u64),
            (extract(final(self)@ as u64, 5, 1) != 0) == value,
    {
        proof {
            lemma_low_mask_values();
        }
        self.0 = insert_u8(self.0, 5, 1, value as u8);
    }

    /// Sets `agch` to `value`. Every value fits the field, so the result is
    /// always `Ok`.
    pub fn set_agch_checked(&mut self, value: bool) -> (done: Result<(), ()>)
        ensures
            done is Ok,
            final(self)@ == insert(old(self)@ as u64, 5, 1, value as u64),
    {
        self.set_agch(value);
        Ok(())
    }

    /// AGC Release Interrupt Mask
    ///
    /// Bits: 6..7
    pub fn agcr(&self) -> (value: bool)
        ensures
            value == (extract(self@ as u64, 6, 1) != 0),
    {
        extract_u8(self.0, 6, 1) != 0
    }

    /// Returns the register with `agcr` set to `value`.
    pub fn with_agcr(self, value: bool) -> (reg: Self)
        ensures
            reg@ == insert(self@ as u64, 6, 1, value as u64),
            (extract(reg@ as u64, 6, 1) != 0) == value,
    {
        proof {
            lemma_low_mask_values();
        }
        Self(insert_u8(self.0, 6, 1, value as u8))
    }

    /// Returns the register with `agcr` set to `value`. Every value fits the
    /// field, so the result is always `Ok`.
    pub fn with_agcr_checked(self, value: bool) -> (reg: Result<Self, ()>)
        ensures
            reg is Ok,
            reg.unwrap()@ == insert(self@ as u64, 6, 1, value as u64),
    {
        Ok(self.with_agcr(value))
    }

    /// Sets `agcr` to `value`.
    pub fn set_agcr(&mut self, value: bool)
        ensures
            final(self)@ == insert(old(self)@ as u64, 6, 1, value as u64),
            (extract(final(self)@ as u64, 6, 1) != 0) == value,
    {
        proof {
            lemma_low_mask_values();
        }
        self.0 = insert_u8(self.0, 6, 1, value as u8);
    }

    /// Sets `agcr` to `value`. Every value fits the field, so the result is
    /// always `Ok`.
    pub fn set_agcr_checked(&mut self, value: bool) -> (done: Result<(), ()>)
        ensures
            done is Ok,
            final(self)@ == insert(old(self)@ as u64, 6, 1, value as u64),
    {
        self.set_agcr(value);
        Ok(())
    }

    /// Frame Buffer Level Indication Interrupt Mask
    ///
    /// Bits: 7..8
    pub fn fbli(&self) -> (value: bool)
        ensures
            value == (extract(self@ as u64, 7, 1) != 0),
    {
        extract_u8(self.0, 7, 1) != 0
    }

    /// Returns the register with `fbli` set to `value`.
    pub fn with_fbli(self, value: bool) -> (reg: Self)
        ensures
            reg@ == insert(self@ as u64, 7, 1, value as u64),
            (extract(reg@ as u64, 7, 1) != 0) == value,
    {
        proof {
            lemma_low_mask_values();
        }
        Self(insert_u8(self.0, 7, 1, value as u8))
    }

    /// Returns the register with `fbli` set to `value`. Every value fits the
    /// field, so the result is always `Ok`.
    pub fn with_fbli_checked(self, value: bool) -> (reg: Result<Self, ()>)
        ensures
            reg is Ok,
            reg.unwrap()@ == insert(self@ as u64, 7, 1, value as u64),
    {
        Ok(self.with_fbli(value))
    }

    /// Sets `fbli` to `value`.
    pub fn set_fbli(&mut self, value: bool)
        ensures
            final(self)@ == insert(old(self)@ as u64, 7, 1, value as u64),
            (extract(final(self)@ as u64, 7, 1) != 0) == value,
    {
        proof {
            lemma_low_mask_values();
        }
        self.0 = insert_u8(self.0, 7, 1, value as u8);
    }

    /// Sets `fbli` to `value`. Every value fits the field, so the result is
    /// always `Ok`.
    pub fn set_fbli_checked(&mut self, value: bool) -> (done: Result<(), ()>)
        ensures
            done is Ok,
            final(self)@ == insert(old(self)@ as u64, 7, 1, value as u64),
    {
        self.set_fbli(value);
        Ok(())
    }
}

impl Default for BbcnIrqm {
    fn default() -> (reg: Self)
        ensures
            reg@ == 0,
    {
        Self::new()
    }
}

impl From<u8> for BbcnIrqm {
    fn from(v: u8) -> (reg: Self) {
        Self(v)
    }
}

impl FromSpecImpl<u8> for BbcnIrqm {
    open spec fn obeys_from_spec() -> bool {
        true
    }

    open spec fn from_spec(v: u8) -> Self {
        BbcnIrqm(v)
    }
}

impl From<BbcnIrqm> for u8 {
    fn from(v: BbcnIrqm) -> (bits: u8) {
        v.0
    }
}

impl FromSpecImpl<BbcnIrqm> for u8 {
    open spec fn obeys_from_spec() -> bool {
        true
    }

    open spec fn from_spec(v: BbcnIrqm) -> u8 {
        v.0
    }
}

} // verus!
