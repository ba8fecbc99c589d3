//! Register slots and the catalog of register layouts.
//!
//! A slot binds a register value to its bus address and byte width, both
//! fixed in the slot's type. The slot's kind decides which transactions it
//! can build: [`ReadOnly`] builds reads, [`WriteOnly`] builds writes and
//! [`ReadWrite`] builds both.

pub mod baseband;
pub mod common;
pub mod counter;
pub mod fields;
pub mod fsk;
pub mod irq;
pub mod mac;
pub mod pmu;
pub mod rf;

pub use self::baseband::{
    BbcnFbl, BbcnFbli, BbcnOfdmc, BbcnOfdmphrrx, BbcnOfdmphrtx, BbcnOfdmsw, BbcnOqpskc0,
    BbcnOqpskc1, BbcnOqpskc2, BbcnOqpskc3, BbcnOqpskphrrx, BbcnOqpskphrtx, BbcnPc, BbcnPs,
    BbcnRxfl, BbcnTxfl,
};
pub use self::common::{
    RfBmdvc, RfCfg, RfClko, RfIqifc0, RfIqifc1, RfIqifc2, RfPn, RfRst, RfVn, RfXoc,
};
pub use self::counter::{BbcnCnt, BbcnCntc};
pub use self::fields::{
    ChipMode, ChipResetCmd, DevicePartNumber, EnergyDetectionMode, TransceiverCmd, TransceiverState,
};
pub use self::fsk::{
    BbcnFskc0, BbcnFskc1, BbcnFskc2, BbcnFskc3, BbcnFskc4, BbcnFskdm, BbcnFskpe, BbcnFskphrrx,
    BbcnFskphrtx, BbcnFskpll, BbcnFskrpc, BbcnFskrpcofft, BbcnFskrpcont, BbcnFskrrxfl, BbcnFsksfd,
};
pub use self::irq::{BbcnIrqm, BbcnIrqs};
pub use self::mac::{
    BbcnAfc0, BbcnAfc1, BbcnAfftm, BbcnAffvm, BbcnAfs, BbcnAmaackpd, BbcnAmaackt, BbcnAmcs,
    BbcnAmedt, BbcnMacea, BbcnMacpid, BbcnMacsha,
};
pub use self::pmu::{BbcnPmuc, BbcnPmui, BbcnPmuq, BbcnPmuqf, BbcnPmuval};
pub use self::rf::{
    RfnAgcc, RfnAgcs, RfnAuxs, RfnCcf0, RfnCmd, RfnCn, RfnCs, RfnEdc, RfnEdd, RfnEdv, RfnIrqm,
    RfnIrqs, RfnPac, RfnPadfe, RfnPll, RfnPllcf, RfnRndv, RfnRssi, RfnRxbwc, RfnRxdfe, RfnState,
    RfnTxci, RfnTxcq, RfnTxcutc, RfnTxdaci, RfnTxdacq, RfnTxdfe,
};

use vstd::prelude::*;
use vstd::std_specs::convert::IntoSpec;
use crate::codec::{le_bytes, lemma_le_bytes_len, ToLeVec};
use crate::header::{
    generate_read_header, generate_write_header, lemma_read_header_in_range,
    lemma_write_header_is_read_header_with_marker, read_header, write_header,
};

verus! {

/// The bytes of a read transaction: the read header and `width` filler bytes,
/// each zero.
pub open spec fn read_transaction(addr: u16, width: nat) -> Seq<u8> {
    read_header(addr) + Seq::new(width, |i: int| 0u8)
}

/// The bytes of a write transaction: the write header and the payload.
pub open spec fn write_transaction(addr: u16, payload: Seq<u8>) -> Seq<u8> {
    write_header(addr) + payload
}

/// A read transaction for a register of `width` bytes has `2 + width` bytes:
/// the header, then nothing but zero bytes. For an address inside the 14-bit
/// address space the header is the address, high byte first, with the two
/// kind bits clear.
pub proof fn lemma_read_transaction_bytes(addr: u16, width: nat)
    ensures
        read_transaction(addr, width).len() == 2 + width,
        read_transaction(addr, width).subrange(0, 2) == read_header(addr),
        forall|i: int| 2 <= i < 2 + width ==> read_transaction(addr, width)[i] == 0,
        addr <= 0x3FFF ==> read_transaction(addr, width)[0] == ((addr >> 8) & 0xFF) as u8,
        addr <= 0x3FFF ==> read_transaction(addr, width)[1] == (addr & 0xFF) as u8,
        addr <= 0x3FFF ==> read_transaction(addr, width)[0] & 0xC0 == 0,
{
    assert(read_transaction(addr, width).subrange(0, 2) =~= read_header(addr));
    if addr <= 0x3FFF {
        lemma_read_header_in_range(addr);
    }
}

/// A write transaction has the bytes of its payload behind a header that is
/// the read header of the same address with bit 15 set: the first byte gains
/// bit 7, the second byte is the same.
pub proof fn lemma_write_transaction_bytes(addr: u16, payload: Seq<u8>)
    ensures
        write_transaction(addr, payload).len() == 2 + payload.len(),
        write_transaction(addr, payload).subrange(0, 2) == write_header(addr),
        write_transaction(addr, payload).subrange(2, 2 + payload.len() as int) == payload,
        write_transaction(addr, payload)[0] == read_header(addr)[0] | 0x80,
        write_transaction(addr, payload)[1] == read_header(addr)[1],
{
    assert(write_transaction(addr, payload).subrange(0, 2) =~= write_header(addr));
    assert(write_transaction(addr, payload).subrange(2, 2 + payload.len() as int) =~= payload);
    lemma_write_header_is_read_header_with_marker(addr);
}

/// Builds a read transaction of `width` filler bytes at `addr`.
fn build_read_command(addr: u16, width: usize) -> (cmd: Vec<u8>)
    requires
        width + 2 <= isize::MAX,
    ensures
        cmd@ == read_transaction(addr, width as nat),
{
    let header = generate_read_header(addr);
    let mut cmd: Vec<u8> = Vec::with_capacity(2 + width);
    cmd.push(header[0]);
    cmd.push(header[1]);
    cmd.resize(2 + width, 0x00);
    assert(cmd@ =~= read_transaction(addr, width as nat)) by {
        assert(cmd@.subrange(0, 2) =~= read_header(addr));
        assert forall|i: int| 0 <= i < cmd@.len() implies cmd@[i] == read_transaction(
            addr,
            width as nat,
        )[i] by {
            if i < 2 {
                assert(cmd@[i] == cmd@.subrange(0, 2)[i]);
            }
        }
    }
    cmd
}

/// Joins a header and a payload into one transaction.
pub fn build_write_command(header: [u8; 2], value_bytes: Vec<u8>) -> (cmd: Vec<u8>)
    requires
        value_bytes@.len() + 2 <= isize::MAX,
    ensures
        cmd@ == header@ + value_bytes@,
{
    let mut payload = value_bytes;
    let mut cmd: Vec<u8> = Vec::with_capacity(2 + payload.len());
    cmd.push(header[0]);
    cmd.push(header[1]);
    cmd.append(&mut payload);
    assert(cmd@ =~= header@ + value_bytes@);
    cmd
}

/// Builds the write transaction that carries `bits` to `addr`.
fn write_bits<B: ToLeVec>(addr: u16, bits: B) -> (cmd: Vec<u8>)
    requires
        B::wire_width() <= 8,
    ensures
        cmd@ == write_transaction(addr, le_bytes(bits.wire_value(), B::wire_width())),
        cmd@.len() == 2 + B::wire_width(),
        cmd@.subrange(0, 2) == write_header(addr),
{
    let payload = bits.to_le_vec();
    proof {
        lemma_le_bytes_len(bits.wire_value(), B::wire_width());
    }
    let cmd = build_write_command(generate_write_header(addr), payload);
    assert(cmd@.subrange(0, 2) =~= write_header(addr));
    cmd
}

/// A register that the host can only read.
#[derive(Debug, Clone, Copy, PartialEq, Eq)]
pub struct ReadOnly<T, const ADDR: u16, const SIZE: usize> {
    pub value: T,
}

impl<T, const ADDR: u16, const SIZE: usize> ReadOnly<T, ADDR, SIZE> {
    /// A slot that holds `value`.
    pub fn new(value: T) -> (slot: Self)
        ensures
            slot.value == value,
    {
        Self { value }
    }

    /// The register's bus address.
    pub fn address(&self) -> (addr: u16)
        ensures
            addr == ADDR,
    {
        ADDR
    }

    /// The register's width in bytes.
    pub fn size(&self) -> (width: usize)
        ensures
            width == SIZE,
    {
        SIZE
    }

    /// The transaction that reads this register.
    pub fn read_command(&self) -> (cmd: Vec<u8>)
        requires
            SIZE + 2 <= isize::MAX,
        ensures
            cmd@ == read_transaction(ADDR, SIZE as nat),
    {
        build_read_command(ADDR, SIZE)
    }
}

/// A register that the host can read and write.
#[derive(Debug, Clone, Copy, PartialEq, Eq)]
pub struct ReadWrite<T, const ADDR: u16, const SIZE: usize> {
    pub value: T,
}

impl<T, const ADDR: u16, const SIZE: usize> ReadWrite<T, ADDR, SIZE> {
    /// A slot that holds `value`.
    pub fn new(value: T) -> (slot: Self)
        ensures
            slot.value == value,
    {
        Self { value }
    }

    /// The register's bus address.
    pub fn address(&self) -> (addr: u16)
        ensures
            addr == ADDR,
    {
        ADDR
    }

    /// The register's width in bytes.
    pub fn size(&self) -> (width: usize)
        ensures
            width == SIZE,
    {
        SIZE
    }

    /// The transaction that reads this register.
    pub fn read_command(&self) -> (cmd: Vec<u8>)
        requires
            SIZE + 2 <= isize::MAX,
        ensures
            cmd@ == read_transaction(ADDR, SIZE as nat),
    {
        build_read_command(ADDR, SIZE)
    }
}

/// A register that the host can only write.
#[derive(Debug, Clone, Copy, PartialEq, Eq)]
pub struct WriteOnly<T, const ADDR: u16, const SIZE: usize> {
    pub value: T,
}

impl<T, const ADDR: u16, const SIZE: usize> WriteOnly<T, ADDR, SIZE> {
    /// A slot that holds `value`.
    pub fn new(value: T) -> (slot: Self)
        ensures
            slot.value == value,
    {
        Self { value }
    }

    /// The register's bus address.
    pub fn address(&self) -> (addr: u16)
        ensures
            addr == ADDR,
    {
        ADDR
    }

    /// The register's width in bytes.
    pub fn size(&self) -> (width: usize)
        ensures
            width == SIZE,
    {
        SIZE
    }
}

impl<T: Copy + Into<u8>, const ADDR: u16, const SIZE: usize> WriteOnly<T, ADDR, SIZE> {
    /// The transaction that writes the slot's value to a one-byte register.
    ///
    /// The payload is the value's `u8` form, least significant byte first. The
    /// register must be one byte wide, as the value is.
    pub fn write_command(&self) -> (cmd: Vec<u8>)
        requires
            SIZE == 1,
        ensures
            cmd@.len() == 2 + SIZE,
            cmd@.subrange(0, 2) == write_header(ADDR),
            T::obeys_into_spec() ==> cmd@ == write_transaction(
                ADDR,
                le_bytes(self.value.into_spec() as nat, SIZE as nat),
            ),
    {
        let bits: u8 = self.value.into();
        write_bits(ADDR, bits)
    }
}

impl<T: Copy + Into<u16>, const ADDR: u16, const SIZE: usize> WriteOnly<T, ADDR, SIZE> {
    /// The transaction that writes the slot's value to a two-byte register.
    ///
    /// The payload is the value's `u16` form, least significant byte first. The
    /// register must be two bytes wide, as the value is.
    pub fn write_command_u16(&self) -> (cmd: Vec<u8>)
        requires
            SIZE == 2,
        ensures
            cmd@.len() == 2 + SIZE,
            cmd@.subrange(0, 2) == write_header(ADDR),
            T::obeys_into_spec() ==> cmd@ == write_transaction(
                ADDR,
                le_bytes(self.value.into_spec() as nat, SIZE as nat),
            ),
    {
        let bits: u16 = self.value.into();
        write_bits(ADDR, bits)
    }
}

impl<T: Copy + Into<u32>, const ADDR: u16, const SIZE: usize> WriteOnly<T, ADDR, SIZE> {
    /// The transaction that writes the slot's value to a four-byte register.
    ///
    /// The payload is the value's `u32` form, least significant byte first. The
    /// register must be four bytes wide, as the value is.
    pub fn write_command_u32(&self) -> (cmd: Vec<u8>)
        requires
            SIZE == 4,
        ensures
            cmd@.len() == 2 + SIZE,
            cmd@.subrange(0, 2) == write_header(ADDR),
            T::obeys_into_spec() ==> cmd@ == write_transaction(
                ADDR,
                le_bytes(self.value.into_spec() as nat, SIZE as nat),
            ),
    {
        let bits: u32 = self.value.into();
        write_bits(ADDR, bits)
    }
}

impl<T: Copy + Into<u64>, const ADDR: u16, const SIZE: usize> WriteOnly<T, ADDR, SIZE> {
    /// The transaction that writes the slot's value to an eight-byte register.
    ///
    /// The payload is the value's `u64` form, least significant byte first. The
    /// register must be eight bytes wide, as the value is.
    pub fn write_command_u64(&self) -> (cmd: Vec<u8>)
        requires
            SIZE == 8,
        ensures
            cmd@.len() == 2 + SIZE,
            cmd@.subrange(0, 2) == write_header(ADDR),
            T::obeys_into_spec() ==> cmd@ == write_transaction(
                ADDR,
                le_bytes(self.value.into_spec() as nat, SIZE as nat),
            ),
    {
        let bits: u64 = self.value.into();
        write_bits(ADDR, bits)
    }
}

impl<T: Copy + Into<u8>, const ADDR: u16, const SIZE: usize> ReadWrite<T, ADDR, SIZE> {
    /// The transaction that writes the slot's value to a one-byte register.
    ///
    /// The payload is the value's `u8` form, least significant byte first. The
    /// register must be one byte wide, as the value is.
    pub fn write_command(&self) -> (cmd: Vec<u8>)
        requires
            SIZE == 1,
        ensures
            cmd@.len() == 2 + SIZE,
            cmd@.subrange(0, 2) == write_header(ADDR),
            T::obeys_into_spec() ==> cmd@ == write_transaction(
                ADDR,
                le_bytes(self.value.into_spec() as nat, SIZE as nat),
            ),
    {
        let bits: u8 = self.value.into();
        write_bits(ADDR, bits)
    }
}

impl<T: Copy + Into<u16>, const ADDR: u16, const SIZE: usize> ReadWrite<T, ADDR, SIZE> {
    /// The transaction that writes the slot's value to a two-byte register.
    ///
    /// The payload is the value's `u16` form, least significant byte first. The
    /// register must be two bytes wide, as the value is.
    pub fn write_command_u16(&self) -> (cmd: Vec<u8>)
        requires
            SIZE == 2,
        ensures
            cmd@.len() == 2 + SIZE,
            cmd@.subrange(0, 2) == write_header(ADDR),
            T::obeys_into_spec() ==> cmd@ == write_transaction(
                ADDR,
                le_bytes(self.value.into_spec() as nat, SIZE as nat),
            ),
    {
        let bits: u16 = self.value.into();
        write_bits(ADDR, bits)
    }
}

impl<T: Copy + Into<u32>, const ADDR: u16, const SIZE: usize> ReadWrite<T, ADDR, SIZE> {
    /// The transaction that writes the slot's value to a four-byte register.
    ///
    /// The payload is the value's `u32` form, least significant byte first. The
    /// register must be four bytes wide, as the value is.
    pub fn write_command_u32(&self) -> (cmd: Vec<u8>)
        requires
            SIZE == 4,
        ensures
            cmd@.len() == 2 + SIZE,
            cmd@.subrange(0, 2) == write_header(ADDR),
            T::obeys_into_spec() ==> cmd@ == write_transaction(
                ADDR,
                le_bytes(self.value.into_spec() as nat, SIZE as nat),
            ),
    {
        let bits: u32 = self.value.into();
        write_bits(ADDR, bits)
    }
}

impl<T: Copy + Into<u64>, const ADDR: u16, const SIZE: usize> ReadWrite<T, ADDR, SIZE> {
    /// The transaction that writes the slot's value to an eight-byte register.
    ///
    /// The payload is the value's `u64` form, least significant byte first. The
    /// register must be eight bytes wide, as the value is.
    pub fn write_command_u64(&self) -> (cmd: Vec<u8>)
        requires
            SIZE == 8,
        ensures
            cmd@.len() == 2 + SIZE,
            cmd@.subrange(0, 2) == write_header(ADDR),
            T::obeys_into_spec() ==> cmd@ == write_transaction(
                ADDR,
                le_bytes(self.value.into_spec() as nat, SIZE as nat),
            ),
    {
        let bits: u64 = self.value.into();
        write_bits(ADDR, bits)
    }
}

/// A slot whose register the host may write.
pub trait Writable {
    /// The type of the register's value.
    type Value: Copy;

    /// The register's bus address.
    spec fn slot_address(&self) -> u16;

    /// The register's width in bytes.
    spec fn slot_size(&self) -> usize;

    /// The value that the slot holds.
    spec fn slot_value(&self) -> Self::Value;

    /// The register's bus address.
    fn write_address(&self) -> (addr: u16)
        ensures
            addr == self.slot_address(),
    ;

    /// The value to write.
    fn write_value(&self) -> (value: Self::Value)
        ensures
            value == self.slot_value(),
    ;
}

impl<T: Copy, const ADDR: u16, const SIZE: usize> Writable for WriteOnly<T, ADDR, SIZE> {
    type Value = T;

    open spec fn slot_address(&self) -> u16 {
        ADDR
    }

    open spec fn slot_size(&self) -> usize {
        SIZE
    }

    open spec fn slot_value(&self) -> T {
        self.value
    }

    fn write_address(&self) -> (addr: u16) {
        ADDR
    }

    fn write_value(&self) -> (value: T) {
        self.value
    }
}

impl<T: Copy, const ADDR: u16, const SIZE: usize> Writable for ReadWrite<T, ADDR, SIZE> {
    type Value = T;

    open spec fn slot_address(&self) -> u16 {
        ADDR
    }

    open spec fn slot_size(&self) -> usize {
        SIZE
    }

    open spec fn slot_value(&self) -> T {
        self.value
    }

    fn write_address(&self) -> (addr: u16) {
        ADDR
    }

    fn write_value(&self) -> (value: T) {
        self.value
    }
}

} // verus!
