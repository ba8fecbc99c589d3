//! Transaction headers.
//!
//! Every bus transaction starts with a 16-bit header, sent most significant
//! byte first. Bits 15:14 hold the operation kind (`00` read, `10` write) and
//! bits 13:0 hold the register address. Address bits above bit 13 are dropped.

use vstd::prelude::*;

verus! {

/// Mask that keeps the 14 address bits of a header.
pub const ADDRESS_MASK: u16 = 0x3FFF;

/// Header bit pattern that marks a write transaction.
pub const WRITE_MARKER: u16 = 0x8000;

/// The 14-bit address that is sent for `addr`.
pub open spec fn masked_address(addr: u16) -> nat {
    (addr as nat) % 0x4000
}

/// The header of a read transaction, as a 16-bit word.
pub open spec fn read_header_word(addr: u16) -> nat {
    masked_address(addr)
}

/// The header of a write transaction, as a 16-bit word.
pub open spec fn write_header_word(addr: u16) -> nat {
    0x8000 + masked_address(addr)
}

/// The two bytes of a header word, most significant byte first.
pub open spec fn header_bytes(word: nat) -> Seq<u8> {
    seq![(word / 256) as u8, (word % 256) as u8]
}

/// The bytes of the read header for `addr`.
pub open spec fn read_header(addr: u16) -> Seq<u8> {
    header_bytes(read_header_word(addr))
}

/// The bytes of the write header for `addr`.
pub open spec fn write_header(addr: u16) -> Seq<u8> {
    header_bytes(write_header_word(addr))
}

/// Splits a header word into its two bytes, most significant first.
fn split_word(word: u16) -> (bytes: [u8; 2])
    ensures
        bytes@ == header_bytes(word as nat),
{
    let high: u16 = word >> 8;
    let low: u16 = word & 0xFF;
    assert(high == word / 256 && low == word % 256) by (bit_vector)
        requires
            high == word >> 8,
            low == word & 0xFF,
    ;
    let bytes = [high as u8, low as u8];
    assert(bytes@ =~= header_bytes(word as nat));
    bytes
}

/// Builds the header of a read transaction at `addr`.
///
/// The address is reduced to 14 bits; the two kind bits stay `00`.
pub fn generate_read_header(addr: u16) -> (header: [u8; 2])
    ensures
        header@ == read_header(addr),
{
    let cmd: u16 = addr & ADDRESS_MASK;
    assert(cmd == addr % 0x4000) by (bit_vector)
        requires
            cmd == addr & 0x3FFF,
    ;
    split_word(cmd)
}

/// Builds the header of a write transaction at `addr`.
///
/// The address is reduced to 14 bits and the kind bits are set to `10`.
pub fn generate_write_header(addr: u16) -> (header: [u8; 2])
    ensures
        header@ == write_header(addr),
{
    let masked: u16 = addr & ADDRESS_MASK;
    let cmd: u16 = WRITE_MARKER | masked;
    assert(masked == addr % 0x4000 && cmd == 0x8000 + masked) by (bit_vector)
        requires
            masked == addr & 0x3FFF,
            cmd == 0x8000u16 | masked,
    ;
    split_word(cmd)
}

/// A header has exactly two bytes.
pub proof fn lemma_header_len(addr: u16)
    ensures
        read_header(addr).len() == 2,
        write_header(addr).len() == 2,
{
}

/// For an address inside the 14-bit address space the read header is the
/// address itself, high byte first, and its two kind bits are clear.
pub proof fn lemma_read_header_in_range(addr: u16)
    requires
        addr <= 0x3FFF,
    ensures
        read_header(addr)[0] == ((addr >> 8) & 0xFF) as u8,
        read_header(addr)[1] == (addr & 0xFF) as u8,
        read_header(addr)[0] & 0xC0 == 0,
{
    let high: u16 = (addr >> 8) & 0xFF;
    let low: u16 = addr & 0xFF;
    assert(high == addr / 256 && low == addr % 256 && high < 0x40) by (bit_vector)
        requires
            addr <= 0x3FFF,
            high == (addr >> 8) & 0xFF,
            low == addr & 0xFF,
    ;
    let first: u8 = read_header(addr)[0];
    assert(first & 0xC0 == 0) by (bit_vector)
        requires
            first < 0x40,
    ;
}

/// The write header is the read header with bit 15 set: the first byte gains
/// bit 7 and nothing else changes. No header has bit 14 set, and a read
/// header never has bit 15 set.
pub proof fn lemma_write_header_is_read_header_with_marker(addr: u16)
    ensures
        write_header_word(addr) == ((read_header_word(addr) as u16) | 0x8000) as nat,
        write_header(addr)[0] == read_header(addr)[0] | 0x80,
        write_header(addr)[1] == read_header(addr)[1],
        read_header(addr)[0] & 0xC0 == 0,
        write_header(addr)[0] & 0xC0 == 0x80,
{
    let word: u16 = read_header_word(addr) as u16;
    assert((word | 0x8000) == 0x8000 + word) by (bit_vector)
        requires
            word < 0x4000,
    ;
    let r0: u8 = read_header(addr)[0];
    let w0: u8 = write_header(addr)[0];
    assert(w0 == r0 + 0x80);
    assert(r0 | 0x80 == r0 + 0x80 && r0 & 0xC0 == 0 && (r0 | 0x80) & 0xC0 == 0x80) by (bit_vector)
        requires
            r0 < 0x40,
    ;
}

} // verus!
