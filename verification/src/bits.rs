//! Bit fields inside a register value.
//!
//! A field is `width` consecutive bits that start at bit `offset`, counted
//! from the least significant bit. The definitions work on 64-bit words; the
//! executable functions exist once for each register width.

use vstd::prelude::*;

verus! {

/// The word whose `width` low bits are set.
pub open spec fn low_mask(width: u32) -> u64 {
    u64::MAX >> ((64 - width) as u32)
}

/// The field of `raw` at `offset`, moved down to bit 0.
pub open spec fn extract(raw: u64, offset: u32, width: u32) -> u64 {
    (raw >> offset) & low_mask(width)
}

/// `raw` with the field at `offset` replaced by the low bits of `value`.
pub open spec fn insert(raw: u64, offset: u32, width: u32, value: u64) -> u64 {
    (raw & !(low_mask(width) << offset)) | ((value & low_mask(width)) << offset)
}

/// The number that an 8-bit field holds in two's complement.
pub open spec fn signed8(raw: u64) -> int {
    if raw >= 0x80 {
        raw - 0x100
    } else {
        raw as int
    }
}

/// The largest value of a field, for the widths that occur in a register of
/// up to 16 bits and for the full 32- and 64-bit words.
pub proof fn lemma_low_mask_values()
    by (bit_vector)
    ensures
        low_mask(1) == 0x1,
        low_mask(2) == 0x3,
        low_mask(3) == 0x7,
        low_mask(4) == 0xF,
        low_mask(5) == 0x1F,
        low_mask(6) == 0x3F,
        low_mask(7) == 0x7F,
        low_mask(8) == 0xFF,
        low_mask(9) == 0x1FF,
        low_mask(10) == 0x3FF,
        low_mask(11) == 0x7FF,
        low_mask(12) == 0xFFF,
        low_mask(13) == 0x1FFF,
        low_mask(14) == 0x3FFF,
        low_mask(15) == 0x7FFF,
        low_mask(16) == 0xFFFF,
        low_mask(32) == 0xFFFF_FFFF,
        low_mask(64) == 0xFFFF_FFFF_FFFF_FFFF,
{
}

/// An extracted field fits its width.
pub proof fn lemma_extract_bound(raw: u64, offset: u32, width: u32)
    by (bit_vector)
    requires
        1 <= width <= 64,
    ensures
        extract(raw, offset, width) <= low_mask(width),
{
}

/// Writing a field that lies inside the low `bits` bits of a word keeps a
/// word that fits `bits` bits within them.
pub proof fn lemma_insert_bound(raw: u64, offset: u32, width: u32, value: u64, bits: u32)
    by (bit_vector)
    requires
        1 <= width,
        offset + width <= bits,
        bits <= 64,
        raw <= low_mask(bits),
    ensures
        insert(raw, offset, width, value) <= low_mask(bits),
{
}

/// Reading a field that was just written gives the written value.
pub proof fn lemma_extract_insert(raw: u64, offset: u32, width: u32, value: u64)
    by (bit_vector)
    requires
        1 <= width,
        offset + width <= 64,
        value <= low_mask(width),
    ensures
        extract(insert(raw, offset, width, value), offset, width) == value,
{
}

/// Writing a field leaves every field that does not overlap it unchanged.
#[verifier::rlimit(40)]
pub proof fn lemma_insert_keeps_other_field(
    raw: u64,
    offset: u32,
    width: u32,
    value: u64,
    other_offset: u32,
    other_width: u32,
)
    by (bit_vector)
    requires
        1 <= width,
        offset + width <= 64,
        1 <= other_width,
        other_offset + other_width <= 64,
        offset + width <= other_offset || other_offset + other_width <= offset,
    ensures
        extract(insert(raw, offset, width, value), other_offset, other_width) == extract(
            raw,
            other_offset,
            other_width,
        ),
{
}

/// Writing a field changes no bit outside the field.
pub proof fn lemma_insert_keeps_outside_bits(raw: u64, offset: u32, width: u32, value: u64)
    by (bit_vector)
    requires
        1 <= width,
        offset + width <= 64,
    ensures
        insert(raw, offset, width, value) & !(low_mask(width) << offset) == raw & !(low_mask(width)
            << offset),
{
}

/// Writing back the value that a field holds changes nothing.
pub proof fn lemma_insert_extract(raw: u64, offset: u32, width: u32)
    by (bit_vector)
    requires
        1 <= width,
        offset + width <= 64,
    ensures
        insert(raw, offset, width, extract(raw, offset, width)) == raw,
{
}

/// Reads a field of an 8-bit register.
pub fn extract_u8(raw: u8, offset: u32, width: u32) -> (field: u8)
    requires
        1 <= width,
        offset + width <= 8,
    ensures
        field == extract(raw as u64, offset, width),
{
    let mask: u8 = u8::MAX >> (8 - width);
    let field: u8 = (raw >> offset) & mask;
    assert(field == extract(raw as u64, offset, width)) by (bit_vector)
        requires
            1 <= width,
            offset + width <= 8,
            field == (raw >> offset) & (0xFFu8 >> ((8 - width) as u32)),
    ;
    field
}

/// Writes a field of an 8-bit register. Bits of `value` beyond the field's
/// width are dropped.
pub fn insert_u8(raw: u8, offset: u32, width: u32, value: u8) -> (out: u8)
    requires
        1 <= width,
        offset + width <= 8,
    ensures
        out == insert(raw as u64, offset, width, value as u64),
        value <= low_mask(width) ==> extract(out as u64, offset, width) == value,
{
    let mask: u8 = u8::MAX >> (8 - width);
    let out: u8 = (raw & !(mask << offset)) | ((value & mask) << offset);
    assert(out == insert(raw as u64, offset, width, value as u64)) by (bit_vector)
        requires
            1 <= width,
            offset + width <= 8,
            out == (raw & !((0xFFu8 >> ((8 - width) as u32)) << offset)) | ((value & (0xFFu8 >> ((8
                - width) as u32))) << offset),
    ;
    proof {
        if value <= low_mask(width) {
            lemma_extract_insert(raw as u64, offset, width, value as u64);
        }
    }
    out
}

/// Reads a field of a 16-bit register.
pub fn extract_u16(raw: u16, offset: u32, width: u32) -> (field: u16)
    requires
        1 <= width,
        offset + width <= 16,
    ensures
        field == extract(raw as u64, offset, width),
{
    let mask: u16 = u16::MAX >> (16 - width);
    let field: u16 = (raw >> offset) & mask;
    assert(field == extract(raw as u64, offset, width)) by (bit_vector)
        requires
            1 <= width,
            offset + width <= 16,
            field == (raw >> offset) & (0xFFFFu16 >> ((16 - width) as u32)),
    ;
    field
}

/// Writes a field of a 16-bit register. Bits of `value` beyond the field's
/// width are dropped.
pub fn insert_u16(raw: u16, offset: u32, width: u32, value: u16) -> (out: u16)
    requires
        1 <= width,
        offset + width <= 16,
    ensures
        out == insert(raw as u64, offset, width, value as u64),
        value <= low_mask(width) ==> extract(out as u64, offset, width) == value,
{
    let mask: u16 = u16::MAX >> (16 - width);
    let out: u16 = (raw & !(mask << offset)) | ((value & mask) << offset);
    assert(out == insert(raw as u64, offset, width, value as u64)) by (bit_vector)
        requires
            1 <= width,
            offset + width <= 16,
            out == (raw & !((0xFFFFu16 >> ((16 - width) as u32)) << offset)) | ((value & (0xFFFFu16
                >> ((16 - width) as u32))) << offset),
    ;
    proof {
        if value <= low_mask(width) {
            lemma_extract_insert(raw as u64, offset, width, value as u64);
        }
    }
    out
}

/// Reads a field of a 32-bit register.
pub fn extract_u32(raw: u32, offset: u32, width: u32) -> (field: u32)
    requires
        1 <= width,
        offset + width <= 32,
    ensures
        field == extract(raw as u64, offset, width),
{
    let mask: u32 = u32::MAX >> (32 - width);
    let field: u32 = (raw >> offset) & mask;
    assert(field == extract(raw as u64, offset, width)) by (bit_vector)
        requires
            1 <= width,
            offset + width <= 32,
            field == (raw >> offset) & (0xFFFF_FFFFu32 >> ((32 - width) as u32)),
    ;
    field
}

/// Writes a field of a 32-bit register. Bits of `value` beyond the field's
/// width are dropped.
pub fn insert_u32(raw: u32, offset: u32, width: u32, value: u32) -> (out: u32)
    requires
        1 <= width,
        offset + width <= 32,
    ensures
        out == insert(raw as u64, offset, width, value as u64),
        value <= low_mask(width) ==> extract(out as u64, offset, width) == value,
{
    let mask: u32 = u32::MAX >> (32 - width);
    let out: u32 = (raw & !(mask << offset)) | ((value & mask) << offset);
    assert(out == insert(raw as u64, offset, width, value as u64)) by (bit_vector)
        requires
            1 <= width,
            offset + width <= 32,
            out == (raw & !((0xFFFF_FFFFu32 >> ((32 - width) as u32)) << offset)) | ((value & (
            0xFFFF_FFFFu32 >> ((32 - width) as u32))) << offset),
    ;
    proof {
        if value <= low_mask(width) {
            lemma_extract_insert(raw as u64, offset, width, value as u64);
        }
    }
    out
}

/// Reads a field of a 64-bit register.
pub fn extract_u64(raw: u64, offset: u32, width: u32) -> (field: u64)
    requires
        1 <= width,
        offset + width <= 64,
    ensures
        field == extract(raw, offset, width),
{
    let mask: u64 = u64::MAX >> (64 - width);
    (raw >> offset) & mask
}

/// Writes a field of a 64-bit register. Bits of `value` beyond the field's
/// width are dropped.
pub fn insert_u64(raw: u64, offset: u32, width: u32, value: u64) -> (out: u64)
    requires
        1 <= width,
        offset + width <= 64,
    ensures
        out == insert(raw, offset, width, value),
        value <= low_mask(width) ==> extract(out, offset, width) == value,
{
    let mask: u64 = u64::MAX >> (64 - width);
    let out: u64 = (raw & !(mask << offset)) | ((value & mask) << offset);
    proof {
        if value <= low_mask(width) {
            lemma_extract_insert(raw, offset, width, value);
        }
    }
    out
}

/// Reads an 8-bit field as a signed number.
pub fn to_signed8(raw: u8) -> (value: i8)
    ensures
        value == signed8(raw as u64),
{
    let value: i8 = #[verifier::truncate] (raw as i8);
    assert(value as int == if raw >= 0x80u8 { raw - 0x100 } else { raw as int }) by (bit_vector)
        requires
            value == raw as i8,
    ;
    value
}

} // verus!
