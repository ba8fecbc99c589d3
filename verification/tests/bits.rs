use at86rf215::bits::{
    extract_u16, extract_u32, extract_u64, extract_u8, insert_u16, insert_u32, insert_u64,
    insert_u8, to_signed8,
};

#[test]
fn extract_reads_the_field() {
    assert_eq!(extract_u8(0b1011_0110, 0, 3), 0b110);
    assert_eq!(extract_u8(0b1011_0110, 4, 4), 0b1011);
    assert_eq!(extract_u8(0b1011_0110, 7, 1), 1);
    assert_eq!(extract_u8(0xA5, 0, 8), 0xA5);
    assert_eq!(extract_u16(0x8155, 0, 9), 0x155);
    assert_eq!(extract_u16(0x8155, 14, 2), 2);
    assert_eq!(extract_u32(0xDEAD_BEEF, 16, 16), 0xDEAD);
    assert_eq!(extract_u32(0xDEAD_BEEF, 0, 32), 0xDEAD_BEEF);
    assert_eq!(extract_u64(0x0123_4567_89AB_CDEF, 32, 8), 0x67);
    assert_eq!(extract_u64(u64::MAX, 0, 64), u64::MAX);
}

#[test]
fn insert_replaces_the_field_and_nothing_else() {
    assert_eq!(insert_u8(0xFF, 0, 2, 0), 0xFC);
    assert_eq!(insert_u8(0x00, 2, 3, 0b101), 0b1_0100);
    assert_eq!(insert_u8(0xF0, 0, 8, 0x0F), 0x0F);
    assert_eq!(insert_u16(0xFFFF, 0, 9, 0), 0xFE00);
    assert_eq!(insert_u16(0x0000, 14, 2, 3), 0xC000);
    assert_eq!(insert_u32(0xFFFF_FFFF, 8, 16, 0x1234), 0xFF12_34FF);
    assert_eq!(insert_u64(0, 60, 4, 0xF), 0xF000_0000_0000_0000);
    assert_eq!(insert_u64(7, 0, 64, 9), 9);
}

#[test]
fn insert_drops_bits_beyond_the_width() {
    assert_eq!(insert_u8(0x00, 0, 2, 0xFF), 0x03);
    assert_eq!(insert_u8(0x00, 6, 2, 0x07), 0xC0);
    assert_eq!(insert_u16(0x0000, 0, 11, 0xFFFF), 0x07FF);
}

#[test]
fn extract_after_insert_gives_the_value() {
    for offset in 0..8u32 {
        for width in 1..=(8 - offset) {
            let max = (1u16 << width) - 1;
            for value in [0u16, 1, max / 2, max] {
                let value = value as u8;
                for raw in [0x00u8, 0xFF, 0xA5, 0x5A] {
                    let out = insert_u8(raw, offset, width, value);
                    assert_eq!(extract_u8(out, offset, width), value);
                    let mask = (max << offset) as u8;
                    assert_eq!(out & !mask, raw & !mask);
                }
            }
        }
    }
}

#[test]
fn signed_reading() {
    assert_eq!(to_signed8(0), 0);
    assert_eq!(to_signed8(1), 1);
    assert_eq!(to_signed8(0x7F), 127);
    assert_eq!(to_signed8(0x80), -128);
    assert_eq!(to_signed8(0xFF), -1);
}
