use at86rf215::header::{
    generate_read_header, generate_write_header, ADDRESS_MASK, WRITE_MARKER,
};

#[test]
fn read_header_is_the_address_high_byte_first() {
    assert_eq!(generate_read_header(0x0000), [0x00, 0x00]);
    assert_eq!(generate_read_header(0x0006), [0x00, 0x06]);
    assert_eq!(generate_read_header(0x0391), [0x03, 0x91]);
    assert_eq!(generate_read_header(0x3FFF), [0x3F, 0xFF]);
}

#[test]
fn write_header_sets_the_write_marker() {
    assert_eq!(generate_write_header(0x0000), [0x80, 0x00]);
    assert_eq!(generate_write_header(0x0006), [0x80, 0x06]);
    assert_eq!(generate_write_header(0x0105), [0x81, 0x05]);
    assert_eq!(generate_write_header(0x3FFF), [0xBF, 0xFF]);
}

#[test]
fn headers_drop_address_bits_above_bit_13() {
    assert_eq!(generate_read_header(0x4000), [0x00, 0x00]);
    assert_eq!(generate_read_header(0xFFFF), [0x3F, 0xFF]);
    assert_eq!(generate_read_header(0x8006), [0x00, 0x06]);
    assert_eq!(generate_write_header(0x4000), [0x80, 0x00]);
    assert_eq!(generate_write_header(0xFFFF), [0xBF, 0xFF]);
    assert_eq!(generate_write_header(0xC105), [0x81, 0x05]);
}

#[test]
fn write_header_is_read_header_or_marker_for_every_address() {
    for addr in 0..=u16::MAX {
        let read = generate_read_header(addr);
        let write = generate_write_header(addr);
        let read_word = u16::from_be_bytes(read);
        let write_word = u16::from_be_bytes(write);
        assert_eq!(read_word, addr & ADDRESS_MASK);
        assert_eq!(write_word, read_word | WRITE_MARKER);
        assert_eq!(write[0], read[0] | 0x80);
        assert_eq!(write[1], read[1]);
        assert_eq!(read_word & 0xC000, 0);
    }
}

#[test]
fn header_constants() {
    assert_eq!(ADDRESS_MASK, 0x3FFF);
    assert_eq!(WRITE_MARKER, 0x8000);
}
