use web_assembler::util::{
    write_slice, write_uint16, write_uint32, write_uint64, write_uint8, write_varint32,
    write_varint64, write_varint7, write_varuint1, write_varuint32, write_varuint7,
    write_varusize,
};

#[test]
fn test_write_varint32() {
    let mut buf = vec![];
    let size = write_varint32(&mut buf, 0b0110_0001);
    assert_eq!(size, 2);
    assert_eq!(buf, &[0b1110_0001, 0b0000_0000]);
}

#[test]
fn test_write_varint32_edge1() {
    let mut buf = vec![];
    let size = write_varint32(&mut buf, 63);
    assert_eq!(size, 1);
    assert_eq!(buf, &[0b0011_1111]);
}

#[test]
fn test_write_varint32_edge2() {
    let mut buf = vec![];
    let size = write_varint32(&mut buf, 64);
    assert_eq!(size, 2);
    assert_eq!(buf, &[0b1100_0000, 0b0000_0000]);
}

#[test]
fn test_write_varint32_edge3() {
    let mut buf = vec![];
    let size = write_varint32(&mut buf, -64);
    assert_eq!(size, 1);
    assert_eq!(buf, &[0b0100_0000]);
}

#[test]
fn test_write_varint32_edge4() {
    let mut buf = vec![];
    let size = write_varint32(&mut buf, -65);
    assert_eq!(size, 2);
    assert_eq!(buf, &[0b1011_1111, 0b0111_1111]);
}

fn decode_unsigned(bytes: &[u8]) -> u64 {
    let mut result: u64 = 0;
    let mut shift = 0;
    for b in bytes {
        result |= ((b & 0x7f) as u64) << shift;
        shift += 7;
    }
    result
}

fn decode_signed(bytes: &[u8]) -> i64 {
    let mut result: i64 = 0;
    let mut shift = 0;
    let mut last = 0u8;
    for b in bytes {
        result |= ((b & 0x7f) as i64) << shift;
        shift += 7;
        last = *b;
    }
    if shift < 64 && (last & 0x40) != 0 {
        result |= -1i64 << shift;
    }
    result
}

#[test]
fn leb128_round_trips_on_sample_values() {
    for v in [0u32, 1, 127, 128, 255, 624485, u32::MAX] {
        let mut buf = vec![];
        write_varuint32(&mut buf, v);
        assert_eq!(decode_unsigned(&buf), v as u64);
        assert!(buf[..buf.len() - 1].iter().all(|b| b & 0x80 != 0));
        assert_eq!(buf[buf.len() - 1] & 0x80, 0);
    }
    for v in [0i32, 1, -1, 63, 64, -64, -65, i32::MIN, i32::MAX] {
        let mut buf = vec![];
        write_varint32(&mut buf, v);
        assert_eq!(decode_signed(&buf), v as i64);
    }
    for v in [0i64, -123456, i64::MIN, i64::MAX, 1 << 40] {
        let mut buf = vec![];
        write_varint64(&mut buf, v);
        assert_eq!(decode_signed(&buf), v);
    }
}

#[test]
fn varuint32_known_encodings() {
    let mut buf = vec![];
    assert_eq!(write_varuint32(&mut buf, 624485), 3);
    assert_eq!(buf, vec![0xe5, 0x8e, 0x26]);
    let mut buf = vec![];
    assert_eq!(write_varuint32(&mut buf, u32::MAX), 5);
    assert_eq!(buf, vec![0xff, 0xff, 0xff, 0xff, 0x0f]);
    let mut buf = vec![];
    assert_eq!(write_varusize(&mut buf, 128), 2);
    assert_eq!(buf, vec![0x80, 0x01]);
}

#[test]
fn varint64_known_encodings() {
    let mut buf = vec![];
    assert_eq!(write_varint64(&mut buf, -123456), 3);
    assert_eq!(buf, vec![0xc0, 0xbb, 0x78]);
    let mut buf = vec![];
    assert_eq!(write_varint64(&mut buf, i64::MIN), 10);
    assert_eq!(buf, vec![0x80, 0x80, 0x80, 0x80, 0x80, 0x80, 0x80, 0x80, 0x80, 0x7f]);
}

#[test]
fn fixed_width_little_endian() {
    let mut buf = vec![9];
    assert_eq!(write_uint8(&mut buf, 0xab), 1);
    assert_eq!(write_uint16(&mut buf, 0x1234), 2);
    assert_eq!(write_uint32(&mut buf, 0x12345678), 4);
    assert_eq!(write_uint64(&mut buf, 0x0102030405060708), 8);
    assert_eq!(
        buf,
        vec![9, 0xab, 0x34, 0x12, 0x78, 0x56, 0x34, 0x12, 8, 7, 6, 5, 4, 3, 2, 1]
    );
}

#[test]
fn small_writers_and_slices() {
    let mut buf = vec![];
    assert_eq!(write_varint7(&mut buf, -0x01), 1);
    assert_eq!(write_varint7(&mut buf, -0x40), 1);
    assert_eq!(write_varint7(&mut buf, -0x20), 1);
    assert_eq!(write_varuint1(&mut buf, 1), 1);
    assert_eq!(write_varuint7(&mut buf, 0x7f), 1);
    assert_eq!(write_slice(&mut buf, &[1, 2, 3]), 3);
    assert_eq!(write_slice(&mut buf, &[]), 0);
    assert_eq!(buf, vec![0x7f, 0x40, 0x60, 1, 0x7f, 1, 2, 3]);
}
