use hal::leb128::Leb128;
use hal::leb128::Leb128Error::{IncompleteEncoding, InvalidEncoding};
use hal::leb128::{low_bits_of_byte, read_signed, read_signed_64, read_unsigned, Leb128Error};

#[test]
fn u32_ok() {
    for (given, expected, expected_consumption) in [
        (vec![0x00], 0, 1),
        (vec![0x00, 0x00, 0x00, 0x01], 0, 1),
        (vec![0x01], 1, 1),
        (vec![0x7F], 127, 1),
        (vec![0xFF, 0x01], 255, 2),
        (vec![0x80, 0x01], 128, 2),
        (vec![0x80, 0x01, 0x00, 0x00], 128, 2),
        (vec![0xE5, 0x8E, 0x26], 624485, 3),
        (vec![0xFF, 0xFF, 0xFF, 0xFF, 0x0F], u32::MAX, 5),
        (vec![0xFF, 0xFF, 0xFF, 0xFF, 0x0F, 0x01], u32::MAX, 5),
        (vec![0x80, 0x80, 0x80, 0x80, 0x01], 268435456, 5),
        (vec![0x81, 0x01], 129, 2),
        (vec![0x01, 0x80], 1, 1),
        (vec![0xC0, 0xBB, 0x78], 1973696, 3),
        (vec![0xE5, 0x8E, 0x26, 0x80], 624485, 3),
        (vec![0x01, 0x01], 1, 1),
        (vec![0x00, 0x80, 0x00], 0, 1),
    ] {
        let (result, consumed) = u32::read_leb128(&given).unwrap();
        assert_eq!(result, expected, "expected {} but got {} for {:#04X?}", expected, result, given);
        assert_eq!(
            consumed, expected_consumption,
            "expected to consume {} but got {} for {:#04X?}",
            expected_consumption, consumed, given
        );
    }
}

#[test]
fn u32_invalid() {
    for (given, expected) in [
        (vec![0xFF], IncompleteEncoding),
        (vec![0x80], IncompleteEncoding),
        (vec![0xFF, 0xFF, 0xFF, 0xFF, 0xFF], InvalidEncoding),
        (vec![0x80, 0x80], IncompleteEncoding),
        (vec![0x80, 0x80, 0x80, 0x80, 0x80], InvalidEncoding),
        (vec![0xFF, 0x00, 0x00, 0x00, 0x00], InvalidEncoding),
    ] {
        let result = u32::read_leb128(&given);
        assert_eq!(result, Err(expected))
    }
}

#[test]
fn i32_ok() {
    for (given, expected, expected_consumption) in [
        (vec![0x00], 0, 1),
        (vec![0x01], 1, 1),
        (vec![0x7F], -1, 1),
        (vec![0x00], 0, 1),
        (vec![0x80, 0x01], 128, 2),
        (vec![0xc0, 0xc4, 0x07], 123456, 3),
        (vec![0xff, 0xff, 0xff, 0xff, 0x07], i32::MAX, 5),
        (vec![0xc0, 0xbb, 0x78], -123456, 3),
        (vec![0x7f], -1, 1),
        (vec![0x80, 0x7f], -128, 2),
        (vec![0x80, 0x80, 0x80, 0x80, 0x78], i32::MIN, 5),
    ] {
        let (result, consumed) = match i32::read_leb128(&given) {
            Ok(done) => done,
            Err(_) => panic!(" {:#04X?}", given),
        };
        assert_eq!(result, expected, "expected {} but got {} for {:#04X?}", expected, result, given);
        assert_eq!(
            consumed, expected_consumption,
            "expected to consume {} but got {} for {:#04X?}",
            expected_consumption, consumed, given
        );
    }
}

#[test]
fn i32_invalid() {
    for (given, expected) in [
        (vec![0x80], IncompleteEncoding),
        (vec![0x80, 0x80], IncompleteEncoding),
        (vec![0xFF, 0xFF, 0xFF, 0xFF, 0xFF], InvalidEncoding),
        (vec![0x80, 0x80, 0x80, 0x80, 0x80], InvalidEncoding),
    ] {
        let result = i32::read_leb128(&given);
        assert_eq!(result, Err(expected), "{:#04X?}", given)
    }
}

#[test]
fn i32_takes_a_zero_byte_after_the_first() {
    assert_eq!(i32::read_leb128(&[0xFF, 0x00, 0x00, 0x00, 0x00]), Ok((127, 2)));
    assert_eq!(encode_signed(64), vec![0xC0, 0x00]);
    assert_eq!(i32::read_leb128(&[0xC0, 0x00]), Ok((64, 2)));
    assert_eq!(read_signed(&[0xC0, 0x00]), Ok((64, 2)));
    assert_eq!(i32::read_leb128(&[0x40]), Ok((-64, 1)));
}

fn encode_unsigned(mut x: u64) -> Vec<u8> {
    let mut out = vec![];
    loop {
        let byte = (x & 0x7F) as u8;
        x >>= 7;
        if x == 0 {
            out.push(byte);
            return out;
        }
        out.push(byte | 0x80);
    }
}

fn encode_signed(mut x: i64) -> Vec<u8> {
    let mut out = vec![];
    loop {
        let byte = (x & 0x7F) as u8;
        x >>= 7;
        if (x == 0 && byte & 0x40 == 0) || (x == -1 && byte & 0x40 != 0) {
            out.push(byte);
            return out;
        }
        out.push(byte | 0x80);
    }
}

#[test]
fn unsigned_round_trip() {
    for x in [0u32, 1, 63, 64, 127, 128, 255, 16383, 16384, 624485, 0x0FFF_FFFF, 0x1000_0000, u32::MAX - 1, u32::MAX] {
        let bytes = encode_unsigned(x as u64);
        assert_eq!(read_unsigned(&bytes), Ok((x, bytes.len())));
        assert_eq!(u32::read_leb128(&bytes), Ok((x, bytes.len())));
    }
}

#[test]
fn signed_round_trip() {
    for x in [0i32, 1, -1, 63, 64, -64, -65, 127, 128, 8191, 8192, -8192, -8193, 123456, -123456, i32::MAX, i32::MIN] {
        let bytes = encode_signed(x as i64);
        assert_eq!(read_signed(&bytes), Ok((x, bytes.len())));
        assert_eq!(i32::read_leb128(&bytes), Ok((x, bytes.len())));
    }
}

#[test]
fn unsigned_rejection() {
    assert_eq!(read_unsigned(&[0x80]), Err((IncompleteEncoding, 1)));
    assert_eq!(read_unsigned(&[0xFF]), Err((IncompleteEncoding, 1)));
    assert_eq!(read_unsigned(&[0x80, 0x80, 0x80, 0x80, 0x80]), Err((InvalidEncoding, 5)));
    assert_eq!(read_unsigned(&[0xFF, 0xFF, 0xFF, 0xFF, 0x1F]), Err((InvalidEncoding, 5)));
    assert_eq!(read_unsigned(&[0x80, 0x00]), Err((InvalidEncoding, 2)));
    assert_eq!(read_unsigned(&[]), Err((IncompleteEncoding, 0)));
}

#[test]
fn signed_fifth_byte_drops_high_bits() {
    assert_eq!(read_signed(&[0xFF, 0xFF, 0xFF, 0xFF, 0x1F]), Ok((-1, 5)));
    assert_eq!(read_signed(&[0x80, 0x80, 0x80, 0x80, 0x80]), Err((InvalidEncoding, 5)));
    assert_eq!(read_signed(&[]), Err((IncompleteEncoding, 0)));
}

#[test]
fn signed_64_round_trip() {
    for x in [0i64, 1, -1, 63, 64, -64, -65, 624485, -624485, i32::MAX as i64, i32::MIN as i64, 1 << 40, -(1 << 40), i64::MAX, i64::MIN] {
        let bytes = encode_signed(x);
        assert_eq!(read_signed_64(&bytes), Ok((x, bytes.len())));
    }
    assert_eq!(read_signed_64(&[0x80; 10]), Err((InvalidEncoding, 10)));
    assert_eq!(read_signed_64(&[0x80; 3]), Err((IncompleteEncoding, 3)));
}

#[test]
fn low_bits_and_messages() {
    assert_eq!(low_bits_of_byte(0xE5), 0x65);
    assert_eq!(low_bits_of_byte(0x7F), 0x7F);
    assert_eq!(Leb128Error::InvalidEncoding.to_string(), "Invalid leb128 encoding");
    assert_eq!(Leb128Error::IncompleteEncoding.to_string(), "Incomplete leb128 encoding");
}
