use hal::reader::ByteReader;
use hal::wasm::error::WasmParseError;
use hal::wasm::error::WasmParseError::OutOfBounds;

#[test]
fn read_empty() {
    let data: &[u8] = &[];
    let mut ti = ByteReader::new(data);

    assert!(ti.read_u8().is_err());
    assert!(ti.read_u16().is_err());
    assert!(ti.read_u32().is_err());
    assert!(ti.read_u64().is_err());
}

#[test]
fn read_u8() {
    let data: &[u8] = &[0x05, 0x06, 0x07, 0x08];
    let mut ti = ByteReader::new(data);

    assert_eq!(ti.read_u8().unwrap(), 0x05);
    assert_eq!(ti.read_u8().unwrap(), 0x06);
    assert_eq!(ti.read_u8().unwrap(), 0x07);
    assert_eq!(ti.read_u8().unwrap(), 0x08);
}

#[test]
fn read_u16() {
    let data: &[u8] = &[0x05, 0x06, 0x07, 0x08];
    let mut ti = ByteReader::new(data);

    assert_eq!(ti.read_u16().unwrap(), 0x0605);
    assert_eq!(ti.read_u16().unwrap(), 0x0807);
}

#[test]
fn read_u32() {
    let data: &[u8] = &[0x05, 0x06, 0x07, 0x08];
    let mut ti = ByteReader::new(data);

    assert_eq!(ti.read_u32().unwrap(), 0x08070605);
}

#[test]
fn read_u64() {
    let data: &[u8] = &[0x09, 0x0A, 0x0B, 0x0C, 0x0D, 0x0E, 0x0F, 0x10];
    let mut ti = ByteReader::new(data);

    assert_eq!(ti.read_u64().unwrap(), 0x100F0E0D0C0B0A09);
}

#[test]
fn read_range() {
    let data: &[u8] = &[0x01, 0x02, 0x03, 0x04, 0x05, 0x06, 0x07, 0x08];
    let mut ti = ByteReader::new(data);

    assert_eq!(ti.read_range(4).unwrap(), [0x01, 0x02, 0x03, 0x04]);
    assert_eq!(ti.read_u8().unwrap(), 0x05);
    assert_eq!(ti.read_range(2).unwrap(), [0x06, 0x07]);
    assert_eq!(ti.read_u8().unwrap(), 0x08);
}

#[test]
fn read_range_out_of_bounds() {
    let data: &[u8] = &[0x01, 0x02, 0x03, 0x04];
    let mut ti = ByteReader::new(data);

    ti.seek(3).unwrap();
    assert!(ti.read_range(2).is_err());
}

#[test]
fn seek() {
    let data = b"Hello, world!";
    let mut reader = ByteReader::new(&data[..]);

    assert_eq!(reader.seek(7).unwrap(), 7);
    assert_eq!(reader.seek(3).unwrap(), 10);

    assert_eq!(reader.seek(-5).unwrap(), 5);
    assert_eq!(reader.seek(-10).err().unwrap(), OutOfBounds);
    assert_eq!(reader.pos(), 5);
    assert_eq!(reader.seek(-5).unwrap(), 0);

    assert_eq!(reader.seek(50).err().unwrap(), OutOfBounds);
    assert_eq!(reader.pos(), 0);
    assert_eq!(reader.seek(13).unwrap(), 13);
    assert_eq!(reader.seek(1).err().unwrap(), OutOfBounds);
}

#[test]
fn read_leb128_u32_single_byte() {
    let data = [0x7F];
    let mut ti = ByteReader::new(&data);
    let result = ti.read_leb128_u32().unwrap();
    assert_eq!(result, 127);
}

#[test]
fn read_leb128_u32_multiple_bytes() {
    let data = [0xE5, 0x8E, 0x26];
    let mut ti = ByteReader::new(&data);
    let result = ti.read_leb128_u32().unwrap();
    assert_eq!(result, 624485);
}

#[test]
fn read_leb128_u32_max_u32() {
    let data = [0xFF, 0xFF, 0xFF, 0xFF, 0x0F];
    let mut ti = ByteReader::new(&data);
    let result = ti.read_leb128_u32().unwrap();
    assert_eq!(result, 4294967295);
}

#[test]
fn read_leb128_u32_unexpected_eof() {
    let data = [0x80];
    let mut ti = ByteReader::new(&data);
    let result = ti.read_leb128_u32();
    assert!(matches!(result, Err(WasmParseError::UnexpectedEndOfFile)));
}

#[test]
fn read_leb128_u32_invalid_encoding() {
    let data = [0xFF, 0xFF, 0xFF, 0xFF, 0xFF];
    let mut ti = ByteReader::new(&data);
    let result = ti.read_leb128_u32();
    assert!(matches!(result, Err(WasmParseError::InvalidLEB128Encoding)));
}

#[test]
fn eof_empty_data() {
    let ti = ByteReader::new(&[]);
    assert!(ti.eof());
}

#[test]
fn eof_non_empty_data_not_at_end() {
    let data = [0x7F];
    let mut ti = ByteReader::new(&data);
    assert!(!ti.eof());
    let _ = ti.read_leb128_u32().unwrap();
    assert!(ti.eof());
}

#[test]
fn read_leb128_i32_positive_single_byte() {
    let data = [0x3F];
    let mut ti = ByteReader::new(&data);
    let result = ti.read_leb128_i32().unwrap();
    assert_eq!(result, 63);
    assert!(ti.eof());
}

#[test]
fn read_leb128_i32_negative_single_byte() {
    let data = [0x41];
    let mut ti = ByteReader::new(&data);
    let result = ti.read_leb128_i32().unwrap();
    assert_eq!(result, -63);
    assert!(ti.eof());
}

#[test]
fn read_leb128_i32_positive_multiple_bytes() {
    let data = [0xE5, 0x8E, 0x26];
    let mut ti = ByteReader::new(&data);
    let result = ti.read_leb128_i32().unwrap();
    assert_eq!(result, 624485);
    assert!(ti.eof());
}

#[test]
fn read_leb128_i32_negative_multiple_bytes() {
    let data = [0x9B, 0xF1, 0x59];
    let mut ti = ByteReader::new(&data);
    let result = ti.read_leb128_i32().unwrap();
    assert_eq!(result, -624485);
    assert!(ti.eof());
}

#[test]
fn read_leb128_i32_max_i32() {
    let data = [0xFF, 0xFF, 0xFF, 0xFF, 0x07];
    let mut ti = ByteReader::new(&data);
    let result = ti.read_leb128_i32().unwrap();
    assert_eq!(result, i32::MAX);
    assert!(ti.eof());
}

#[test]
fn read_leb128_i32_min_i32() {
    let data = [0x80, 0x80, 0x80, 0x80, 0x78];
    let mut ti = ByteReader::new(&data);
    let result = ti.read_leb128_i32().unwrap();
    assert_eq!(result, i32::MIN);
    assert!(ti.eof());
}

#[test]
fn read_leb128_i32_unexpected_eof() {
    let data = [0x80];
    let mut ti = ByteReader::new(&data);
    let result = ti.read_leb128_i32();
    assert!(matches!(result, Err(WasmParseError::UnexpectedEndOfFile)));
    assert!(ti.eof());
}

#[test]
fn read_leb128_i32_invalid_encoding() {
    let data = [0xFF, 0xFF, 0xFF, 0xFF, 0xFF];
    let mut ti = ByteReader::new(&data);
    let result = ti.read_leb128_i32();
    assert!(matches!(result, Err(WasmParseError::InvalidLEB128Encoding)));
}

#[test]
fn read_leb128_u32_refuses_inner_zero() {
    let data = [0x80, 0x00, 0x05];
    let mut ti = ByteReader::new(&data);
    assert_eq!(ti.read_leb128_u32(), Err(WasmParseError::InvalidLEB128Encoding));
    assert_eq!(ti.pos(), 2);
    assert_eq!(ti.read_u8(), Ok(0x05));
}

#[test]
fn read_leb128_u32_refuses_overflow_bits() {
    let data = [0xFF, 0xFF, 0xFF, 0xFF, 0x1F];
    let mut ti = ByteReader::new(&data);
    assert_eq!(ti.read_leb128_u32(), Err(WasmParseError::InvalidLEB128Encoding));
    assert!(ti.eof());
}

#[test]
fn read_leb128_i32_takes_inner_zero() {
    let data = [0xC0, 0x00];
    let mut ti = ByteReader::new(&data);
    assert_eq!(ti.read_leb128_i32(), Ok(64));
    assert!(ti.eof());
}

#[test]
fn read_leb128_i64_values() {
    let data = [0x7F, 0x80, 0x80, 0x80, 0x80, 0x80, 0x80, 0x80, 0x80, 0x80, 0x7F];
    let mut ti = ByteReader::new(&data);
    assert_eq!(ti.read_leb128_i64(), Ok(-1));
    assert_eq!(ti.read_leb128_i64(), Ok(i64::MIN));
    assert_eq!(ti.read_leb128_i64(), Err(WasmParseError::UnexpectedEndOfFile));
}

#[test]
fn failed_fixed_reads_leave_the_cursor() {
    let data = [0x01, 0x02, 0x03];
    let mut ti = ByteReader::new(&data);
    assert_eq!(ti.read_u32(), Err(WasmParseError::UnexpectedEndOfFile));
    assert_eq!(ti.pos(), 0);
    assert_eq!(ti.read_u16(), Ok(0x0201));
    assert_eq!(ti.read_u16(), Err(WasmParseError::UnexpectedEndOfFile));
    assert_eq!(ti.read_range(2), Err(WasmParseError::UnexpectedEndOfFile));
    assert_eq!(ti.pos(), 2);
    assert_eq!(ti.seek(2), Err(WasmParseError::OutOfBounds));
    assert_eq!(ti.pos(), 2);
    assert_eq!(ti.seek(isize::MIN), Err(WasmParseError::OutOfBounds));
    assert_eq!(ti.seek(-3), Err(WasmParseError::OutOfBounds));
    assert_eq!(ti.seek(isize::MAX), Err(WasmParseError::OutOfBounds));
    assert_eq!(ti.pos(), 2);
    assert_eq!(ti.seek(-2), Ok(0));
}
