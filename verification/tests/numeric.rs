use hal::numeric::{
    count_ones, eval_binary_i32, eval_binary_i64, eval_test_i32, eval_test_i64, eval_unary_i32,
    eval_unary_i64, BinaryOp, Integer, TestOp, UnaryOp,
};
use hal::text::{decimal_string, signed_decimal_string};
use hal::instruction::Instruction;
use hal::trap::{
    Trap, TrapDivisionByZero, TrapNotFound, TrapNotImplemented, TrapOutOfBounds, TrapOverflow,
    TrapType, TrapUnderflow,
};
use hal::value::{Value, ValueType};

fn by_zero() -> Trap {
    Trap::DivisionByZero(TrapDivisionByZero::Integer)
}

fn overflow() -> Trap {
    Trap::Overflow(TrapOverflow::Integer)
}

#[test]
fn addition_wraps() {
    assert_eq!(eval_binary_i32(BinaryOp::Add, i32::MAX, 1), Ok(i32::MIN));
    assert_eq!(eval_binary_i32(BinaryOp::Sub, i32::MIN, 1), Ok(i32::MAX));
    assert_eq!(eval_binary_i32(BinaryOp::Mul, 0x4000_0000, 4), Ok(0));
    assert_eq!(eval_binary_i64(BinaryOp::Add, i64::MAX, 1), Ok(i64::MIN));
    assert_eq!(eval_binary_i64(BinaryOp::Sub, i64::MIN, 1), Ok(i64::MAX));
    assert_eq!(eval_binary_i64(BinaryOp::Mul, -3, 7), Ok(-21));
}

#[test]
fn division_traps() {
    assert_eq!(eval_binary_i32(BinaryOp::DivS, -2147483648, -1), Err(overflow()));
    assert_eq!(eval_binary_i32(BinaryOp::DivU, 1, 0), Err(by_zero()));
    assert_eq!(eval_binary_i32(BinaryOp::RemS, -2147483648, -1), Ok(0));
    assert_eq!(eval_binary_i32(BinaryOp::DivS, 1, 0), Err(by_zero()));
    assert_eq!(eval_binary_i32(BinaryOp::RemS, 1, 0), Err(by_zero()));
    assert_eq!(eval_binary_i32(BinaryOp::RemU, 1, 0), Err(by_zero()));
    assert_eq!(eval_binary_i64(BinaryOp::DivS, i64::MIN, -1), Err(overflow()));
    assert_eq!(eval_binary_i64(BinaryOp::DivU, 1, 0), Err(by_zero()));
    assert_eq!(eval_binary_i64(BinaryOp::RemS, i64::MIN, -1), Ok(0));
    assert_eq!(eval_binary_i64(BinaryOp::RemU, 5, 0), Err(by_zero()));
}

#[test]
fn quotients_round_towards_zero() {
    assert_eq!(eval_binary_i32(BinaryOp::DivS, 7, 2), Ok(3));
    assert_eq!(eval_binary_i32(BinaryOp::DivS, -7, 2), Ok(-3));
    assert_eq!(eval_binary_i32(BinaryOp::DivS, 7, -2), Ok(-3));
    assert_eq!(eval_binary_i32(BinaryOp::DivS, -7, -2), Ok(3));
    assert_eq!(eval_binary_i32(BinaryOp::DivS, i32::MIN, 1), Ok(i32::MIN));
    assert_eq!(eval_binary_i32(BinaryOp::RemS, 7, 2), Ok(1));
    assert_eq!(eval_binary_i32(BinaryOp::RemS, -7, 2), Ok(-1));
    assert_eq!(eval_binary_i32(BinaryOp::RemS, 7, -2), Ok(1));
    assert_eq!(eval_binary_i32(BinaryOp::RemS, -7, -2), Ok(-1));
    assert_eq!(eval_binary_i32(BinaryOp::DivU, -1, 2), Ok(0x7FFF_FFFF));
    assert_eq!(eval_binary_i32(BinaryOp::RemU, -1, 16), Ok(15));
    assert_eq!(eval_binary_i64(BinaryOp::DivS, -7, 2), Ok(-3));
    assert_eq!(eval_binary_i64(BinaryOp::RemS, -7, 2), Ok(-1));
    assert_eq!(eval_binary_i64(BinaryOp::DivU, -1, 2), Ok(i64::MAX));
    assert_eq!(7i32.div_checked(2), Ok(3));
    assert_eq!(i32::MIN.div_checked(-1), Err(overflow()));
    assert_eq!(7u32.div_checked(0), Err(by_zero()));
    assert_eq!(i64::MIN.rem_wrapping(-1), Ok(0));
    assert_eq!(7u64.rem_wrapping(4), Ok(3));
}

#[test]
fn bits_are_combined_shifted_and_rotated() {
    assert_eq!(eval_binary_i32(BinaryOp::And, 0b1100, 0b1010), Ok(0b1000));
    assert_eq!(eval_binary_i32(BinaryOp::Or, 0b1100, 0b1010), Ok(0b1110));
    assert_eq!(eval_binary_i32(BinaryOp::Xor, 0b1100, 0b1010), Ok(0b0110));
    assert_eq!(eval_binary_i32(BinaryOp::Shl, 1, 33), Ok(2));
    assert_eq!(eval_binary_i32(BinaryOp::Shl, 1, 31), Ok(i32::MIN));
    assert_eq!(eval_binary_i32(BinaryOp::ShrS, -8, 1), Ok(-4));
    assert_eq!(eval_binary_i32(BinaryOp::ShrU, -8, 1), Ok(0x7FFF_FFFC));
    assert_eq!(eval_binary_i32(BinaryOp::ShrU, -8, 32), Ok(-8));
    assert_eq!(eval_binary_i32(BinaryOp::Rotl, i32::MIN, 1), Ok(1));
    assert_eq!(eval_binary_i32(BinaryOp::Rotl, 0x1234_5678, 8), Ok(0x3456_7812));
    assert_eq!(eval_binary_i32(BinaryOp::Rotr, 1, 1), Ok(i32::MIN));
    assert_eq!(eval_binary_i32(BinaryOp::Rotr, 0x1234_5678, 40), Ok(0x7812_3456));
    assert_eq!(eval_binary_i32(BinaryOp::Rotl, 5, 0), Ok(5));
    assert_eq!(eval_binary_i64(BinaryOp::Shl, 1, 65), Ok(2));
    assert_eq!(eval_binary_i64(BinaryOp::ShrS, -8, 1), Ok(-4));
    assert_eq!(eval_binary_i64(BinaryOp::ShrU, -8, 1), Ok(0x7FFF_FFFF_FFFF_FFFC));
    assert_eq!(eval_binary_i64(BinaryOp::Rotl, i64::MIN, 1), Ok(1));
    assert_eq!(eval_binary_i64(BinaryOp::Rotr, 1, 65), Ok(i64::MIN));
    assert_eq!(eval_binary_i64(BinaryOp::Rotr, 7, 64), Ok(7));
    assert_eq!(eval_binary_i64(BinaryOp::Xor, -1, 1), Ok(-2));
}

#[test]
fn comparisons() {
    assert!(eval_test_i32(TestOp::Eq, 3, 3));
    assert!(eval_test_i32(TestOp::Ne, 3, 4));
    assert!(eval_test_i32(TestOp::LtS, -1, 0));
    assert!(!eval_test_i32(TestOp::LtU, -1, 0));
    assert!(eval_test_i32(TestOp::GtU, -1, 0));
    assert!(!eval_test_i32(TestOp::GtS, -1, 0));
    assert!(eval_test_i32(TestOp::LeS, 2, 2));
    assert!(eval_test_i32(TestOp::LeU, 2, -2));
    assert!(eval_test_i32(TestOp::GeS, 2, -2));
    assert!(!eval_test_i32(TestOp::GeU, 2, -2));
    assert!(eval_test_i64(TestOp::LtS, -1, 0));
    assert!(!eval_test_i64(TestOp::LtU, -1, 0));
    assert!(eval_test_i64(TestOp::GeU, -1, i64::MAX));
    assert!(eval_test_i64(TestOp::Eq, i64::MIN, i64::MIN));
}

#[test]
fn counts_and_extensions() {
    assert_eq!(eval_unary_i32(UnaryOp::Clz, 1), 31);
    assert_eq!(eval_unary_i32(UnaryOp::Clz, 0), 32);
    assert_eq!(eval_unary_i32(UnaryOp::Clz, -1), 0);
    assert_eq!(eval_unary_i32(UnaryOp::Ctz, 8), 3);
    assert_eq!(eval_unary_i32(UnaryOp::Ctz, 0), 32);
    assert_eq!(eval_unary_i32(UnaryOp::Popcnt, -1), 32);
    assert_eq!(eval_unary_i32(UnaryOp::Popcnt, 0b1011), 3);
    assert_eq!(eval_unary_i32(UnaryOp::Extend8S, 0x80), -128);
    assert_eq!(eval_unary_i32(UnaryOp::Extend8S, 0x17F), 127);
    assert_eq!(eval_unary_i32(UnaryOp::Extend16S, 0x8000), -32768);
    assert_eq!(eval_unary_i32(UnaryOp::Extend32S, 77), 77);
    assert_eq!(eval_unary_i64(UnaryOp::Clz, 1), 63);
    assert_eq!(eval_unary_i64(UnaryOp::Ctz, 0), 64);
    assert_eq!(eval_unary_i64(UnaryOp::Popcnt, -1), 64);
    assert_eq!(eval_unary_i64(UnaryOp::Extend8S, 0xFF), -1);
    assert_eq!(eval_unary_i64(UnaryOp::Extend16S, 0x1_7FFF), 32767);
    assert_eq!(eval_unary_i64(UnaryOp::Extend32S, 0x8000_0000), -2147483648);
    assert_eq!(count_ones(0), 0);
    assert_eq!(count_ones(u64::MAX), 64);
    assert_eq!(count_ones(0x8000_0000_0000_0001), 2);
}

#[test]
fn values_and_their_types() {
    assert_eq!(Value::from(5i32), Value::I32(5));
    assert_eq!(Value::from(5i64), Value::I64(5));
    assert_eq!(Value::I32(i32::MAX) + Value::I32(1), Value::I32(i32::MIN));
    assert_eq!(Value::I64(2) * Value::I64(-3), Value::I64(-6));
    assert_eq!(Value::I32(i32::MIN) - Value::I32(1), Value::I32(i32::MAX));
    assert_eq!(Value::I64(1).ty(), ValueType::I64);
    assert_eq!(Value::I32(-7).to_string(), "-7");
    assert_eq!(Value::I64(i64::MIN).to_string(), "-9223372036854775808");
    assert_eq!(ValueType::I32.to_str(), "i32");
    assert_eq!(ValueType::I64.to_string(), "i64");
}

#[test]
fn numbers_as_text() {
    assert_eq!(decimal_string(0), "0");
    assert_eq!(decimal_string(9), "9");
    assert_eq!(decimal_string(10), "10");
    assert_eq!(decimal_string(4294967295), "4294967295");
    assert_eq!(decimal_string(u64::MAX), "18446744073709551615");
    assert_eq!(signed_decimal_string(-42), "-42");
    assert_eq!(signed_decimal_string(i64::MAX), "9223372036854775807");
}

#[test]
fn traps_have_messages() {
    assert_eq!(by_zero().to_string(), "integer divide by zero");
    assert_eq!(overflow().to_string(), "integer overflow");
    assert_eq!(Trap::Overflow(TrapOverflow::Stack).to_string(), "stack overflow");
    assert_eq!(Trap::Underflow(TrapUnderflow::Stack).to_string(), "stack underflow");
    assert_eq!(
        Trap::Type(TrapType::Mismatch(ValueType::I64, ValueType::I32)).to_string(),
        "expected type i64, got i32"
    );
    assert_eq!(
        Trap::OutOfBounds(TrapOutOfBounds::Memory).to_string(),
        "out of bounds memory access"
    );
    assert_eq!(Trap::NotFound(TrapNotFound::Memory(3)).to_string(), "Memory not found: 3");
    assert_eq!(
        Trap::NotFound(TrapNotFound::ExportedFunction("f".to_string())).to_string(),
        "Exported function not found: f"
    );
    assert_eq!(
        Trap::NotImplemented(TrapNotImplemented::Instruction(Instruction::Nop)).to_string(),
        "instruction not implemented"
    );
}
