use hal::stack::{Stack, MAX_VALUE_STACK};
use hal::trap::{Trap, TrapOverflow, TrapType, TrapUnderflow};
use hal::value::{Value, ValueType};

#[test]
fn stack_i32_primitive() {
    let mut ti = Stack::default();
    ti.push(0i32).unwrap();
    assert_eq!(ti.peek::<i32>().unwrap(), 0);

    ti.push(1i32).unwrap();
    ti.push(-1i32).unwrap();
    ti.push(i32::MAX).unwrap();
    ti.push(i32::MIN).unwrap();

    assert_eq!(ti.peek::<i32>().unwrap(), i32::MIN);
    assert_eq!(ti.pop::<i32>().unwrap(), i32::MIN);
    assert_eq!(ti.peek::<i32>().unwrap(), i32::MAX);
    assert_eq!(ti.pop::<i32>().unwrap(), i32::MAX);
    assert_eq!(ti.peek::<i32>().unwrap(), -1);
    assert_eq!(ti.pop::<i32>().unwrap(), -1);
    assert_eq!(ti.peek::<i32>().unwrap(), 1);
    assert_eq!(ti.pop::<i32>().unwrap(), 1);
    assert_eq!(ti.peek::<i32>().unwrap(), 0);
    assert_eq!(ti.pop::<i32>().unwrap(), 0);
}

#[test]
fn stack_i32_value() {
    let mut ti = Stack::default();
    ti.push(Value::I32(0i32)).unwrap();
    assert_eq!(ti.peek::<Value>().unwrap(), Value::I32(0));

    ti.push(Value::I32(1i32)).unwrap();
    ti.push(Value::I32(-1i32)).unwrap();
    ti.push(Value::I32(i32::MAX)).unwrap();
    ti.push(Value::I32(i32::MIN)).unwrap();

    assert_eq!(ti.peek::<Value>().unwrap(), Value::I32(i32::MIN));
    assert_eq!(ti.pop::<Value>().unwrap(), Value::I32(i32::MIN));
    assert_eq!(ti.peek::<Value>().unwrap(), Value::I32(i32::MAX));
    assert_eq!(ti.pop::<Value>().unwrap(), Value::I32(i32::MAX));
    assert_eq!(ti.peek::<Value>().unwrap(), Value::I32(-1));
    assert_eq!(ti.pop::<Value>().unwrap(), Value::I32(-1));
    assert_eq!(ti.peek::<Value>().unwrap(), Value::I32(1));
    assert_eq!(ti.pop::<Value>().unwrap(), Value::I32(1));
    assert_eq!(ti.peek::<Value>().unwrap(), Value::I32(0));
    assert_eq!(ti.pop::<Value>().unwrap(), Value::I32(0));
}

#[test]
fn stack_i32_mixed() {
    let mut ti = Stack::default();
    ti.push(Value::I32(i32::MAX)).unwrap();
    ti.push(i32::MAX).unwrap();
    ti.push(Value::I32(i32::MIN)).unwrap();
    ti.push(i32::MIN).unwrap();

    assert_eq!(ti.peek::<i32>().unwrap(), i32::MIN);
    assert_eq!(ti.pop::<i32>().unwrap(), i32::MIN);
    assert_eq!(ti.peek::<Value>().unwrap(), Value::I32(i32::MIN));
    assert_eq!(ti.pop::<Value>().unwrap(), Value::I32(i32::MIN));
    assert_eq!(ti.peek::<i32>().unwrap(), i32::MAX);
    assert_eq!(ti.pop::<i32>().unwrap(), i32::MAX);
    assert_eq!(ti.peek::<Value>().unwrap(), Value::I32(i32::MAX));
    assert_eq!(ti.pop::<Value>().unwrap(), Value::I32(i32::MAX));
}

#[test]
fn stack_i64_primitive() {
    let mut ti = Stack::default();
    ti.push(0i64).unwrap();
    assert_eq!(ti.peek::<i64>().unwrap(), 0);

    ti.push(1i64).unwrap();
    ti.push(-1i64).unwrap();
    ti.push(i64::MAX).unwrap();
    ti.push(i64::MIN).unwrap();

    assert_eq!(ti.peek::<i64>().unwrap(), i64::MIN);
    assert_eq!(ti.pop::<i64>().unwrap(), i64::MIN);
    assert_eq!(ti.peek::<i64>().unwrap(), i64::MAX);
    assert_eq!(ti.pop::<i64>().unwrap(), i64::MAX);
    assert_eq!(ti.peek::<i64>().unwrap(), -1);
    assert_eq!(ti.pop::<i64>().unwrap(), -1);
    assert_eq!(ti.peek::<i64>().unwrap(), 1);
    assert_eq!(ti.pop::<i64>().unwrap(), 1);
    assert_eq!(ti.peek::<i64>().unwrap(), 0);
    assert_eq!(ti.pop::<i64>().unwrap(), 0);
}

#[test]
fn stack_i64_value() {
    let mut ti = Stack::default();
    ti.push(Value::I64(0i64)).unwrap();
    assert_eq!(ti.peek::<Value>().unwrap(), Value::I64(0));

    ti.push(Value::I64(1i64)).unwrap();
    ti.push(Value::I64(-1i64)).unwrap();
    ti.push(Value::I64(i64::MAX)).unwrap();
    ti.push(Value::I64(i64::MIN)).unwrap();

    assert_eq!(ti.peek::<Value>().unwrap(), Value::I64(i64::MIN));
    assert_eq!(ti.pop::<Value>().unwrap(), Value::I64(i64::MIN));
    assert_eq!(ti.peek::<Value>().unwrap(), Value::I64(i64::MAX));
    assert_eq!(ti.pop::<Value>().unwrap(), Value::I64(i64::MAX));
    assert_eq!(ti.peek::<Value>().unwrap(), Value::I64(-1));
    assert_eq!(ti.pop::<Value>().unwrap(), Value::I64(-1));
    assert_eq!(ti.peek::<Value>().unwrap(), Value::I64(1));
    assert_eq!(ti.pop::<Value>().unwrap(), Value::I64(1));
    assert_eq!(ti.peek::<Value>().unwrap(), Value::I64(0));
    assert_eq!(ti.pop::<Value>().unwrap(), Value::I64(0));
}

#[test]
fn stack_i64_mixed() {
    let mut ti = Stack::default();
    ti.push(Value::I64(i64::MAX)).unwrap();
    ti.push(i64::MAX).unwrap();
    ti.push(Value::I64(i64::MIN)).unwrap();
    ti.push(i64::MIN).unwrap();

    assert_eq!(ti.peek::<i64>().unwrap(), i64::MIN);
    assert_eq!(ti.pop::<i64>().unwrap(), i64::MIN);
    assert_eq!(ti.peek::<Value>().unwrap(), Value::I64(i64::MIN));
    assert_eq!(ti.pop::<Value>().unwrap(), Value::I64(i64::MIN));
    assert_eq!(ti.peek::<i64>().unwrap(), i64::MAX);
    assert_eq!(ti.pop::<i64>().unwrap(), i64::MAX);
    assert_eq!(ti.peek::<Value>().unwrap(), Value::I64(i64::MAX));
    assert_eq!(ti.pop::<Value>().unwrap(), Value::I64(i64::MAX));
}

#[test]
fn stack_type_mismatch_on_pop() {
    let mut ti = Stack::default();
    ti.push(42i32).unwrap();

    let result: Result<i64, Trap> = ti.pop();
    assert_eq!(
        result,
        Err(Trap::Type(TrapType::Mismatch(ValueType::I64, ValueType::I32)))
    );
}

#[test]
fn stack_type_mismatch_on_pop_value() {
    let mut ti = Stack::default();
    ti.push(Value::I32(23)).unwrap();
    let result: Result<i64, Trap> = ti.pop();
    assert_eq!(
        result,
        Err(Trap::Type(TrapType::Mismatch(ValueType::I64, ValueType::I32)))
    );
}

#[test]
fn stack_type_mismatch_on_peek() {
    let mut ti = Stack::default();
    ti.push(42i32).unwrap();
    let result: Result<i64, Trap> = ti.peek();
    assert_eq!(
        result,
        Err(Trap::Type(TrapType::Mismatch(ValueType::I64, ValueType::I32)))
    );
}

#[test]
fn stack_type_mismatch_on_peek_value() {
    let mut ti = Stack::default();
    ti.push(Value::I32(23)).unwrap();
    let result: Result<i64, Trap> = ti.peek();
    assert_eq!(
        result,
        Err(Trap::Type(TrapType::Mismatch(ValueType::I64, ValueType::I32)))
    );
}

#[test]
fn stack_stack_underflow_on_pop() {
    let mut ti = Stack::default();
    let result: Result<i32, Trap> = ti.pop();
    assert_eq!(result, Err(Trap::Underflow(TrapUnderflow::Stack)));
}

#[test]
fn stack_stack_underflow_on_peek() {
    let mut ti = Stack::default();
    let result: Result<i32, Trap> = ti.peek();
    assert_eq!(result, Err(Trap::Underflow(TrapUnderflow::Stack)));
}

#[test]
fn stack_stack_overflow() {
    let mut ti = Stack::default();
    for i in 0..MAX_VALUE_STACK {
        ti.push(i as i32).unwrap()
    }

    let result: Result<(), Trap> = ti.push(42i32);
    assert_eq!(
        result,
        Err(Trap::Overflow(TrapOverflow::Stack))
    );
}

#[test]
fn len() {
    let mut ti = Stack::default();
    assert_eq!(ti.len(), 0);
    ti.push(23i32).unwrap();
    assert_eq!(ti.len(), 1);
    ti.pop::<i32>().unwrap();
    assert_eq!(ti.len(), 0);

    let _ = ti.pop::<i32>();
    let _ = ti.pop::<i32>();

    assert_eq!(ti.len(), 0);
}

#[test]
fn failed_pop_leaves_the_stack() {
    let mut ti = Stack::default();
    ti.push(7i64).unwrap();
    ti.push(42i32).unwrap();
    let result: Result<i64, Trap> = ti.pop();
    assert_eq!(result, Err(Trap::Type(TrapType::Mismatch(ValueType::I64, ValueType::I32))));
    assert_eq!(ti.len(), 2);
    assert_eq!(ti.pop::<Value>(), Ok(Value::I32(42)));
    assert_eq!(ti.pop::<Value>(), Ok(Value::I64(7)));
    assert_eq!(ti.len(), 0);
}

#[test]
fn overflow_leaves_the_stack_full() {
    let mut ti = Stack::default();
    for i in 0..MAX_VALUE_STACK {
        ti.push(Value::I64(i as i64)).unwrap()
    }
    assert_eq!(ti.len(), MAX_VALUE_STACK);
    assert_eq!(ti.push(1i64), Err(Trap::Overflow(TrapOverflow::Stack)));
    assert_eq!(ti.push(Value::I32(1)), Err(Trap::Overflow(TrapOverflow::Stack)));
    assert_eq!(ti.len(), MAX_VALUE_STACK);
    assert_eq!(ti.peek::<i64>(), Ok(MAX_VALUE_STACK as i64 - 1));
}

#[test]
fn unsigned_values_share_the_32_bit_tag() {
    let mut ti = Stack::default();
    ti.push(u32::MAX).unwrap();
    assert_eq!(ti.peek::<i32>(), Ok(-1));
    assert_eq!(ti.peek::<Value>(), Ok(Value::I32(-1)));
    assert_eq!(ti.pop::<u32>(), Ok(u32::MAX));
    ti.push(1i64).unwrap();
    assert_eq!(
        ti.pop::<u32>(),
        Err(Trap::Type(TrapType::Mismatch(ValueType::I32, ValueType::I64)))
    );
}

#[test]
fn values_are_kept_as_little_endian_bytes() {
    let mut ti = Stack::default();
    ti.push(0x0403_0201i32).unwrap();
    ti.push(0x0C0B_0A09_0807_0605i64).unwrap();
    assert_eq!(ti.bytes, vec![1, 2, 3, 4, 5, 6, 7, 8, 9, 10, 11, 12]);
    assert_eq!(ti.types, vec![ValueType::I32, ValueType::I64]);
}

#[test]
fn frames_are_swapped() {
    let mut ti = Stack::default();
    ti.push(5i32).unwrap();
    let mut frame = hal::stack::CallFrame::default();
    frame.ip = -1;
    frame.arity = 1;
    frame.locals = vec![Value::I32(9)];
    let old = ti.replace_frame(frame);
    assert_eq!(old.ip, 0);
    assert_eq!(ti.frame.ip, -1);
    assert_eq!(ti.frame.locals, vec![Value::I32(9)]);
    assert_eq!(ti.len(), 1);
    ti.restore(old);
    assert_eq!(ti.frame.ip, 0);
    assert_eq!(ti.frame.arity, 0);
    assert_eq!(ti.len(), 1);
}
