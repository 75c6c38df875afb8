//! What the instructions do.
//!
//! The meaning of a function body is given here as a function on plain
//! values: a stack of values, the locals of the function in progress and the
//! linear memories. The interpreter is proved to compute it.

use crate::bytes::{u32_bytes, u64_bytes, written};
use crate::instruction::Instruction;
use crate::module::{ExportSpec, FunctionSpec, MemorySpec};
use crate::numeric::{binary_i32, binary_i64, test_i32, test_i64, unary_i32, unary_i64, BinaryOp, TestOp, UnaryOp};
use crate::stack::{top, StackAccess, MAX_VALUE_STACK};
use crate::trap::{Trap, TrapNotFound, TrapOutOfBounds, TrapOverflow, TrapUnderflow};
use crate::value::{Value, ValueType};
use vstd::prelude::*;

verus! {

/// The most function calls that may be in progress at once.
pub const MAX_CALL_DEPTH: usize = 1024;

/// What an instruction asks for.
#[derive(Debug, Clone, Copy, PartialEq, Eq, Structural)]
pub enum Operation {
    /// Two operands of one type, a result of that type.
    Binary(ValueType, BinaryOp),
    /// Two operands of one type, a 32-bit 1 or 0 as the result.
    Test(ValueType, TestOp),
    /// One operand, a result of its type.
    Unary(ValueType, UnaryOp),
    /// One operand, a 32-bit 1 where it is zero, else 0.
    Eqz(ValueType),
    /// A constant.
    Const(Value),
    /// The value of a local.
    LocalGet(u32),
    /// A new value for a local.
    LocalSet(u32),
    /// A value of the given type written to memory 0 at the given offset
    /// from an address.
    Store(ValueType, u32),
    /// A call of the function at an index.
    Call(u32),
    /// The end of the function body.
    End,
    /// An instruction that the interpreter does not carry out.
    Unsupported,
}

impl Instruction {
    /// What the instruction asks for.
    pub open spec fn operation(self) -> Operation {
        match self {
            Instruction::AddI32 => Operation::Binary(ValueType::I32, BinaryOp::Add),
            Instruction::AddI64 => Operation::Binary(ValueType::I64, BinaryOp::Add),
            Instruction::AndI32 => Operation::Binary(ValueType::I32, BinaryOp::And),
            Instruction::AndI64 => Operation::Binary(ValueType::I64, BinaryOp::And),
            Instruction::Call(addr) => Operation::Call(addr),
            Instruction::ClzI32 => Operation::Unary(ValueType::I32, UnaryOp::Clz),
            Instruction::ClzI64 => Operation::Unary(ValueType::I64, UnaryOp::Clz),
            Instruction::ConstI32(value) => Operation::Const(Value::I32(value)),
            Instruction::ConstI64(value) => Operation::Const(Value::I64(value)),
            Instruction::CtzI32 => Operation::Unary(ValueType::I32, UnaryOp::Ctz),
            Instruction::CtzI64 => Operation::Unary(ValueType::I64, UnaryOp::Ctz),
            Instruction::DivSI32 => Operation::Binary(ValueType::I32, BinaryOp::DivS),
            Instruction::DivSI64 => Operation::Binary(ValueType::I64, BinaryOp::DivS),
            Instruction::DivUI32 => Operation::Binary(ValueType::I32, BinaryOp::DivU),
            Instruction::DivUI64 => Operation::Binary(ValueType::I64, BinaryOp::DivU),
            Instruction::End => Operation::End,
            Instruction::EqI32 => Operation::Test(ValueType::I32, TestOp::Eq),
            Instruction::EqI64 => Operation::Test(ValueType::I64, TestOp::Eq),
            Instruction::EqzI32 => Operation::Eqz(ValueType::I32),
            Instruction::EqzI64 => Operation::Eqz(ValueType::I64),
            Instruction::Extend16SI32 => Operation::Unary(ValueType::I32, UnaryOp::Extend16S),
            Instruction::Extend16SI64 => Operation::Unary(ValueType::I64, UnaryOp::Extend16S),
            Instruction::Extend32SI64 => Operation::Unary(ValueType::I64, UnaryOp::Extend32S),
            Instruction::Extend8SI32 => Operation::Unary(ValueType::I32, UnaryOp::Extend8S),
            Instruction::Extend8SI64 => Operation::Unary(ValueType::I64, UnaryOp::Extend8S),
            Instruction::GeSI32 => Operation::Test(ValueType::I32, TestOp::GeS),
            Instruction::GeSI64 => Operation::Test(ValueType::I64, TestOp::GeS),
            Instruction::GeUI32 => Operation::Test(ValueType::I32, TestOp::GeU),
            Instruction::GeUI64 => Operation::Test(ValueType::I64, TestOp::GeU),
            Instruction::GtSI32 => Operation::Test(ValueType::I32, TestOp::GtS),
            Instruction::GtSI64 => Operation::Test(ValueType::I64, TestOp::GtS),
            Instruction::GtUI32 => Operation::Test(ValueType::I32, TestOp::GtU),
            Instruction::GtUI64 => Operation::Test(ValueType::I64, TestOp::GtU),
            Instruction::LeSI32 => Operation::Test(ValueType::I32, TestOp::LeS),
            Instruction::LeSI64 => Operation::Test(ValueType::I64, TestOp::LeS),
            Instruction::LeUI32 => Operation::Test(ValueType::I32, TestOp::LeU),
            Instruction::LeUI64 => Operation::Test(ValueType::I64, TestOp::LeU),
            Instruction::LocalGet32(index) => Operation::LocalGet(index),
            Instruction::LocalSet32(index) => Operation::LocalSet(index),
            Instruction::LtSI32 => Operation::Test(ValueType::I32, TestOp::LtS),
            Instruction::LtSI64 => Operation::Test(ValueType::I64, TestOp::LtS),
            Instruction::LtUI32 => Operation::Test(ValueType::I32, TestOp::LtU),
            Instruction::LtUI64 => Operation::Test(ValueType::I64, TestOp::LtU),
            Instruction::MulI32 => Operation::Binary(ValueType::I32, BinaryOp::Mul),
            Instruction::MulI64 => Operation::Binary(ValueType::I64, BinaryOp::Mul),
            Instruction::NeI32 => Operation::Test(ValueType::I32, TestOp::Ne),
            Instruction::NeI64 => Operation::Test(ValueType::I64, TestOp::Ne),
            Instruction::OrI32 => Operation::Binary(ValueType::I32, BinaryOp::Or),
            Instruction::OrI64 => Operation::Binary(ValueType::I64, BinaryOp::Or),
            Instruction::PopcntI32 => Operation::Unary(ValueType::I32, UnaryOp::Popcnt),
            Instruction::PopcntI64 => Operation::Unary(ValueType::I64, UnaryOp::Popcnt),
            Instruction::RemSI32 => Operation::Binary(ValueType::I32, BinaryOp::RemS),
            Instruction::RemSI64 => Operation::Binary(ValueType::I64, BinaryOp::RemS),
            Instruction::RemUI32 => Operation::Binary(ValueType::I32, BinaryOp::RemU),
            Instruction::RemUI64 => Operation::Binary(ValueType::I64, BinaryOp::RemU),
            Instruction::RotlI32 => Operation::Binary(ValueType::I32, BinaryOp::Rotl),
            Instruction::RotlI64 => Operation::Binary(ValueType::I64, BinaryOp::Rotl),
            Instruction::RotrI32 => Operation::Binary(ValueType::I32, BinaryOp::Rotr),
            Instruction::RotrI64 => Operation::Binary(ValueType::I64, BinaryOp::Rotr),
            Instruction::ShlI32 => Operation::Binary(ValueType::I32, BinaryOp::Shl),
            Instruction::ShlI64 => Operation::Binary(ValueType::I64, BinaryOp::Shl),
            Instruction::ShrSI32 => Operation::Binary(ValueType::I32, BinaryOp::ShrS),
            Instruction::ShrSI64 => Operation::Binary(ValueType::I64, BinaryOp::ShrS),
            Instruction::ShrUI32 => Operation::Binary(ValueType::I32, BinaryOp::ShrU),
            Instruction::ShrUI64 => Operation::Binary(ValueType::I64, BinaryOp::ShrU),
            Instruction::StoreI32 { flags: _, offset } => Operation::Store(ValueType::I32, offset),
            Instruction::StoreI64 { flags: _, offset } => Operation::Store(ValueType::I64, offset),
            Instruction::SubI32 => Operation::Binary(ValueType::I32, BinaryOp::Sub),
            Instruction::SubI64 => Operation::Binary(ValueType::I64, BinaryOp::Sub),
            Instruction::XorI32 => Operation::Binary(ValueType::I32, BinaryOp::Xor),
            Instruction::XorI64 => Operation::Binary(ValueType::I64, BinaryOp::Xor),
            _ => Operation::Unsupported,
        }
    }

    /// What the instruction asks for.
    pub fn decode(&self) -> (r: Operation)
        ensures
            r == self.operation(),
    {
        match *self {
            Instruction::AddI32 => Operation::Binary(ValueType::I32, BinaryOp::Add),
            Instruction::AddI64 => Operation::Binary(ValueType::I64, BinaryOp::Add),
            Instruction::AndI32 => Operation::Binary(ValueType::I32, BinaryOp::And),
            Instruction::AndI64 => Operation::Binary(ValueType::I64, BinaryOp::And),
            Instruction::Call(addr) => Operation::Call(addr),
            Instruction::ClzI32 => Operation::Unary(ValueType::I32, UnaryOp::Clz),
            Instruction::ClzI64 => Operation::Unary(ValueType::I64, UnaryOp::Clz),
            Instruction::ConstI32(value) => Operation::Const(Value::I32(value)),
            Instruction::ConstI64(value) => Operation::Const(Value::I64(value)),
            Instruction::CtzI32 => Operation::Unary(ValueType::I32, UnaryOp::Ctz),
            Instruction::CtzI64 => Operation::Unary(ValueType::I64, UnaryOp::Ctz),
            Instruction::DivSI32 => Operation::Binary(ValueType::I32, BinaryOp::DivS),
            Instruction::DivSI64 => Operation::Binary(ValueType::I64, BinaryOp::DivS),
            Instruction::DivUI32 => Operation::Binary(ValueType::I32, BinaryOp::DivU),
            Instruction::DivUI64 => Operation::Binary(ValueType::I64, BinaryOp::DivU),
            Instruction::End => Operation::End,
            Instruction::EqI32 => Operation::Test(ValueType::I32, TestOp::Eq),
            Instruction::EqI64 => Operation::Test(ValueType::I64, TestOp::Eq),
            Instruction::EqzI32 => Operation::Eqz(ValueType::I32),
            Instruction::EqzI64 => Operation::Eqz(ValueType::I64),
            Instruction::Extend16SI32 => Operation::Unary(ValueType::I32, UnaryOp::Extend16S),
            Instruction::Extend16SI64 => Operation::Unary(ValueType::I64, UnaryOp::Extend16S),
            Instruction::Extend32SI64 => Operation::Unary(ValueType::I64, UnaryOp::Extend32S),
            Instruction::Extend8SI32 => Operation::Unary(ValueType::I32, UnaryOp::Extend8S),
            Instruction::Extend8SI64 => Operation::Unary(ValueType::I64, UnaryOp::Extend8S),
            Instruction::GeSI32 => Operation::Test(ValueType::I32, TestOp::GeS),
            Instruction::GeSI64 => Operation::Test(ValueType::I64, TestOp::GeS),
            Instruction::GeUI32 => Operation::Test(ValueType::I32, TestOp::GeU),
            Instruction::GeUI64 => Operation::Test(ValueType::I64, TestOp::GeU),
            Instruction::GtSI32 => Operation::Test(ValueType::I32, TestOp::GtS),
            Instruction::GtSI64 => Operation::Test(ValueType::I64, TestOp::GtS),
            Instruction::GtUI32 => Operation::Test(ValueType::I32, TestOp::GtU),
            Instruction::GtUI64 => Operation::Test(ValueType::I64, TestOp::GtU),
            Instruction::LeSI32 => Operation::Test(ValueType::I32, TestOp::LeS),
            Instruction::LeSI64 => Operation::Test(ValueType::I64, TestOp::LeS),
            Instruction::LeUI32 => Operation::Test(ValueType::I32, TestOp::LeU),
            Instruction::LeUI64 => Operation::Test(ValueType::I64, TestOp::LeU),
            Instruction::LocalGet32(index) => Operation::LocalGet(index),
            Instruction::LocalSet32(index) => Operation::LocalSet(index),
            Instruction::LtSI32 => Operation::Test(ValueType::I32, TestOp::LtS),
            Instruction::LtSI64 => Operation::Test(ValueType::I64, TestOp::LtS),
            Instruction::LtUI32 => Operation::Test(ValueType::I32, TestOp::LtU),
            Instruction::LtUI64 => Operation::Test(ValueType::I64, TestOp::LtU),
            Instruction::MulI32 => Operation::Binary(ValueType::I32, BinaryOp::Mul),
            Instruction::MulI64 => Operation::Binary(ValueType::I64, BinaryOp::Mul),
            Instruction::NeI32 => Operation::Test(ValueType::I32, TestOp::Ne),
            Instruction::NeI64 => Operation::Test(ValueType::I64, TestOp::Ne),
            Instruction::OrI32 => Operation::Binary(ValueType::I32, BinaryOp::Or),
            Instruction::OrI64 => Operation::Binary(ValueType::I64, BinaryOp::Or),
            Instruction::PopcntI32 => Operation::Unary(ValueType::I32, UnaryOp::Popcnt),
            Instruction::PopcntI64 => Operation::Unary(ValueType::I64, UnaryOp::Popcnt),
            Instruction::RemSI32 => Operation::Binary(ValueType::I32, BinaryOp::RemS),
            Instruction::RemSI64 => Operation::Binary(ValueType::I64, BinaryOp::RemS),
            Instruction::RemUI32 => Operation::Binary(ValueType::I32, BinaryOp::RemU),
            Instruction::RemUI64 => Operation::Binary(ValueType::I64, BinaryOp::RemU),
            Instruction::RotlI32 => Operation::Binary(ValueType::I32, BinaryOp::Rotl),
            Instruction::RotlI64 => Operation::Binary(ValueType::I64, BinaryOp::Rotl),
            Instruction::RotrI32 => Operation::Binary(ValueType::I32, BinaryOp::Rotr),
            Instruction::RotrI64 => Operation::Binary(ValueType::I64, BinaryOp::Rotr),
            Instruction::ShlI32 => Operation::Binary(ValueType::I32, BinaryOp::Shl),
            Instruction::ShlI64 => Operation::Binary(ValueType::I64, BinaryOp::Shl),
            Instruction::ShrSI32 => Operation::Binary(ValueType::I32, BinaryOp::ShrS),
            Instruction::ShrSI64 => Operation::Binary(ValueType::I64, BinaryOp::ShrS),
            Instruction::ShrUI32 => Operation::Binary(ValueType::I32, BinaryOp::ShrU),
            Instruction::ShrUI64 => Operation::Binary(ValueType::I64, BinaryOp::ShrU),
            Instruction::StoreI32 { flags: _, offset } => Operation::Store(ValueType::I32, offset),
            Instruction::StoreI64 { flags: _, offset } => Operation::Store(ValueType::I64, offset),
            Instruction::SubI32 => Operation::Binary(ValueType::I32, BinaryOp::Sub),
            Instruction::SubI64 => Operation::Binary(ValueType::I64, BinaryOp::Sub),
            Instruction::XorI32 => Operation::Binary(ValueType::I32, BinaryOp::Xor),
            Instruction::XorI64 => Operation::Binary(ValueType::I64, BinaryOp::Xor),
            _ => Operation::Unsupported,
        }
    }
}

/// The state that instructions work on: the value stack, the oldest value
/// first, and the linear memories.
pub struct Machine {
    pub stack: Seq<Value>,
    pub memories: Seq<MemorySpec>,
}

/// A function body that can be run: it is not longer than an instruction
/// pointer can count, it ends with `End`, and every local it names is one
/// of its parameters or declared locals.
pub open spec fn runnable(code: Seq<Instruction>, locals: nat) -> bool {
    &&& 0 < code.len() <= isize::MAX
    &&& code.last() == Instruction::End
    &&& forall|i: int|
        0 <= i < code.len() ==> match (#[trigger] code[i]).operation() {
            Operation::LocalGet(index) => index < locals,
            Operation::LocalSet(index) => index < locals,
            _ => true,
        }
}

/// Whether every function of the list can be run.
pub open spec fn all_runnable(functions: Seq<FunctionSpec>) -> bool {
    forall|i: int|
        0 <= i < functions.len() ==> runnable(
            (#[trigger] functions[i]).code,
            functions[i].params.len() + functions[i].locals.len(),
        )
}

/// A truth value as the instructions give it: a 32-bit 1 or 0.
pub open spec fn truth(b: bool) -> Value {
    if b {
        Value::I32(1)
    } else {
        Value::I32(0)
    }
}

/// The stack without its `n` newest values.
pub open spec fn below(stack: Seq<Value>, n: nat) -> Seq<Value> {
    stack.subrange(0, stack.len() - n)
}

/// The two newest values read at the type `T`: the older one, which is the
/// left operand, and the newer one, the right operand.
pub open spec fn operands<T: StackAccess>(stack: Seq<Value>) -> Result<(T, T), Trap> {
    match top::<T>(stack) {
        Err(t) => Err(t),
        Ok(rhs) => match top::<T>(stack.drop_last()) {
            Err(t) => Err(t),
            Ok(lhs) => Ok((lhs, rhs)),
        },
    }
}

/// The stack with `v` pushed, or a stack overflow where it is full.
pub open spec fn pushed(stack: Seq<Value>, v: Value) -> Result<Seq<Value>, Trap> {
    if stack.len() >= MAX_VALUE_STACK {
        Err(Trap::Overflow(TrapOverflow::Stack))
    } else {
        Ok(stack.push(v))
    }
}

/// The memories after `bytes` were written to memory 0 at the unsigned
/// address `addr` plus `offset`. A missing memory and a write that does not
/// fit are traps.
pub open spec fn stored(memories: Seq<MemorySpec>, addr: i32, offset: u32, bytes: Seq<u8>) -> Result<
    Seq<MemorySpec>,
    Trap,
> {
    let at = (addr as u32) + offset;
    if memories.len() == 0 {
        Err(Trap::NotFound(TrapNotFound::Memory(0)))
    } else if at + bytes.len() > memories[0].data.len() {
        Err(Trap::OutOfBounds(TrapOutOfBounds::Memory))
    } else {
        Ok(
            memories.update(
                0,
                MemorySpec { data: written(memories[0].data, at, bytes), max: memories[0].max },
            ),
        )
    }
}

/// What an operation other than a call or the end of the body makes of the
/// locals and the machine.
#[verifier::opaque]
pub open spec fn step(op: Operation, locals: Seq<Value>, m: Machine) -> Result<
    (Seq<Value>, Machine),
    Trap,
> {
    match op {
        Operation::Binary(ValueType::I32, o) => match operands::<i32>(m.stack) {
            Err(t) => Err(t),
            Ok((lhs, rhs)) => match binary_i32(o, lhs, rhs) {
                Err(t) => Err(t),
                Ok(v) => Ok((locals, Machine { stack: below(m.stack, 2).push(Value::I32(v)), ..m })),
            },
        },
        Operation::Binary(ValueType::I64, o) => match operands::<i64>(m.stack) {
            Err(t) => Err(t),
            Ok((lhs, rhs)) => match binary_i64(o, lhs, rhs) {
                Err(t) => Err(t),
                Ok(v) => Ok((locals, Machine { stack: below(m.stack, 2).push(Value::I64(v)), ..m })),
            },
        },
        Operation::Test(ValueType::I32, o) => match operands::<i32>(m.stack) {
            Err(t) => Err(t),
            Ok((lhs, rhs)) => Ok(
                (locals, Machine { stack: below(m.stack, 2).push(truth(test_i32(o, lhs, rhs))), ..m }),
            ),
        },
        Operation::Test(ValueType::I64, o) => match operands::<i64>(m.stack) {
            Err(t) => Err(t),
            Ok((lhs, rhs)) => Ok(
                (locals, Machine { stack: below(m.stack, 2).push(truth(test_i64(o, lhs, rhs))), ..m }),
            ),
        },
        Operation::Unary(ValueType::I32, o) => match top::<i32>(m.stack) {
            Err(t) => Err(t),
            Ok(v) => Ok(
                (locals, Machine { stack: below(m.stack, 1).push(Value::I32(unary_i32(o, v))), ..m }),
            ),
        },
        Operation::Unary(ValueType::I64, o) => match top::<i64>(m.stack) {
            Err(t) => Err(t),
            Ok(v) => Ok(
                (locals, Machine { stack: below(m.stack, 1).push(Value::I64(unary_i64(o, v))), ..m }),
            ),
        },
        Operation::Eqz(ValueType::I32) => match top::<i32>(m.stack) {
            Err(t) => Err(t),
            Ok(v) => Ok((locals, Machine { stack: below(m.stack, 1).push(truth(v == 0)), ..m })),
        },
        Operation::Eqz(ValueType::I64) => match top::<i64>(m.stack) {
            Err(t) => Err(t),
            Ok(v) => Ok((locals, Machine { stack: below(m.stack, 1).push(truth(v == 0)), ..m })),
        },
        Operation::Const(v) => match pushed(m.stack, v) {
            Err(t) => Err(t),
            Ok(stack) => Ok((locals, Machine { stack, ..m })),
        },
        Operation::LocalGet(index) => match pushed(m.stack, locals[index as int]) {
            Err(t) => Err(t),
            Ok(stack) => Ok((locals, Machine { stack, ..m })),
        },
        Operation::LocalSet(index) => match top::<Value>(m.stack) {
            Err(t) => Err(t),
            Ok(v) => Ok((locals.update(index as int, v), Machine { stack: below(m.stack, 1), ..m })),
        },
        Operation::Store(ValueType::I32, offset) => match top::<i32>(m.stack) {
            Err(t) => Err(t),
            Ok(v) => match top::<i32>(m.stack.drop_last()) {
                Err(t) => Err(t),
                Ok(addr) => match stored(m.memories, addr, offset, u32_bytes(v as u32)) {
                    Err(t) => Err(t),
                    Ok(memories) => Ok((locals, Machine { stack: below(m.stack, 2), memories })),
                },
            },
        },
        Operation::Store(ValueType::I64, offset) => match top::<i64>(m.stack) {
            Err(t) => Err(t),
            Ok(v) => match top::<i32>(m.stack.drop_last()) {
                Err(t) => Err(t),
                Ok(addr) => match stored(m.memories, addr, offset, u64_bytes(v as u64)) {
                    Err(t) => Err(t),
                    Ok(memories) => Ok((locals, Machine { stack: below(m.stack, 2), memories })),
                },
            },
        },
        Operation::Call(_) => Ok((locals, m)),
        Operation::End => Ok((locals, m)),
        Operation::Unsupported => Ok((locals, m)),
    }
}

/// How many of two operands were taken off the stack before the second of
/// them, read at the type `B`, or the first, read at the type `A`, could not
/// be had: none where the newest value is no `A`, one where the value below
/// it is no `B`, else both.
pub open spec fn taken<A: StackAccess, B: StackAccess>(stack: Seq<Value>) -> nat {
    if top::<A>(stack) is Err {
        0
    } else if top::<B>(stack.drop_last()) is Err {
        1
    } else {
        2
    }
}

/// How many values an operation that traps has taken off the stack. A trap
/// leaves everything else as it was: nothing is pushed, and no local and no
/// byte of a memory changes.
pub open spec fn taken_before_trap(op: Operation, stack: Seq<Value>) -> nat {
    match op {
        Operation::Binary(ValueType::I32, _) => taken::<i32, i32>(stack),
        Operation::Binary(ValueType::I64, _) => taken::<i64, i64>(stack),
        Operation::Test(ValueType::I32, _) => taken::<i32, i32>(stack),
        Operation::Test(ValueType::I64, _) => taken::<i64, i64>(stack),
        Operation::Store(ValueType::I32, _) => taken::<i32, i32>(stack),
        Operation::Store(ValueType::I64, _) => taken::<i64, i32>(stack),
        _ => 0,
    }
}

/// No operation changes the number of locals.
pub proof fn lemma_step_keeps_locals(op: Operation, locals: Seq<Value>, m: Machine)
    requires
        op matches Operation::LocalSet(index) ==> index < locals.len(),
    ensures
        step(op, locals, m) matches Ok((after, _)) ==> after.len() == locals.len(),
{
    reveal(step);
}

/// The locals a function starts with: its arguments, which are the newest
/// values of the stack with the first argument the oldest, and then a zero
/// for each declared local.
pub open spec fn entry_locals(f: FunctionSpec, stack: Seq<Value>) -> Seq<Value> {
    stack.subrange(stack.len() - f.params.len(), stack.len() as int) + Seq::new(
        f.locals.len(),
        |i: int| f.locals[i].zero(),
    )
}

/// A function starts with as many locals as it has parameters and declared
/// locals, and with the first argument as its first local.
pub proof fn lemma_entry_locals(f: FunctionSpec, stack: Seq<Value>)
    requires
        stack.len() >= f.params.len(),
    ensures
        entry_locals(f, stack).len() == f.params.len() + f.locals.len(),
        forall|i: int|
            0 <= i < f.params.len() ==> entry_locals(f, stack)[i] == stack[stack.len()
                - f.params.len() + i],
        forall|i: int|
            0 <= i < f.locals.len() ==> entry_locals(f, stack)[f.params.len() + i]
                == f.locals[i].zero(),
{
}

/// What one instruction makes of the locals and the machine: nothing where
/// it ends the function, else the locals and the machine after it.
///
/// `depth` is the number of calls that may still be entered.
pub open spec fn outcome(
    functions: Seq<FunctionSpec>,
    inst: Instruction,
    locals: Seq<Value>,
    m: Machine,
    depth: nat,
) -> Result<Option<(Seq<Value>, Machine)>, Trap>
    decreases depth, 1nat,
{
    match inst.operation() {
        Operation::End => Ok(None),
        Operation::Call(addr) => match call(functions, addr, m, depth) {
            Err(t) => Err(t),
            Ok(after) => Ok(Some((locals, after))),
        },
        Operation::Unsupported => Err(
            Trap::NotImplemented(crate::trap::TrapNotImplemented::Instruction(inst)),
        ),
        op => match step(op, locals, m) {
            Err(t) => Err(t),
            Ok(after) => Ok(Some(after)),
        },
    }
}

/// The machine after a call of the function at `addr`: the arguments are
/// taken off the stack, the body runs, and what it leaves on the stack
/// stays there.
///
/// An index without a function, a call with no depth left, and a stack with
/// fewer values than the function has parameters are traps.
pub open spec fn call(functions: Seq<FunctionSpec>, addr: u32, m: Machine, depth: nat) -> Result<
    Machine,
    Trap,
>
    decreases depth, 0nat,
{
    if addr >= functions.len() {
        Err(Trap::NotFound(TrapNotFound::FunctionLocal(addr)))
    } else if depth == 0 {
        Err(Trap::Overflow(TrapOverflow::Stack))
    } else {
        let f = functions[addr as int];
        if m.stack.len() < f.params.len() {
            Err(Trap::Underflow(TrapUnderflow::Stack))
        } else {
            run(
                functions,
                f.code,
                0,
                entry_locals(f, m.stack),
                Machine { stack: below(m.stack, f.params.len()), ..m },
                (depth - 1) as nat,
            )
        }
    }
}

/// A call that returns leaves the locals of the caller as they were; the
/// stack and the memories behind it are those that the callee left.
pub proof fn lemma_call_keeps_locals(
    functions: Seq<FunctionSpec>,
    addr: u32,
    locals: Seq<Value>,
    m: Machine,
    depth: nat,
)
    ensures
        match call(functions, addr, m, depth) {
            Ok(after) => outcome(functions, Instruction::Call(addr), locals, m, depth) == Ok::<
                Option<(Seq<Value>, Machine)>,
                Trap,
            >(Some((locals, after))),
            Err(t) => outcome(functions, Instruction::Call(addr), locals, m, depth) == Err::<
                Option<(Seq<Value>, Machine)>,
                Trap,
            >(t),
        },
{
}

/// The machine after the instructions of `code` from position `at` on were
/// carried out, up to the first that ends the function.
pub open spec fn run(
    functions: Seq<FunctionSpec>,
    code: Seq<Instruction>,
    at: nat,
    locals: Seq<Value>,
    m: Machine,
    depth: nat,
) -> Result<Machine, Trap>
    decreases depth, code.len() - at + 2,
{
    if at >= code.len() {
        Ok(m)
    } else {
        match outcome(functions, code[at as int], locals, m, depth) {
            Err(t) => Err(t),
            Ok(None) => Ok(m),
            Ok(Some((locals_after, after))) => run(
                functions,
                code,
                at + 1,
                locals_after,
                after,
                depth,
            ),
        }
    }
}

/// The index of the first export named `name`.
pub open spec fn find_export(exports: Seq<ExportSpec>, name: Seq<char>) -> Option<int>
    decreases exports.len(),
{
    if exports.len() == 0 {
        None
    } else if exports[0].name == name {
        Some(0)
    } else {
        match find_export(exports.drop_first(), name) {
            Some(i) => Some(i + 1),
            None => None,
        }
    }
}

/// An export that is found is one of the list and has the name asked for.
pub proof fn lemma_find_export(exports: Seq<ExportSpec>, name: Seq<char>)
    ensures
        find_export(exports, name) matches Some(i) ==> 0 <= i < exports.len() && exports[i].name
            == name,
    decreases exports.len(),
{
    if exports.len() > 0 && exports[0].name != name {
        lemma_find_export(exports.drop_first(), name);
    }
}

/// The `n` newest values of the stack, the newest first.
pub open spec fn results(stack: Seq<Value>, n: nat) -> Seq<Value> {
    Seq::new(n, |i: int| stack[stack.len() - 1 - i])
}

/// What invoking the function at `addr` with the arguments `args` gives:
/// the results, the newest first, and the machine they were taken from.
///
/// The arguments are pushed, the function is called with the whole call
/// depth at hand, and as many values as it has results are popped.
pub open spec fn invoked(functions: Seq<FunctionSpec>, addr: u32, args: Seq<Value>, m: Machine) -> Result<
    (Seq<Value>, Machine),
    Trap,
> {
    if m.stack.len() + args.len() > MAX_VALUE_STACK {
        Err(Trap::Overflow(TrapOverflow::Stack))
    } else {
        match call(functions, addr, Machine { stack: m.stack + args, ..m }, MAX_CALL_DEPTH as nat) {
            Err(t) => Err(t),
            Ok(after) => {
                let count = functions[addr as int].results.len();
                if after.stack.len() < count {
                    Err(Trap::Underflow(TrapUnderflow::Stack))
                } else {
                    Ok((results(after.stack, count), Machine { stack: below(after.stack, count), ..after }))
                }
            },
        }
    }
}

} // verus!
