//! The value stack: a typed stack of integers kept as little-endian bytes
//! beside a list of type tags, and the frame of the function in progress.

use crate::bytes::{lemma_u32_bytes, lemma_u64_bytes, push_u32, push_u64, read_u32_at, read_u64_at, u32_bytes, u32_of, u64_bytes, u64_of};
use crate::instruction::Instruction;
use crate::trap::{Trap, TrapOverflow, TrapType, TrapUnderflow};
use crate::value::{Value, ValueType};
use vstd::prelude::*;

verus! {

pub type InstructionPointer = isize;

pub type StackPointer = usize;

pub type Arity = usize;

/// The most values the stack holds.
pub const MAX_VALUE_STACK: usize = 32768;

/// The state of one function in progress.
#[derive(Debug)]
pub struct CallFrame {
    /// The position of the instruction carried out last; -1 before the first.
    pub ip: InstructionPointer,
    /// The height of the value stack when the function was entered.
    pub sp: StackPointer,
    pub instructions: Vec<Instruction>,
    /// The number of results.
    pub arity: Arity,
    /// The parameters, then the declared locals.
    pub locals: Vec<Value>,
}

pub type Frame = CallFrame;

impl Default for CallFrame {
    fn default() -> (r: Self)
        ensures
            r.ip == 0,
            r.sp == 0,
            r.instructions@.len() == 0,
            r.arity == 0,
            r.locals@.len() == 0,
    {
        Self { ip: 0, sp: 0, instructions: Vec::new(), arity: 0, locals: Vec::new() }
    }
}

/// The bytes a value is kept as.
pub open spec fn encode(v: Value) -> Seq<u8> {
    match v {
        Value::I32(x) => u32_bytes(x as u32),
        Value::I64(x) => u64_bytes(x as u64),
    }
}

/// The value of type `t` that `bytes` keep.
pub open spec fn decode(t: ValueType, bytes: Seq<u8>) -> Value {
    match t {
        ValueType::I32 => Value::I32(u32_of(bytes) as i32),
        ValueType::I64 => Value::I64(u64_of(bytes) as i64),
    }
}

/// The number of bytes that values of the types `types` take together.
pub open spec fn total_width(types: Seq<ValueType>) -> nat
    decreases types.len(),
{
    if types.len() == 0 {
        0
    } else {
        total_width(types.drop_last()) + types.last().width()
    }
}

/// The values that `bytes` keep under the tags `types`, the oldest first.
pub open spec fn values_of(types: Seq<ValueType>, bytes: Seq<u8>) -> Seq<Value>
    decreases types.len(),
{
    if types.len() == 0 {
        Seq::empty()
    } else {
        let split = bytes.len() - types.last().width();
        values_of(types.drop_last(), bytes.subrange(0, split)).push(
            decode(types.last(), bytes.subrange(split, bytes.len() as int)),
        )
    }
}

/// A value read back from its bytes is the value.
pub proof fn lemma_decode_encode(v: Value)
    ensures
        encode(v).len() == v.value_type().width(),
        decode(v.value_type(), encode(v)) == v,
{
    match v {
        Value::I32(x) => {
            lemma_u32_bytes(x as u32);
            assert((x as u32) as i32 == x) by (bit_vector);
        },
        Value::I64(x) => {
            lemma_u64_bytes(x as u64);
            assert((x as u64) as i64 == x) by (bit_vector);
        },
    }
}

proof fn lemma_values_push(types: Seq<ValueType>, bytes: Seq<u8>, v: Value)
    ensures
        values_of(types.push(v.value_type()), bytes + encode(v)) == values_of(types, bytes).push(v),
        total_width(types.push(v.value_type())) == total_width(types) + v.value_type().width(),
{
    lemma_decode_encode(v);
    let t = v.value_type();
    let all = bytes + encode(v);
    assert(types.push(t).drop_last() =~= types);
    assert(all.subrange(0, all.len() - t.width()) =~= bytes);
    assert(all.subrange(all.len() - t.width(), all.len() as int) =~= encode(v));
}

proof fn lemma_width_bounds(types: Seq<ValueType>)
    ensures
        types.len() > 0 ==> total_width(types) >= types.last().width(),
        values_of(types, Seq::<u8>::empty()).len() == types.len(),
    decreases types.len(),
{
    if types.len() > 0 {
        lemma_width_bounds(types.drop_last());
        lemma_values_len(types, Seq::<u8>::empty());
    }
}

proof fn lemma_values_len(types: Seq<ValueType>, bytes: Seq<u8>)
    ensures
        values_of(types, bytes).len() == types.len(),
    decreases types.len(),
{
    if types.len() > 0 {
        let split = bytes.len() - types.last().width();
        lemma_values_len(types.drop_last(), bytes.subrange(0, split));
    }
}

/// A typed stack of values, with the frame of the function in progress.
#[derive(Debug)]
pub struct Stack {
    /// The values, each as its little-endian bytes, the oldest first.
    pub bytes: Vec<u8>,
    /// The type of each value, the oldest first.
    pub types: Vec<ValueType>,
    /// The frame of the function in progress.
    pub frame: CallFrame,
}

impl View for Stack {
    type V = Seq<Value>;

    /// The values on the stack, the oldest first.
    open spec fn view(&self) -> Seq<Value> {
        values_of(self.types@, self.bytes@)
    }
}

/// What reading the top of the stack `s` at the type `T` gives.
pub open spec fn top<T: StackAccess>(s: Seq<Value>) -> Result<T, Trap> {
    if s.len() == 0 {
        Err(Trap::Underflow(TrapUnderflow::Stack))
    } else {
        T::read(s.last())
    }
}

/// The trap for a value of type `got` where `expected` was asked for.
pub open spec fn mismatch(expected: ValueType, got: ValueType) -> Trap {
    Trap::Type(TrapType::Mismatch(expected, got))
}

/// A type whose values go on the stack and come off it.
pub trait StackAccess: Sized {
    /// The stack value that `self` is pushed as.
    spec fn as_value(self) -> Value;

    /// What a stack value gives when it is read at this type.
    spec fn read(v: Value) -> Result<Self, Trap>;

    /// Pushes a value. With the stack full this is a stack overflow, and
    /// the stack stays as it was.
    fn push(stack: &mut Stack, value: Self) -> (r: Result<(), Trap>)
        requires
            old(stack).wf(),
        ensures
            final(stack).wf(),
            final(stack).frame == old(stack).frame,
            match r {
                Ok(_) => old(stack)@.len() < MAX_VALUE_STACK && final(stack)@ == old(stack)@.push(
                    value.as_value(),
                ),
                Err(t) => old(stack)@.len() >= MAX_VALUE_STACK && t == Trap::Overflow(
                    TrapOverflow::Stack,
                ) && *final(stack) == *old(stack),
            },
    ;

    /// Takes the top value off. An empty stack is a stack underflow, a top
    /// value of another type a type mismatch; either leaves the stack as it
    /// was.
    fn pop(stack: &mut Stack) -> (r: Result<Self, Trap>)
        requires
            old(stack).wf(),
        ensures
            final(stack).wf(),
            final(stack).frame == old(stack).frame,
            r == (if old(stack)@.len() == 0 {
                Err(Trap::Underflow(TrapUnderflow::Stack))
            } else {
                Self::read(old(stack)@.last())
            }),
            r is Ok ==> final(stack)@ == old(stack)@.drop_last(),
            r is Err ==> *final(stack) == *old(stack),
    ;

    /// Reads the top value and leaves it there.
    fn peek(stack: &Stack) -> (r: Result<Self, Trap>)
        requires
            stack.wf(),
        ensures
            r == (if stack@.len() == 0 {
                Err(Trap::Underflow(TrapUnderflow::Stack))
            } else {
                Self::read(stack@.last())
            }),
    ;
}

impl Default for Stack {
    fn default() -> (r: Self)
        ensures
            r.wf(),
            r@ == Seq::<Value>::empty(),
            r.frame.ip == 0,
            r.frame.sp == 0,
            r.frame.arity == 0,
            r.frame.instructions@.len() == 0,
            r.frame.locals@.len() == 0,
    {
        Self { bytes: Vec::new(), types: Vec::new(), frame: CallFrame::default() }
    }
}

impl StackAccess for i32 {
    open spec fn as_value(self) -> Value {
        Value::I32(self)
    }

    open spec fn read(v: Value) -> Result<i32, Trap> {
        match v {
            Value::I32(x) => Ok(x),
            Value::I64(_) => Err(mismatch(ValueType::I32, ValueType::I64)),
        }
    }

    fn push(stack: &mut Stack, value: i32) -> (r: Result<(), Trap>) {
        stack.push_word(value as u32, Ghost(Value::I32(value)))
    }

    fn pop(stack: &mut Stack) -> (r: Result<i32, Trap>) {
        let value = <i32 as StackAccess>::peek(stack)?;
        stack.pop_bytes(4);
        Ok(value)
    }

    fn peek(stack: &Stack) -> (r: Result<i32, Trap>) {
        stack.expect_type(ValueType::I32)?;
        Ok(stack.peek_word() as i32)
    }
}

impl StackAccess for u32 {
    open spec fn as_value(self) -> Value {
        Value::I32(self as i32)
    }

    open spec fn read(v: Value) -> Result<u32, Trap> {
        match v {
            Value::I32(x) => Ok(x as u32),
            Value::I64(_) => Err(mismatch(ValueType::I32, ValueType::I64)),
        }
    }

    fn push(stack: &mut Stack, value: u32) -> (r: Result<(), Trap>) {
        assert((value as i32) as u32 == value) by (bit_vector);
        stack.push_word(value, Ghost(Value::I32(value as i32)))
    }

    fn pop(stack: &mut Stack) -> (r: Result<u32, Trap>) {
        let value = <u32 as StackAccess>::peek(stack)?;
        stack.pop_bytes(4);
        Ok(value)
    }

    fn peek(stack: &Stack) -> (r: Result<u32, Trap>) {
        stack.expect_type(ValueType::I32)?;
        let word = stack.peek_word();
        assert((word as i32) as u32 == word) by (bit_vector);
        Ok(word)
    }
}

impl StackAccess for i64 {
    open spec fn as_value(self) -> Value {
        Value::I64(self)
    }

    open spec fn read(v: Value) -> Result<i64, Trap> {
        match v {
            Value::I64(x) => Ok(x),
            Value::I32(_) => Err(mismatch(ValueType::I64, ValueType::I32)),
        }
    }

    fn push(stack: &mut Stack, value: i64) -> (r: Result<(), Trap>) {
        stack.push_long(value as u64, Ghost(Value::I64(value)))
    }

    fn pop(stack: &mut Stack) -> (r: Result<i64, Trap>) {
        let value = <i64 as StackAccess>::peek(stack)?;
        stack.pop_bytes(8);
        Ok(value)
    }

    fn peek(stack: &Stack) -> (r: Result<i64, Trap>) {
        stack.expect_type(ValueType::I64)?;
        Ok(stack.peek_long() as i64)
    }
}

impl StackAccess for Value {
    open spec fn as_value(self) -> Value {
        self
    }

    open spec fn read(v: Value) -> Result<Value, Trap> {
        Ok(v)
    }

    fn push(stack: &mut Stack, v: Value) -> (r: Result<(), Trap>) {
        match v {
            Value::I32(i) => <i32 as StackAccess>::push(stack, i),
            Value::I64(i) => <i64 as StackAccess>::push(stack, i),
        }
    }

    fn pop(stack: &mut Stack) -> (r: Result<Value, Trap>) {
        match stack.peek_type()? {
            ValueType::I32 => match <i32 as StackAccess>::pop(stack) {
                Ok(v) => Ok(Value::I32(v)),
                Err(t) => Err(t),
            },
            ValueType::I64 => match <i64 as StackAccess>::pop(stack) {
                Ok(v) => Ok(Value::I64(v)),
                Err(t) => Err(t),
            },
        }
    }

    fn peek(stack: &Stack) -> (r: Result<Value, Trap>) {
        match stack.peek_type()? {
            ValueType::I32 => match <i32 as StackAccess>::peek(stack) {
                Ok(v) => Ok(Value::I32(v)),
                Err(t) => Err(t),
            },
            ValueType::I64 => match <i64 as StackAccess>::peek(stack) {
                Ok(v) => Ok(Value::I64(v)),
                Err(t) => Err(t),
            },
        }
    }
}

impl Stack {
    /// The tags and the bytes agree: the widths of the tags add up to the
    /// number of bytes, and the stack holds no more values than it may.
    pub open spec fn wf(&self) -> bool {
        &&& self.bytes@.len() == total_width(self.types@)
        &&& self.types@.len() <= MAX_VALUE_STACK
    }

    /// The stack holds as many values as it has tags, and never more than
    /// `MAX_VALUE_STACK`.
    pub proof fn lemma_len(&self)
        requires
            self.wf(),
        ensures
            self@.len() <= MAX_VALUE_STACK,
    {
        lemma_values_len(self.types@, self.bytes@);
    }

    pub fn push<V: StackAccess>(&mut self, v: V) -> (r: Result<(), Trap>)
        requires
            old(self).wf(),
        ensures
            final(self).wf(),
            final(self).frame == old(self).frame,
            match r {
                Ok(_) => old(self)@.len() < MAX_VALUE_STACK && final(self)@ == old(self)@.push(
                    v.as_value(),
                ),
                Err(t) => old(self)@.len() >= MAX_VALUE_STACK && t == Trap::Overflow(
                    TrapOverflow::Stack,
                ) && *final(self) == *old(self),
            },
    {
        V::push(self, v)
    }

    pub fn peek<V: StackAccess>(&self) -> (r: Result<V, Trap>)
        requires
            self.wf(),
        ensures
            r == top::<V>(self@),
    {
        V::peek(self)
    }

    pub fn pop<V: StackAccess>(&mut self) -> (r: Result<V, Trap>)
        requires
            old(self).wf(),
        ensures
            final(self).wf(),
            final(self).frame == old(self).frame,
            r == top::<V>(old(self)@),
            r is Ok ==> final(self)@ == old(self)@.drop_last(),
            r is Err ==> *final(self) == *old(self),
    {
        V::pop(self)
    }

    /// Pushes a 32-bit value given by its bits.
    fn push_word(&mut self, word: u32, Ghost(v): Ghost<Value>) -> (r: Result<(), Trap>)
        requires
            old(self).wf(),
            v is I32,
            v->I32_0 as u32 == word,
        ensures
            final(self).wf(),
            final(self).frame == old(self).frame,
            match r {
                Ok(_) => old(self)@.len() < MAX_VALUE_STACK && final(self)@ == old(self)@.push(v),
                Err(t) => old(self)@.len() >= MAX_VALUE_STACK && t == Trap::Overflow(
                    TrapOverflow::Stack,
                ) && *final(self) == *old(self),
            },
    {
        proof {
            lemma_values_len(self.types@, self.bytes@);
        }
        if self.types.len() + 1 > MAX_VALUE_STACK {
            return Err(Trap::Overflow(TrapOverflow::Stack));
        }
        proof {
            lemma_values_push(self.types@, self.bytes@, v);
        }
        push_u32(&mut self.bytes, word);
        self.types.push(ValueType::I32);
        Ok(())
    }

    /// Pushes a 64-bit value given by its bits.
    fn push_long(&mut self, long: u64, Ghost(v): Ghost<Value>) -> (r: Result<(), Trap>)
        requires
            old(self).wf(),
            v is I64,
            v->I64_0 as u64 == long,
        ensures
            final(self).wf(),
            final(self).frame == old(self).frame,
            match r {
                Ok(_) => old(self)@.len() < MAX_VALUE_STACK && final(self)@ == old(self)@.push(v),
                Err(t) => old(self)@.len() >= MAX_VALUE_STACK && t == Trap::Overflow(
                    TrapOverflow::Stack,
                ) && *final(self) == *old(self),
            },
    {
        proof {
            lemma_values_len(self.types@, self.bytes@);
        }
        if self.types.len() + 1 > MAX_VALUE_STACK {
            return Err(Trap::Overflow(TrapOverflow::Stack));
        }
        proof {
            lemma_values_push(self.types@, self.bytes@, v);
        }
        push_u64(&mut self.bytes, long);
        self.types.push(ValueType::I64);
        Ok(())
    }

    /// Drops the top value, which takes `s` bytes.
    fn pop_bytes(&mut self, s: usize)
        requires
            old(self).wf(),
            old(self).types@.len() > 0,
            old(self).types@.last().width() == s,
        ensures
            final(self).wf(),
            final(self).frame == old(self).frame,
            final(self)@ == old(self)@.drop_last(),
    {
        proof {
            lemma_width_bounds(self.types@);
        }
        let ghost values = self@;
        let keep = self.bytes.len() - s;
        self.bytes.truncate(keep);
        self.types.pop();
        assert(self.types@ =~= old(self).types@.drop_last());
        assert(self@ =~= values.drop_last());
    }

    /// The bits of the 32-bit value on top.
    fn peek_word(&self) -> (r: u32)
        requires
            self.wf(),
            self.types@.len() > 0,
            self.types@.last() == ValueType::I32,
        ensures
            self@.len() > 0,
            self@.last() == Value::I32(r as i32),
    {
        proof {
            lemma_width_bounds(self.types@);
        }
        read_u32_at(self.bytes.as_slice(), self.bytes.len() - 4)
    }

    /// The bits of the 64-bit value on top.
    fn peek_long(&self) -> (r: u64)
        requires
            self.wf(),
            self.types@.len() > 0,
            self.types@.last() == ValueType::I64,
        ensures
            self@.len() > 0,
            self@.last() == Value::I64(r as i64),
    {
        proof {
            lemma_width_bounds(self.types@);
        }
        read_u64_at(self.bytes.as_slice(), self.bytes.len() - 8)
    }

    /// Succeeds where the top value has the type `expected`.
    fn expect_type(&self, expected: ValueType) -> (r: Result<(), Trap>)
        requires
            self.wf(),
        ensures
            match r {
                Ok(_) => self.types@.len() > 0 && self.types@.last() == expected && self@.len() > 0
                    && self@.last().value_type() == expected,
                Err(t) => if self@.len() == 0 {
                    t == Trap::Underflow(TrapUnderflow::Stack)
                } else {
                    self@.last().value_type() != expected && t == mismatch(
                        expected,
                        self@.last().value_type(),
                    )
                },
            },
    {
        let got = self.peek_type()?;
        if got != expected {
            Err(Trap::Type(TrapType::Mismatch(expected, got)))
        } else {
            Ok(())
        }
    }

    /// The type of the top value.
    fn peek_type(&self) -> (r: Result<ValueType, Trap>)
        requires
            self.wf(),
        ensures
            match r {
                Ok(t) => self.types@.len() > 0 && self.types@.last() == t && self@.len() > 0
                    && self@.last().value_type() == t,
                Err(t) => self@.len() == 0 && t == Trap::Underflow(TrapUnderflow::Stack),
            },
    {
        proof {
            lemma_values_len(self.types@, self.bytes@);
        }
        if self.types.len() == 0 {
            Err(Trap::Underflow(TrapUnderflow::Stack))
        } else {
            Ok(self.types[self.types.len() - 1])
        }
    }

    /// The number of values on the stack.
    pub fn len(&self) -> (r: usize)
        requires
            self.wf(),
        ensures
            r == self@.len(),
    {
        proof {
            lemma_values_len(self.types@, self.bytes@);
        }
        self.types.len()
    }

    /// Makes `frame` the current frame and hands back the one it replaces.
    pub fn replace_frame(&mut self, frame: CallFrame) -> (r: CallFrame)
        ensures
            r == old(self).frame,
            final(self).frame == frame,
            final(self)@ == old(self)@,
            final(self).wf() == old(self).wf(),
    {
        let mut frame = frame;
        core::mem::swap(&mut self.frame, &mut frame);
        frame
    }

    /// Makes `frame` the current frame again.
    pub fn restore(&mut self, frame: CallFrame)
        ensures
            final(self).frame == frame,
            final(self)@ == old(self)@,
            final(self).wf() == old(self).wf(),
    {
        self.frame = frame;
    }
}

/// A value is read back at its own type, and at no other: the top of a
/// stack is a type mismatch at the type that the value pushed last does not
/// have.
pub proof fn lemma_top_is_typed(s: Seq<Value>, word: i32, long: i64)
    ensures
        top::<i32>(s.push(Value::I32(word))) == Ok::<i32, Trap>(word),
        top::<i64>(s.push(Value::I64(long))) == Ok::<i64, Trap>(long),
        top::<i64>(s.push(Value::I32(word))) == Err::<i64, Trap>(
            mismatch(ValueType::I64, ValueType::I32),
        ),
        top::<i32>(s.push(Value::I64(long))) == Err::<i32, Trap>(
            mismatch(ValueType::I32, ValueType::I64),
        ),
        top::<Value>(s.push(Value::I32(word))) == Ok::<Value, Trap>(Value::I32(word)),
        top::<Value>(s.push(Value::I64(long))) == Ok::<Value, Trap>(Value::I64(long)),
        top::<Value>(Seq::<Value>::empty()) == Err::<Value, Trap>(
            Trap::Underflow(TrapUnderflow::Stack),
        ),
{
}

} // verus!
