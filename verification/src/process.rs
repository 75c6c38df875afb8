//! One instance in execution: its store and its value stack.

use crate::bytes::{lemma_u32_bytes, lemma_u64_bytes, u32_bytes, u64_bytes, write_u32, write_u64};
use crate::module::{Export, Function, FunctionAddress, Memory, MemoryAddress};
use crate::numeric::{eval_binary_i32, eval_binary_i64, eval_test_i32, eval_test_i64, eval_unary_i32, eval_unary_i64, BinaryOp, TestOp, UnaryOp};
use crate::semantics::{all_runnable, below, entry_locals, runnable, step, stored, taken_before_trap, Machine, Operation};
use crate::stack::{CallFrame, Stack};
use crate::store::Store;
use crate::trap::{Trap, TrapNotFound, TrapOutOfBounds, TrapUnderflow};
use crate::value::{Value, ValueType};
use vstd::prelude::*;

verus! {

/// An instance in execution.
#[derive(Debug)]
pub struct Process {
    pub state: Store,
    pub stack: Stack,
}

/// Whether `after` is what the operation `op` makes of `before`, and `r`
/// what it reports.
///
/// Where it traps, `r` is the trap, the operands that were taken off the
/// stack before the trap are gone, and the store and the frame are as they
/// were. Else the locals, the stack and the memories are as `step` gives
/// them, with the rest of the frame and the functions and exports of the
/// store as they were.
pub open spec fn stepped(before: Process, after: Process, op: Operation, r: Result<(), Trap>) -> bool {
    &&& after.stack.wf()
    &&& after.state.functions == before.state.functions
    &&& after.state.exports == before.state.exports
    &&& after.state.memories@.len() == before.state.memories@.len()
    &&& match step(op, before.stack.frame.locals@, before.machine()) {
        Err(t) => {
            &&& r == Err::<(), Trap>(t)
            &&& after.state == before.state
            &&& after.stack.frame == before.stack.frame
            &&& after.stack@ == below(before.stack@, taken_before_trap(op, before.stack@))
        },
        Ok((locals, m)) => {
            &&& r is Ok
            &&& after.stack.frame.locals@ == locals
            &&& after.machine() == m
            &&& after.stack.frame.ip == before.stack.frame.ip
            &&& after.stack.frame.sp == before.stack.frame.sp
            &&& after.stack.frame.arity == before.stack.frame.arity
            &&& after.stack.frame.instructions == before.stack.frame.instructions
        },
    }
}

/// The stack without none, one or two of its newest values.
proof fn lemma_below(stack: Seq<Value>)
    ensures
        below(stack, 0) == stack,
        stack.len() >= 1 ==> below(stack, 1) == stack.drop_last(),
        stack.len() >= 2 ==> below(stack, 2) == stack.drop_last().drop_last(),
{
    assert(below(stack, 0) =~= stack);
    if stack.len() >= 1 {
        assert(below(stack, 1) =~= stack.drop_last());
    }
    if stack.len() >= 2 {
        assert(below(stack, 2) =~= stack.drop_last().drop_last());
    }
}

impl Process {
    /// The stack and the memories, as plain values.
    pub open spec fn machine(&self) -> Machine {
        Machine { stack: self.stack@, memories: self.state@.memories }
    }

    /// The stack is sound, and every function of the store can be run.
    pub open spec fn wf(&self) -> bool {
        &&& self.stack.wf()
        &&& all_runnable(self.state@.functions)
    }

    /// The frame holds a body that can be run, and an instruction is left
    /// to carry out.
    pub open spec fn ready(&self) -> bool {
        &&& runnable(self.stack.frame.instructions@, self.stack.frame.locals@.len())
        &&& -1 <= self.stack.frame.ip
        &&& self.stack.frame.ip + 1 < self.stack.frame.instructions@.len()
    }

    pub fn new(state: Store) -> (r: Self)
        ensures
            r.state == state,
            r.stack.wf(),
            r.stack@ == Seq::<Value>::empty(),
    {
        Self { state, stack: Stack::default() }
    }

    pub fn function(&self, addr: FunctionAddress) -> (r: Result<&Function, Trap>)
        ensures
            match r {
                Ok(f) => addr < self.state.functions@.len() && *f == self.state.functions@[addr as int],
                Err(t) => addr >= self.state.functions@.len() && t == Trap::NotFound(
                    TrapNotFound::FunctionLocal(addr),
                ),
            },
    {
        self.state.function(addr)
    }

    pub fn export(&self, name: &str) -> (r: Result<&Export, Trap>)
        ensures
            match r {
                Ok(e) => crate::semantics::find_export(self.state@.exports, name@) is Some && *e
                    == self.state.exports@[crate::semantics::find_export(
                    self.state@.exports,
                    name@,
                )->Some_0],
                Err(t) => crate::semantics::find_export(self.state@.exports, name@) is None
                    && t.is_missing_export(name@),
            },
    {
        self.state.export(name)
    }

    pub fn memory(&self, addr: MemoryAddress) -> (r: Result<&Memory, Trap>)
        ensures
            match r {
                Ok(m) => addr < self.state.memories@.len() && *m == self.state.memories@[addr as int],
                Err(t) => addr >= self.state.memories@.len() && t == Trap::NotFound(
                    TrapNotFound::Memory(addr),
                ),
            },
    {
        self.state.memory(addr)
    }

    /// Replaces the top value by what `op` makes of it.
    pub fn unary(&mut self, ty: ValueType, op: UnaryOp) -> (r: Result<(), Trap>)
        requires
            old(self).stack.wf(),
        ensures
            stepped(*old(self), *final(self), Operation::Unary(ty, op), r),
    {
        proof {
            reveal(step);
            lemma_below(self.stack@);
        }
        proof {
            self.stack.lemma_len();
        }
        match ty {
            ValueType::I32 => {
                let v = self.stack.pop::<i32>()?;
                let r = self.stack.push(eval_unary_i32(op, v));
                assert(old(self).stack@.drop_last() =~= below(old(self).stack@, 1));
                r
            },
            ValueType::I64 => {
                let v = self.stack.pop::<i64>()?;
                let r = self.stack.push(eval_unary_i64(op, v));
                assert(old(self).stack@.drop_last() =~= below(old(self).stack@, 1));
                r
            },
        }
    }

    /// Replaces the two top values by what `op` makes of them. The value
    /// pushed last is the right operand.
    pub fn binary(&mut self, ty: ValueType, op: BinaryOp) -> (r: Result<(), Trap>)
        requires
            old(self).stack.wf(),
        ensures
            stepped(*old(self), *final(self), Operation::Binary(ty, op), r),
    {
        proof {
            reveal(step);
            lemma_below(self.stack@);
        }
        proof {
            self.stack.lemma_len();
        }
        match ty {
            ValueType::I32 => {
                let rhs = self.stack.pop::<i32>()?;
                let lhs = self.stack.pop::<i32>()?;
                let v = eval_binary_i32(op, lhs, rhs)?;
                let r = self.stack.push(v);
                assert(old(self).stack@.drop_last().drop_last() =~= below(old(self).stack@, 2));
                r
            },
            ValueType::I64 => {
                let rhs = self.stack.pop::<i64>()?;
                let lhs = self.stack.pop::<i64>()?;
                let v = eval_binary_i64(op, lhs, rhs)?;
                let r = self.stack.push(v);
                assert(old(self).stack@.drop_last().drop_last() =~= below(old(self).stack@, 2));
                r
            },
        }
    }

    /// Replaces the top value by a 32-bit 1 where it is zero, else by 0.
    pub fn unary_test(&mut self, ty: ValueType) -> (r: Result<(), Trap>)
        requires
            old(self).stack.wf(),
        ensures
            stepped(*old(self), *final(self), Operation::Eqz(ty), r),
    {
        proof {
            reveal(step);
            lemma_below(self.stack@);
        }
        proof {
            self.stack.lemma_len();
        }
        let result = match ty {
            ValueType::I32 => self.stack.pop::<i32>()? == 0,
            ValueType::I64 => self.stack.pop::<i64>()? == 0,
        };
        let r = self.stack.push(
            if result {
                Value::I32(1)
            } else {
                Value::I32(0)
            },
        );
        assert(old(self).stack@.drop_last() =~= below(old(self).stack@, 1));
        r
    }

    /// Replaces the two top values by a 32-bit 1 where the comparison `op`
    /// holds of them, else by 0.
    pub fn binary_test(&mut self, ty: ValueType, op: TestOp) -> (r: Result<(), Trap>)
        requires
            old(self).stack.wf(),
        ensures
            stepped(*old(self), *final(self), Operation::Test(ty, op), r),
    {
        proof {
            reveal(step);
            lemma_below(self.stack@);
        }
        proof {
            self.stack.lemma_len();
        }
        let result = match ty {
            ValueType::I32 => {
                let rhs = self.stack.pop::<i32>()?;
                let lhs = self.stack.pop::<i32>()?;
                eval_test_i32(op, lhs, rhs)
            },
            ValueType::I64 => {
                let rhs = self.stack.pop::<i64>()?;
                let lhs = self.stack.pop::<i64>()?;
                eval_test_i64(op, lhs, rhs)
            },
        };
        let r = self.stack.push(
            if result {
                Value::I32(1)
            } else {
                Value::I32(0)
            },
        );
        assert(old(self).stack@.drop_last().drop_last() =~= below(old(self).stack@, 2));
        r
    }

    /// Pushes a constant.
    pub fn constant(&mut self, v: Value) -> (r: Result<(), Trap>)
        requires
            old(self).stack.wf(),
        ensures
            stepped(*old(self), *final(self), Operation::Const(v), r),
    {
        proof {
            reveal(step);
            lemma_below(self.stack@);
        }
        self.stack.push(v)
    }

    /// Pushes the value of the local at `index`.
    pub fn local_get(&mut self, index: u32) -> (r: Result<(), Trap>)
        requires
            old(self).stack.wf(),
            index < old(self).stack.frame.locals@.len(),
        ensures
            stepped(*old(self), *final(self), Operation::LocalGet(index), r),
    {
        proof {
            reveal(step);
            lemma_below(self.stack@);
        }
        let value = self.stack.frame.locals[index as usize];
        self.stack.push(value)
    }

    /// Pops a value into the local at `index`.
    pub fn local_set(&mut self, index: u32) -> (r: Result<(), Trap>)
        requires
            old(self).stack.wf(),
            index < old(self).stack.frame.locals@.len(),
        ensures
            stepped(*old(self), *final(self), Operation::LocalSet(index), r),
    {
        proof {
            reveal(step);
            lemma_below(self.stack@);
        }
        let value = self.stack.pop::<Value>()?;
        self.stack.frame.locals[index as usize] = value;
        assert(old(self).stack@.drop_last() =~= below(old(self).stack@, 1));
        Ok(())
    }

    /// Pops a value of the type `ty` and then an address, and writes the
    /// value to memory 0 at the address plus `offset`.
    pub fn store(&mut self, ty: ValueType, offset: u32) -> (r: Result<(), Trap>)
        requires
            old(self).stack.wf(),
        ensures
            stepped(*old(self), *final(self), Operation::Store(ty, offset), r),
    {
        proof {
            reveal(step);
            lemma_below(self.stack@);
        }
        match ty {
            ValueType::I32 => {
                let value = self.stack.pop::<i32>()?;
                let addr = self.stack.pop::<i32>()?;
                assert(old(self).stack@.drop_last().drop_last() =~= below(old(self).stack@, 2));
                proof {
                    lemma_u32_bytes(value as u32);
                }
                let at = self.target(addr, offset, 4)?;
                write_u32(&mut self.state.memories[0].data, at, value as u32);
                assert(self.state@.memories =~= stored(
                    old(self).state@.memories,
                    addr,
                    offset,
                    u32_bytes(value as u32),
                )->Ok_0);
                Ok(())
            },
            ValueType::I64 => {
                let value = self.stack.pop::<i64>()?;
                let addr = self.stack.pop::<i32>()?;
                assert(old(self).stack@.drop_last().drop_last() =~= below(old(self).stack@, 2));
                proof {
                    lemma_u64_bytes(value as u64);
                }
                let at = self.target(addr, offset, 8)?;
                write_u64(&mut self.state.memories[0].data, at, value as u64);
                assert(self.state@.memories =~= stored(
                    old(self).state@.memories,
                    addr,
                    offset,
                    u64_bytes(value as u64),
                )->Ok_0);
                Ok(())
            },
        }
    }

    /// The position in memory 0 of a write of `width` bytes at the unsigned
    /// address `addr` plus `offset`.
    fn target(&self, addr: i32, offset: u32, width: u64) -> (r: Result<usize, Trap>)
        requires
            width <= 8,
        ensures
            match r {
                Ok(at) => self.state.memories@.len() > 0 && at == (addr as u32) + offset && at + width
                    <= self.state.memories@[0].data@.len(),
                Err(t) => if self.state.memories@.len() == 0 {
                    t == Trap::NotFound(TrapNotFound::Memory(0))
                } else {
                    (addr as u32) + offset + width > self.state.memories@[0].data@.len() && t
                        == Trap::OutOfBounds(TrapOutOfBounds::Memory)
                },
            },
    {
        let memory = self.state.memory(0)?;
        let at: u64 = (addr as u32) as u64 + offset as u64;
        if at + width > memory.data.len() as u64 {
            Err(Trap::OutOfBounds(TrapOutOfBounds::Memory))
        } else {
            Ok(at as usize)
        }
    }

    /// Enters the function at `addr`: takes its arguments off the stack
    /// into the locals of a new frame, the first argument first, adds a
    /// zero for each declared local, and makes the new frame the current
    /// one. Hands back the frame that was current.
    pub fn push_frame(&mut self, addr: FunctionAddress) -> (r: Result<CallFrame, Trap>)
        requires
            old(self).stack.wf(),
            addr < old(self).state.functions@.len(),
        ensures
            final(self).stack.wf(),
            final(self).state == old(self).state,
            match r {
                Ok(previous) => {
                    let f = old(self).state@.functions[addr as int];
                    &&& old(self).stack@.len() >= f.params.len()
                    &&& previous == old(self).stack.frame
                    &&& final(self).stack@ == below(old(self).stack@, f.params.len())
                    &&& final(self).stack.frame.ip == -1
                    &&& final(self).stack.frame.sp == final(self).stack@.len()
                    &&& final(self).stack.frame.arity == f.results.len()
                    &&& final(self).stack.frame.instructions@ == f.code
                    &&& final(self).stack.frame.locals@ == entry_locals(f, old(self).stack@)
                },
                Err(t) => old(self).stack@.len() < old(self).state@.functions[addr as int].params.len()
                    && t == Trap::Underflow(TrapUnderflow::Stack),
            },
    {
        let Function::Local(func) = &self.state.functions[addr as usize];
        let ghost f = old(self).state@.functions[addr as int];
        let ghost base = old(self).stack@;
        let count = func.parameter_count();
        if self.stack.len() < count {
            return Err(Trap::Underflow(TrapUnderflow::Stack));
        }
        let mut popped: Vec<Value> = Vec::new();
        while popped.len() < count
            invariant
                self.stack.wf(),
                self.state == old(self).state,
                self.stack.frame == old(self).stack.frame,
                popped.len() <= count <= base.len(),
                self.stack@ == base.subrange(0, base.len() - popped.len()),
                forall|j: int| 0 <= j < popped.len() ==> popped[j] == base[base.len() - 1 - j],
            decreases count - popped.len(),
        {
            let ghost now = self.stack@;
            match self.stack.pop::<Value>() {
                Ok(value) => {
                    popped.push(value);
                    assert(now.drop_last() =~= base.subrange(0, base.len() - popped.len()));
                },
                Err(t) => {
                    assert(false);
                    return Err(t);
                },
            }
        }
        let mut locals: Vec<Value> = Vec::new();
        let mut i: usize = count;
        while i > 0
            invariant
                i <= count,
                count == popped.len(),
                count <= base.len(),
                locals.len() == count - i,
                forall|j: int| 0 <= j < locals.len() ==> locals[j] == base[base.len() - count + j],
                forall|j: int| 0 <= j < popped.len() ==> popped[j] == base[base.len() - 1 - j],
            decreases i,
        {
            i -= 1;
            locals.push(popped[i]);
        }
        let declared = func.locals();
        let mut k: usize = 0;
        while k < declared.len()
            invariant
                k <= declared.len(),
                declared@ == f.locals,
                count == f.params.len(),
                count <= base.len(),
                locals.len() == count + k,
                forall|j: int| 0 <= j < count ==> locals[j] == base[base.len() - count + j],
                forall|j: int| 0 <= j < k ==> locals[count + j] == f.locals[j].zero(),
            decreases declared.len() - k,
        {
            match declared[k] {
                ValueType::I32 => locals.push(Value::I32(0)),
                ValueType::I64 => locals.push(Value::I64(0)),
            }
            k += 1;
        }
        assert(locals@ =~= entry_locals(f, base));
        let frame = CallFrame {
            ip: -1,
            sp: self.stack.len(),
            instructions: func.instructions(),
            arity: func.result_count(),
            locals,
        };
        Ok(self.stack.replace_frame(frame))
    }

    /// Makes `frame` the current frame again.
    pub fn restore_frame(&mut self, frame: CallFrame)
        ensures
            final(self).state == old(self).state,
            final(self).stack.frame == frame,
            final(self).stack@ == old(self).stack@,
            final(self).stack.wf() == old(self).stack.wf(),
    {
        self.stack.restore(frame);
    }
}

} // verus!
