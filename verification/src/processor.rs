//! The interpreter: it carries out the instructions of a process.

use crate::module::{ExportData, Function, FunctionAddress};
use crate::process::{Process};
use crate::semantics::{below, call, find_export, invoked, lemma_find_export, lemma_step_keeps_locals, outcome, results, run, taken_before_trap, Machine, Operation, MAX_CALL_DEPTH};
use crate::stack::MAX_VALUE_STACK;
use crate::trap::{Trap, TrapNotFound, TrapNotImplemented, TrapOverflow, TrapUnderflow};
use crate::value::Value;
use vstd::prelude::*;

verus! {

/// What the interpreter does after an instruction.
#[derive(Debug, Clone, Copy, PartialEq, Eq, Structural)]
pub enum ProcessingState {
    Break,
    Continue,
    Return,
}

#[derive(Debug)]
pub struct Processor {}

impl Default for Processor {
    fn default() -> Self {
        Self {  }
    }
}

/// Whether the functions and exports of `after` are those of `before` and
/// it has as many memories.
pub open spec fn same_program(before: Process, after: Process) -> bool {
    &&& after.state.functions == before.state.functions
    &&& after.state.exports == before.state.exports
    &&& after.state.memories@.len() == before.state.memories@.len()
}

/// Whether `after` is what a step of `before` that traps on the operation
/// `op` leaves: the instruction pointer stands at the instruction, the
/// operands taken off the stack before the trap are gone, and nothing else
/// has changed: no value is pushed, and the locals, the rest of the frame
/// and the store with its memories are as they were.
///
/// A call that traps inside the function called leaves what that function
/// left; a call that is not entered, for want of the function or of depth,
/// leaves the stack and the store as they were.
pub open spec fn trapped(before: Process, after: Process, op: Operation, depth: nat) -> bool {
    let entered = op matches Operation::Call(addr) && addr < before.state.functions@.len() && depth
        > 0;
    !entered ==> {
        &&& after.state == before.state
        &&& after.stack@ == below(before.stack@, taken_before_trap(op, before.stack@))
        &&& after.stack.frame.ip == before.stack.frame.ip + 1
        &&& after.stack.frame.sp == before.stack.frame.sp
        &&& after.stack.frame.arity == before.stack.frame.arity
        &&& after.stack.frame.instructions == before.stack.frame.instructions
        &&& after.stack.frame.locals == before.stack.frame.locals
    }
}

/// Whether `after` and `r` are what invoking the export `name` with the
/// arguments `args` makes of `before`.
///
/// Without such an export the process stays as it was and the trap names
/// the export. Else the function that the export points at is invoked as
/// `invoked` says: a trap is handed on, and otherwise the results are
/// returned, the stack and the memories are what the function left, and the
/// frame is the one that was current before.
pub open spec fn invocation(before: Process, after: Process, name: Seq<char>, args: Seq<Value>, r: Result<
    Vec<Value>,
    Trap,
>) -> bool {
    match find_export(before.state@.exports, name) {
        None => r is Err && r->Err_0.is_missing_export(name) && after == before,
        Some(i) => match before.state@.exports[i].data {
            ExportData::Function(addr) => match invoked(
                before.state@.functions,
                addr,
                args,
                before.machine(),
            ) {
                Err(t) => r == Err::<Vec<Value>, Trap>(t),
                Ok((values, m)) => {
                    &&& r is Ok
                    &&& r->Ok_0@ == values
                    &&& after.machine() == m
                    &&& after.stack.frame == before.stack.frame
                },
            },
        },
    }
}

impl Processor {
    /// Runs the current frame until its body ends.
    ///
    /// `depth` is the number of calls that may still be entered.
    #[verifier::loop_isolation(false)]
    pub fn until_completion(&self, process: &mut Process, depth: usize) -> (r: Result<(), Trap>)
        requires
            old(process).wf(),
            old(process).ready(),
        ensures
            final(process).wf(),
            same_program(*old(process), *final(process)),
            match run(
                old(process).state@.functions,
                old(process).stack.frame.instructions@,
                (old(process).stack.frame.ip + 1) as nat,
                old(process).stack.frame.locals@,
                old(process).machine(),
                depth as nat,
            ) {
                Err(t) => r == Err::<(), Trap>(t),
                Ok(m) => r is Ok && final(process).machine() == m,
            },
        decreases depth, 2nat,
    {
        let ghost goal = run(
            process.state@.functions,
            process.stack.frame.instructions@,
            (process.stack.frame.ip + 1) as nat,
            process.stack.frame.locals@,
            process.machine(),
            depth as nat,
        );
        loop
            invariant
                process.wf(),
                process.ready(),
                same_program(*old(process), *process),
                run(
                    process.state@.functions,
                    process.stack.frame.instructions@,
                    (process.stack.frame.ip + 1) as nat,
                    process.stack.frame.locals@,
                    process.machine(),
                    depth as nat,
                ) == goal,
            decreases process.stack.frame.instructions@.len() - process.stack.frame.ip,
        {
            let ghost functions = process.state@.functions;
            let ghost code = process.stack.frame.instructions@;
            let ghost at = (process.stack.frame.ip + 1) as nat;
            let ghost locals = process.stack.frame.locals@;
            let ghost m = process.machine();
            assert(run(functions, code, at, locals, m, depth as nat) == match outcome(
                functions,
                code[at as int],
                locals,
                m,
                depth as nat,
            ) {
                Err(t) => Err::<Machine, Trap>(t),
                Ok(None) => Ok(m),
                Ok(Some((locals_after, after))) => run(
                    functions,
                    code,
                    at + 1,
                    locals_after,
                    after,
                    depth as nat,
                ),
            });
            match self.next(process, depth) {
                Ok(ProcessingState::Continue) => {},
                Ok(_) => {
                    return Ok(());
                },
                Err(t) => {
                    return Err(t);
                },
            }
        }
    }

    /// Carries out the next instruction of the current frame.
    ///
    /// `depth` is the number of calls that may still be entered.
    pub fn next(&self, process: &mut Process, depth: usize) -> (r: Result<ProcessingState, Trap>)
        requires
            old(process).wf(),
            old(process).ready(),
        ensures
            final(process).wf(),
            same_program(*old(process), *final(process)),
            match outcome(
                old(process).state@.functions,
                old(process).stack.frame.instructions@[old(process).stack.frame.ip + 1],
                old(process).stack.frame.locals@,
                old(process).machine(),
                depth as nat,
            ) {
                Err(t) => r == Err::<ProcessingState, Trap>(t) && trapped(
                    *old(process),
                    *final(process),
                    old(process).stack.frame.instructions@[old(process).stack.frame.ip
                        + 1].operation(),
                    depth as nat,
                ),
                Ok(None) => r == Ok::<ProcessingState, Trap>(ProcessingState::Return)
                    && final(process).machine() == old(process).machine(),
                Ok(Some((locals, m))) => {
                    &&& r == Ok::<ProcessingState, Trap>(ProcessingState::Continue)
                    &&& final(process).machine() == m
                    &&& final(process).stack.frame.locals@ == locals
                    &&& locals.len() == old(process).stack.frame.locals@.len()
                    &&& final(process).stack.frame.ip == old(process).stack.frame.ip + 1
                    &&& final(process).stack.frame.sp == old(process).stack.frame.sp
                    &&& final(process).stack.frame.arity == old(process).stack.frame.arity
                    &&& final(process).stack.frame.instructions == old(process).stack.frame.instructions
                },
            },
        decreases depth, 1nat,
    {
        process.stack.frame.ip += 1;
        let inst = process.stack.frame.instructions[process.stack.frame.ip as usize];
        proof {
            lemma_step_keeps_locals(inst.operation(), process.stack.frame.locals@, process.machine());
            assert(below(process.stack@, 0) =~= process.stack@);
        }
        match inst.decode() {
            Operation::Binary(ty, op) => process.binary(ty, op)?,
            Operation::Test(ty, op) => process.binary_test(ty, op)?,
            Operation::Unary(ty, op) => process.unary(ty, op)?,
            Operation::Eqz(ty) => process.unary_test(ty)?,
            Operation::Const(value) => process.constant(value)?,
            Operation::LocalGet(index) => process.local_get(index)?,
            Operation::LocalSet(index) => process.local_set(index)?,
            Operation::Store(ty, offset) => process.store(ty, offset)?,
            Operation::Call(addr) => {
                if addr as usize >= process.state.functions.len() {
                    return Err(Trap::NotFound(TrapNotFound::FunctionLocal(addr)));
                }
                invoke_internal(process, self, addr, depth)?;
            },
            Operation::End => {
                return Ok(ProcessingState::Return);
            },
            Operation::Unsupported => {
                return Err(Trap::NotImplemented(TrapNotImplemented::Instruction(inst)));
            },
        }
        Ok(ProcessingState::Continue)
    }

    /// Calls the function exported as `name` with the arguments `args` and
    /// hands back its results, the newest first.
    #[verifier::loop_isolation(false)]
    pub fn invoke(&self, process: &mut Process, name: &str, args: &[Value]) -> (r: Result<
        Vec<Value>,
        Trap,
    >)
        requires
            old(process).wf(),
        ensures
            final(process).wf(),
            same_program(*old(process), *final(process)),
            invocation(*old(process), *final(process), name@, args@, r),
    {
        proof {
            lemma_find_export(process.state@.exports, name@);
        }
        let idx = match process.state.export(name)?.data {
            ExportData::Function(idx) => idx,
        };
        proof {
            process.stack.lemma_len();
        }
        let ghost base = process.stack@;
        let mut i: usize = 0;
        while i < args.len()
            invariant
                i <= args.len(),
                process.stack.wf(),
                process.state == old(process).state,
                process.stack.frame == old(process).stack.frame,
                process.stack@ == base + args@.subrange(0, i as int),
                base.len() <= MAX_VALUE_STACK,
            decreases args.len() - i,
        {
            process.stack.push(args[i])?;
            assert(process.stack@ =~= base + args@.subrange(0, i + 1));
            i += 1;
        }
        assert(args@.subrange(0, i as int) =~= args@);
        proof {
            process.stack.lemma_len();
        }
        if idx as usize >= process.state.functions.len() {
            return Err(Trap::NotFound(TrapNotFound::FunctionLocal(idx)));
        }
        invoke_internal(process, self, idx, MAX_CALL_DEPTH)?;
        let count = match &process.state.functions[idx as usize] {
            Function::Local(local) => local.result_count(),
        };
        if process.stack.len() < count {
            return Err(Trap::Underflow(TrapUnderflow::Stack));
        }
        let ghost full = process.stack@;
        let ghost after = *process;
        let mut result: Vec<Value> = Vec::new();
        while result.len() < count
            invariant
                process.stack.wf(),
                process.state == after.state,
                process.stack.frame == old(process).stack.frame,
                result.len() <= count <= full.len(),
                process.stack@ == full.subrange(0, full.len() - result.len()),
                forall|j: int| 0 <= j < result.len() ==> result[j] == full[full.len() - 1 - j],
            decreases count - result.len(),
        {
            let ghost now = process.stack@;
            match process.stack.pop::<Value>() {
                Ok(value) => {
                    result.push(value);
                    assert(now.drop_last() =~= full.subrange(0, full.len() - result.len()));
                },
                Err(t) => {
                    assert(false);
                    return Err(t);
                },
            }
        }
        assert(result@ =~= results(full, count as nat));
        Ok(result)
    }
}

/// Calls the function at `addr`: enters it, runs its body to the end and
/// makes the caller's frame the current one again.
///
/// `depth` is the number of calls that may still be entered; with none left
/// the call is a stack overflow.
pub fn invoke_internal(process: &mut Process, processor: &Processor, addr: FunctionAddress, depth: usize) -> (r:
    Result<(), Trap>)
    requires
        old(process).wf(),
        addr < old(process).state.functions@.len(),
    ensures
        final(process).wf(),
        same_program(*old(process), *final(process)),
        match call(old(process).state@.functions, addr, old(process).machine(), depth as nat) {
            Err(t) => r == Err::<(), Trap>(t),
            Ok(m) => r is Ok && final(process).machine() == m && final(process).stack.frame == old(
                process,
            ).stack.frame,
        },
        depth == 0 ==> *final(process) == *old(process),
    decreases depth, 0nat,
{
    if depth == 0 {
        return Err(Trap::Overflow(TrapOverflow::Stack));
    }
    let previous_frame = process.push_frame(addr)?;
    if let Err(e) = processor.until_completion(process, depth - 1) {
        return Err(e);
    }
    process.restore_frame(previous_frame);
    Ok(())
}

} // verus!
