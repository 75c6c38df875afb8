//! Typed function bodies, and what a call of one leaves on the stack.
//!
//! A body is typed where the types of the values on the stack, followed
//! instruction by instruction, fit every instruction and are the result
//! types at the end. A call of a typed function that returns leaves the
//! stack below the arguments as it was and the results above it.

use crate::module::FunctionSpec;
use crate::semantics::{below, call, entry_locals, outcome, run, step, Machine, Operation};
use crate::value::{Value, ValueType};
use vstd::prelude::*;

verus! {

/// The types of values, one for one.
pub open spec fn types_of(values: Seq<Value>) -> Seq<ValueType> {
    Seq::new(values.len(), |i: int| values[i].value_type())
}

/// Whether the newest of `types` are `suffix`.
pub open spec fn ends_with(types: Seq<ValueType>, suffix: Seq<ValueType>) -> bool {
    &&& types.len() >= suffix.len()
    &&& types.subrange(types.len() - suffix.len(), types.len() as int) == suffix
}

/// Whether `stack` is `base` with values of the types `types` above it.
pub open spec fn shaped(stack: Seq<Value>, base: Seq<Value>, types: Seq<ValueType>) -> bool {
    &&& stack.len() == base.len() + types.len()
    &&& stack.subrange(0, base.len() as int) == base
    &&& types_of(stack.subrange(base.len() as int, stack.len() as int)) == types
}

/// The types on the stack behind an operation, where the types `types`
/// before it fit the operation; `local_types` are the types of the locals.
/// The end of the body and instructions that are not carried out fit no
/// types.
pub open spec fn typed_step(
    functions: Seq<FunctionSpec>,
    op: Operation,
    local_types: Seq<ValueType>,
    types: Seq<ValueType>,
) -> Option<Seq<ValueType>> {
    let n = types.len() as int;
    match op {
        Operation::Binary(t, _) => if n >= 2 && types[n - 1] == t && types[n - 2] == t {
            Some(types.drop_last().drop_last().push(t))
        } else {
            None
        },
        Operation::Test(t, _) => if n >= 2 && types[n - 1] == t && types[n - 2] == t {
            Some(types.drop_last().drop_last().push(ValueType::I32))
        } else {
            None
        },
        Operation::Unary(t, _) => if n >= 1 && types[n - 1] == t {
            Some(types)
        } else {
            None
        },
        Operation::Eqz(t) => if n >= 1 && types[n - 1] == t {
            Some(types.drop_last().push(ValueType::I32))
        } else {
            None
        },
        Operation::Const(v) => Some(types.push(v.value_type())),
        Operation::LocalGet(index) => if index < local_types.len() {
            Some(types.push(local_types[index as int]))
        } else {
            None
        },
        Operation::LocalSet(index) => if index < local_types.len() && n >= 1 && types[n - 1]
            == local_types[index as int] {
            Some(types.drop_last())
        } else {
            None
        },
        Operation::Store(t, _) => if n >= 2 && types[n - 1] == t && types[n - 2] == ValueType::I32 {
            Some(types.drop_last().drop_last())
        } else {
            None
        },
        Operation::Call(addr) => if addr < functions.len() && ends_with(
            types,
            functions[addr as int].params,
        ) {
            Some(
                types.subrange(0, n - functions[addr as int].params.len())
                    + functions[addr as int].results,
            )
        } else {
            None
        },
        Operation::End => None,
        Operation::Unsupported => None,
    }
}

/// Whether the body of `f` from the position `at` on is typed, with values
/// of the types `types` on the stack above those that the function found
/// there: every instruction up to the first end fits the types before it,
/// and at that end the types are the result types.
pub open spec fn typed_from(functions: Seq<FunctionSpec>, f: FunctionSpec, at: nat, types: Seq<ValueType>) -> bool
    decreases f.code.len() - at,
{
    if at >= f.code.len() {
        false
    } else {
        match f.code[at as int].operation() {
            Operation::End => types == f.results,
            op => match typed_step(functions, op, f.params + f.locals, types) {
                None => false,
                Some(next) => typed_from(functions, f, at + 1, next),
            },
        }
    }
}

/// Whether the body of every function is typed from its start.
pub open spec fn all_typed(functions: Seq<FunctionSpec>) -> bool {
    forall|i: int|
        0 <= i < functions.len() ==> typed_from(
            functions,
            #[trigger] functions[i],
            0,
            Seq::<ValueType>::empty(),
        )
}

proof fn lemma_shaped_push(stack: Seq<Value>, base: Seq<Value>, types: Seq<ValueType>, v: Value)
    requires
        shaped(stack, base, types),
    ensures
        shaped(stack.push(v), base, types.push(v.value_type())),
{
    let pushed = stack.push(v);
    assert(pushed.subrange(0, base.len() as int) =~= base);
    assert(types_of(pushed.subrange(base.len() as int, pushed.len() as int)) =~= types.push(
        v.value_type(),
    ));
}

proof fn lemma_shaped_pop(stack: Seq<Value>, base: Seq<Value>, types: Seq<ValueType>)
    requires
        shaped(stack, base, types),
        types.len() >= 1,
    ensures
        stack.len() >= 1,
        stack.last().value_type() == types.last(),
        shaped(stack.drop_last(), base, types.drop_last()),
{
    let above = stack.subrange(base.len() as int, stack.len() as int);
    assert(types_of(above)[types.len() - 1] == above[types.len() - 1].value_type());
    let popped = stack.drop_last();
    assert(popped.subrange(0, base.len() as int) =~= base);
    assert(types_of(popped.subrange(base.len() as int, popped.len() as int)) =~= types.drop_last())
        by {
        assert forall|i: int| 0 <= i < types.len() - 1 implies types_of(
            popped.subrange(base.len() as int, popped.len() as int),
        )[i] == types[i] by {
            assert(types_of(above)[i] == above[i].value_type());
        }
    }
}

/// The stack without its `n` newest values has the shape of the types
/// without their `n` newest, and the values taken have the types taken.
proof fn lemma_shaped_below(stack: Seq<Value>, base: Seq<Value>, types: Seq<ValueType>, n: nat)
    requires
        shaped(stack, base, types),
        types.len() >= n,
    ensures
        shaped(below(stack, n), base, types.subrange(0, types.len() - n)),
        types_of(stack.subrange(stack.len() - n, stack.len() as int)) == types.subrange(
            types.len() - n,
            types.len() as int,
        ),
{
    let above = stack.subrange(base.len() as int, stack.len() as int);
    let rest = below(stack, n);
    assert(rest.subrange(0, base.len() as int) =~= base);
    assert(types_of(rest.subrange(base.len() as int, rest.len() as int)) =~= types.subrange(
        0,
        types.len() - n,
    )) by {
        assert forall|i: int| 0 <= i < types.len() - n implies types_of(
            rest.subrange(base.len() as int, rest.len() as int),
        )[i] == types[i] by {
            assert(types_of(above)[i] == above[i].value_type());
        }
    }
    assert(types_of(stack.subrange(stack.len() - n, stack.len() as int)) =~= types.subrange(
        types.len() - n,
        types.len() as int,
    )) by {
        let taken = types_of(stack.subrange(stack.len() - n, stack.len() as int));
        assert forall|i: int| 0 <= i < n implies #[trigger] taken[i] == types[types.len() - n
            + i] by {
            assert(types_of(above)[types.len() - n + i] == above[types.len() - n + i].value_type());
        }
    }
}

/// Values above values above a base are values above the base.
proof fn lemma_shaped_above(
    stack: Seq<Value>,
    middle: Seq<Value>,
    base: Seq<Value>,
    lower: Seq<ValueType>,
    upper: Seq<ValueType>,
)
    requires
        shaped(middle, base, lower),
        shaped(stack, middle, upper),
    ensures
        shaped(stack, base, lower + upper),
{
    let above_base = middle.subrange(base.len() as int, middle.len() as int);
    let above_middle = stack.subrange(middle.len() as int, stack.len() as int);
    let head = stack.subrange(0, middle.len() as int);
    assert(stack.subrange(0, base.len() as int) =~= head.subrange(0, base.len() as int));
    assert(types_of(stack.subrange(base.len() as int, stack.len() as int)) =~= lower + upper) by {
        assert forall|i: int| 0 <= i < lower.len() + upper.len() implies types_of(
            stack.subrange(base.len() as int, stack.len() as int),
        )[i] == (lower + upper)[i] by {
            if i < lower.len() {
                assert(head[base.len() + i] == middle[base.len() + i]);
                assert(types_of(above_base)[i] == above_base[i].value_type());
            } else {
                assert(types_of(above_middle)[i - lower.len()] == above_middle[i
                    - lower.len()].value_type());
            }
        }
    }
}

/// An operation that fits the types on the stack and does not trap leaves
/// the stack below those types as it was, values of the types behind the
/// operation above it, and every local with its type.
proof fn lemma_step_typed(
    functions: Seq<FunctionSpec>,
    op: Operation,
    locals: Seq<Value>,
    m: Machine,
    base: Seq<Value>,
    types: Seq<ValueType>,
)
    requires
        shaped(m.stack, base, types),
        typed_step(functions, op, types_of(locals), types) is Some,
        !(op is Call),
    ensures
        step(op, locals, m) matches Ok((locals_after, after)) ==> {
            &&& shaped(
                after.stack,
                base,
                typed_step(functions, op, types_of(locals), types)->Some_0,
            )
            &&& types_of(locals_after) == types_of(locals)
        },
{
    reveal(step);
    let stack = m.stack;
    if types.len() >= 1 {
        lemma_shaped_pop(stack, base, types);
        assert(below(stack, 1) =~= stack.drop_last());
        if types.len() >= 2 {
            lemma_shaped_pop(stack.drop_last(), base, types.drop_last());
            assert(below(stack, 2) =~= stack.drop_last().drop_last());
        }
    }
    match step(op, locals, m) {
        Err(_) => {},
        Ok((locals_after, after)) => {
            match op {
                Operation::Binary(t, _) => {
                    lemma_shaped_push(
                        stack.drop_last().drop_last(),
                        base,
                        types.drop_last().drop_last(),
                        after.stack.last(),
                    );
                    assert(after.stack =~= stack.drop_last().drop_last().push(after.stack.last()));
                },
                Operation::Test(t, _) => {
                    lemma_shaped_push(
                        stack.drop_last().drop_last(),
                        base,
                        types.drop_last().drop_last(),
                        after.stack.last(),
                    );
                    assert(after.stack =~= stack.drop_last().drop_last().push(after.stack.last()));
                },
                Operation::Unary(t, _) => {
                    lemma_shaped_push(
                        stack.drop_last(),
                        base,
                        types.drop_last(),
                        after.stack.last(),
                    );
                    assert(after.stack =~= stack.drop_last().push(after.stack.last()));
                    assert(types.drop_last().push(t) =~= types);
                },
                Operation::Eqz(t) => {
                    lemma_shaped_push(
                        stack.drop_last(),
                        base,
                        types.drop_last(),
                        after.stack.last(),
                    );
                    assert(after.stack =~= stack.drop_last().push(after.stack.last()));
                },
                Operation::Const(v) => {
                    lemma_shaped_push(stack, base, types, v);
                },
                Operation::LocalGet(index) => {
                    lemma_shaped_push(stack, base, types, locals[index as int]);
                },
                Operation::LocalSet(index) => {
                    assert(types_of(locals_after) =~= types_of(locals));
                },
                Operation::Store(t, _) => {},
                _ => {},
            }
        },
    }
}

/// Running a typed body from a position on, with values of the types
/// `types` above `base`, leaves on return the results above `base`.
proof fn lemma_run_typed(
    functions: Seq<FunctionSpec>,
    f: FunctionSpec,
    at: nat,
    locals: Seq<Value>,
    m: Machine,
    depth: nat,
    base: Seq<Value>,
    types: Seq<ValueType>,
)
    requires
        all_typed(functions),
        typed_from(functions, f, at, types),
        shaped(m.stack, base, types),
        types_of(locals) == f.params + f.locals,
    ensures
        run(functions, f.code, at, locals, m, depth) matches Ok(after) ==> shaped(
            after.stack,
            base,
            f.results,
        ),
    decreases depth, f.code.len() - at + 1,
{
    let inst = f.code[at as int];
    let op = inst.operation();
    match outcome(functions, inst, locals, m, depth) {
        Err(_) => {},
        Ok(None) => {},
        Ok(Some((locals_after, after))) => {
            let next = typed_step(functions, op, f.params + f.locals, types)->Some_0;
            match op {
                Operation::Call(addr) => {
                    let callee = functions[addr as int];
                    let n = callee.params.len();
                    lemma_shaped_below(m.stack, base, types, n);
                    lemma_call_typed(functions, addr, m, depth);
                    lemma_shaped_above(
                        after.stack,
                        below(m.stack, n),
                        base,
                        types.subrange(0, types.len() - n),
                        callee.results,
                    );
                },
                _ => {
                    lemma_step_typed(functions, op, locals, m, base, types);
                },
            }
            lemma_run_typed(functions, f, at + 1, locals_after, after, depth, base, next);
        },
    }
}

/// A call of a typed function that finds arguments of the types of its
/// parameters on the stack leaves, where it returns, the stack below the
/// arguments as it was and results of its result types above it.
proof fn lemma_call_typed(functions: Seq<FunctionSpec>, addr: u32, m: Machine, depth: nat)
    requires
        all_typed(functions),
        addr < functions.len(),
        m.stack.len() >= functions[addr as int].params.len(),
        types_of(
            m.stack.subrange(
                m.stack.len() - functions[addr as int].params.len(),
                m.stack.len() as int,
            ),
        ) == functions[addr as int].params,
    ensures
        call(functions, addr, m, depth) matches Ok(after) ==> shaped(
            after.stack,
            below(m.stack, functions[addr as int].params.len()),
            functions[addr as int].results,
        ),
    decreases depth, 0nat,
{
    let f = functions[addr as int];
    let n = f.params.len();
    if depth > 0 {
        let locals = entry_locals(f, m.stack);
        let rest = below(m.stack, n);
        let entered = Machine { stack: rest, ..m };
        assert(types_of(locals) =~= f.params + f.locals) by {
            let args = m.stack.subrange(m.stack.len() - n, m.stack.len() as int);
            assert forall|i: int| 0 <= i < f.params.len() + f.locals.len() implies types_of(
                locals,
            )[i] == (f.params + f.locals)[i] by {
                if i < n {
                    assert(types_of(args)[i] == args[i].value_type());
                }
            }
        }
        assert(rest.subrange(0, rest.len() as int) =~= rest);
        assert(types_of(rest.subrange(rest.len() as int, rest.len() as int)) =~= Seq::<
            ValueType,
        >::empty());
        lemma_run_typed(
            functions,
            f,
            0,
            locals,
            entered,
            (depth - 1) as nat,
            rest,
            Seq::<ValueType>::empty(),
        );
    }
}

/// Where every function body is typed, a call that returns leaves the
/// stack of the caller below the arguments exactly as it was, and above it
/// the results of the function called: as many values as the function has
/// result types, each of its type. The arguments are gone.
pub proof fn lemma_call_leaves_results(
    functions: Seq<FunctionSpec>,
    addr: u32,
    m: Machine,
    depth: nat,
)
    requires
        all_typed(functions),
        addr < functions.len(),
        ends_with(types_of(m.stack), functions[addr as int].params),
    ensures
        call(functions, addr, m, depth) matches Ok(after) ==> {
            let f = functions[addr as int];
            let kept = m.stack.len() - f.params.len();
            &&& after.stack.len() == kept + f.results.len()
            &&& after.stack.subrange(0, kept) == m.stack.subrange(0, kept)
            &&& types_of(after.stack.subrange(kept, after.stack.len() as int)) == f.results
        },
{
    let f = functions[addr as int];
    let n = f.params.len();
    let all = types_of(m.stack);
    let args = m.stack.subrange(m.stack.len() - n, m.stack.len() as int);
    assert(types_of(args) =~= all.subrange(all.len() - n, all.len() as int));
    lemma_call_typed(functions, addr, m, depth);
}

} // verus!
