use hal::compile::{is_runnable, CompilationError, Compiler};
use hal::env::{Environment, EnvironmentError, LoadError, LoadWasm, Spawn, SpawnWasm, SpawnWat};
use hal::instruction::Instruction;
use hal::module::{Export, ExportData, Function, FunctionSignature, Memory, Module};
use hal::process::Process;
use hal::processor::{invoke_internal, ProcessingState, Processor};
use hal::semantics::{Operation, MAX_CALL_DEPTH};
use hal::stack::MAX_VALUE_STACK;
use hal::store::{Store, StoreError};
use hal::trap::{
    Trap, TrapDivisionByZero, TrapNotFound, TrapNotImplemented, TrapOutOfBounds, TrapOverflow,
    TrapType, TrapUnderflow,
};
use hal::value::Value::{I32, I64};
use hal::value::{Value, ValueType};
use hal::wasm::parse::WasmParser;
use hal::wasm_source;
use hal::wat_source;

const ADD: &str = r#"(module
                      (func (export "add") (param i32 i32) (result i32)
                        (local.get 0)
                        (local.get 1)
                        i32.add
                      )
                    )"#;

#[test]
fn load_ok() {
    let mut ti = Environment::default();
    let result = LoadWasm::load(&mut ti, wat_source::string("(module)"));
    assert!(result.is_ok(), "Loading module via string failed");
    assert_eq!(result.unwrap(), 0);
}

#[test]
fn load_parsing_fails() {
    let mut ti = Environment::default();
    let result = LoadWasm::load(&mut ti, wat_source::string("(module"));
    assert_eq!(
        result.err(),
        Some(LoadError::wat_parsing_failed(
            "expected `)`\n     --> <anon>:1:8\n      |\n    1 | (module\n      |        ^".to_string()
        ))
    );
}

#[test]
fn i32_i32_to_i32() {
    let mut env = Environment::default();
    let instance = SpawnWat::spawn(&mut env, wat_source::string(ADD)).unwrap();

    let args = vec![Value::I32(40), Value::I32(2)];
    let expected = [Value::I32(42)];
    let result = instance.invoke("add", &args).unwrap();
    assert_eq!(result, expected);
}

#[test]
fn invoke_function() {
    let mut env = Environment::default();
    let handle = SpawnWat::spawn(&mut env, wat_source::string(ADD)).unwrap();

    let args = vec![Value::I32(40), Value::I32(2)];
    let result = handle.invoke("add", &args).unwrap();
    assert_eq!(result, vec![Value::I32(42)]);
}

#[test]
fn call_local() {
    let mut env = Environment::default();
    let instance = SpawnWat::spawn(
        &mut env,
        wat_source::string(
            r#"(module
                  (func (export "call_doubler") (param i32) (result i32)
                    (local.get 0)
                    (call $double)
                  )
                  (func $double (param i32) (result i32)
                    (local.get 0)
                    (local.get 0)
                    i32.add
                  )
                )"#,
        ),
    )
    .unwrap();

    let args = [Value::I32(21)];
    let expected = [Value::I32(42)];
    let result = instance.invoke("call_doubler", &args).unwrap();
    assert_eq!(result, expected);
}

fn store_test_method(vt: ValueType, value: Value) {
    let mut env = Environment::default();
    let module_id = LoadWasm::load(
        &mut env,
        wat_source::string(
            &r#"(module
  (memory 1)
  (func $store
    (i32.const 0)
    ({vt}.const {value})
    ({vt}.store)
  )
  (export "store_fn" (func $store))
)"#
            .replace("{vt}", vt.to_str())
            .replace("{value}", &*value.to_string()),
        ),
    )
    .unwrap();

    let instance = env.instantiate(module_id).unwrap();

    let result = instance.invoke("store_fn", &[]);
    assert!(result.is_ok());

    let memory = instance.memory(0).unwrap();
    assert_eq!(memory.data[0], 42);
    assert_eq!(memory.data.len(), 65536);
    assert!(memory.data[1..].iter().all(|b| *b == 0));
}

#[test]
fn store_i32() {
    store_test_method(ValueType::I32, I32(42))
}

#[test]
fn store_i64() {
    store_test_method(ValueType::I64, I64(42))
}

fn add_test_method(vt: ValueType, args: &[Value], expected: Value) {
    let mut env = Environment::default();
    let instance = SpawnWat::spawn(
        &mut env,
        wat_source::string(
            &r#"(module
                      (func (export "add") (param {vt} {vt}) (result {vt})
                        (local.get 0)
                        (local.get 1)
                        {vt}.add
                      )
                    )"#
            .replace("{vt}", vt.to_str()),
        ),
    )
    .unwrap();

    let result = instance.invoke("add", args).unwrap();
    assert_eq!(result, [expected], "{}", vt.to_str());
}

#[test]
fn add_i32() {
    add_test_method(ValueType::I32, &[I32(1), I32(2)], I32(3))
}

#[test]
fn i64() {
    add_test_method(ValueType::I64, &[I64(1), I64(2)], I64(3))
}

fn run(text: &str, name: &str, args: &[Value]) -> Result<Vec<Value>, Trap> {
    let mut env = Environment::default();
    let instance = SpawnWat::spawn(&mut env, wat_source::string(text)).unwrap();
    instance.invoke(name, args)
}

fn binary(vt: &str, op: &str, lhs: Value, rhs: Value) -> Result<Vec<Value>, Trap> {
    let text = r#"(module (func (export "f") (param {vt} {vt}) (result {vt})
        (local.get 0) (local.get 1) {vt}.{op}))"#
        .replace("{vt}", vt)
        .replace("{op}", op);
    run(&text, "f", &[lhs, rhs])
}

#[test]
fn division_traps_in_a_module() {
    assert_eq!(
        run(
            r#"(module (func (export "divs") (param i32 i32) (result i32)
                (local.get 0) (local.get 1) i32.div_s))"#,
            "divs",
            &[I32(i32::MIN), I32(-1)]
        ),
        Err(Trap::Overflow(TrapOverflow::Integer))
    );
    assert_eq!(
        binary("i32", "div_u", I32(1), I32(0)),
        Err(Trap::DivisionByZero(TrapDivisionByZero::Integer))
    );
    assert_eq!(binary("i32", "rem_s", I32(i32::MIN), I32(-1)), Ok(vec![I32(0)]));
    assert_eq!(binary("i64", "div_s", I64(i64::MIN), I64(-1)), Err(Trap::Overflow(TrapOverflow::Integer)));
}

#[test]
fn the_value_pushed_last_is_the_right_operand() {
    assert_eq!(binary("i32", "sub", I32(10), I32(3)), Ok(vec![I32(7)]));
    assert_eq!(binary("i32", "div_s", I32(-7), I32(2)), Ok(vec![I32(-3)]));
    assert_eq!(binary("i32", "rem_u", I32(7), I32(4)), Ok(vec![I32(3)]));
    assert_eq!(binary("i32", "shl", I32(1), I32(4)), Ok(vec![I32(16)]));
    assert_eq!(binary("i32", "shr_u", I32(-1), I32(28)), Ok(vec![I32(15)]));
    assert_eq!(binary("i32", "rotl", I32(1), I32(31)), Ok(vec![I32(i32::MIN)]));
    assert_eq!(binary("i64", "sub", I64(10), I64(3)), Ok(vec![I64(7)]));
    assert_eq!(binary("i64", "mul", I64(1 << 62), I64(4)), Ok(vec![I64(0)]));
    assert_eq!(binary("i64", "xor", I64(6), I64(3)), Ok(vec![I64(5)]));
    assert_eq!(binary("i32", "add", I32(i32::MAX), I32(1)), Ok(vec![I32(i32::MIN)]));
}

#[test]
fn comparisons_and_unary_instructions() {
    let text = r#"(module
        (func (export "lt_u") (param i32 i32) (result i32) (local.get 0) (local.get 1) i32.lt_u)
        (func (export "lt_s64") (param i64 i64) (result i32) (local.get 0) (local.get 1) i64.lt_s)
        (func (export "eqz") (param i64) (result i32) (local.get 0) i64.eqz)
        (func (export "clz") (param i32) (result i32) (local.get 0) i32.clz)
        (func (export "popcnt") (param i64) (result i64) (local.get 0) i64.popcnt)
        (func (export "extend") (param i64) (result i64) (local.get 0) i64.extend32_s)
        (func (export "const") (result i64) (i64.const -9000000000))
        (func (export "swap") (param i32 i32) (result i32)
            (local i32)
            (local.get 0) (local.set 2) (local.get 1) (local.set 0) (local.get 2) (local.set 1)
            (local.get 0) (local.get 1) i32.sub))"#;
    assert_eq!(run(text, "lt_u", &[I32(1), I32(-1)]), Ok(vec![I32(1)]));
    assert_eq!(run(text, "lt_s64", &[I64(1), I64(-1)]), Ok(vec![I32(0)]));
    assert_eq!(run(text, "eqz", &[I64(0)]), Ok(vec![I32(1)]));
    assert_eq!(run(text, "eqz", &[I64(5)]), Ok(vec![I32(0)]));
    assert_eq!(run(text, "clz", &[I32(1)]), Ok(vec![I32(31)]));
    assert_eq!(run(text, "popcnt", &[I64(-1)]), Ok(vec![I64(64)]));
    assert_eq!(run(text, "extend", &[I64(0xFFFF_FFFF)]), Ok(vec![I64(-1)]));
    assert_eq!(run(text, "const", &[]), Ok(vec![I64(-9000000000)]));
    assert_eq!(run(text, "swap", &[I32(10), I32(3)]), Ok(vec![I32(-7)]));
}

#[test]
fn stores_write_little_endian_bytes() {
    let text = r#"(module (memory 1)
        (func (export "w32") (param i32 i32) (local.get 0) (local.get 1) (i32.store offset=2))
        (func (export "w64") (param i32 i64) (local.get 0) (local.get 1) (i64.store)))"#;
    let mut env = Environment::default();
    let instance = SpawnWat::spawn(&mut env, wat_source::string(text)).unwrap();
    assert_eq!(instance.invoke("w32", &[I32(1), I32(0x0403_0201)]), Ok(vec![]));
    assert_eq!(instance.memory(0).unwrap().data[0..8], [0, 0, 0, 1, 2, 3, 4, 0]);
    assert_eq!(instance.invoke("w64", &[I32(65528), I64(-2)]), Ok(vec![]));
    assert_eq!(
        instance.memory(0).unwrap().data[65528..],
        [0xFE, 0xFF, 0xFF, 0xFF, 0xFF, 0xFF, 0xFF, 0xFF]
    );
    assert_eq!(
        instance.invoke("w64", &[I32(65529), I64(0)]),
        Err(Trap::OutOfBounds(TrapOutOfBounds::Memory))
    );
    assert_eq!(
        instance.invoke("w32", &[I32(65531), I32(0)]),
        Err(Trap::OutOfBounds(TrapOutOfBounds::Memory))
    );
    assert_eq!(
        instance.invoke("w32", &[I32(-1), I32(0)]),
        Err(Trap::OutOfBounds(TrapOutOfBounds::Memory))
    );
    assert_eq!(instance.invoke("w32", &[I32(65530), I32(-1)]), Ok(vec![]));
    assert_eq!(instance.memory(0).unwrap().data[65532..], [0xFF, 0xFF, 0xFF, 0xFF]);
    assert_eq!(instance.memory(1).err(), Some(Trap::NotFound(TrapNotFound::Memory(1))));
}

#[test]
fn a_store_without_a_memory_traps() {
    assert_eq!(
        run(
            r#"(module (memory 0) (func (export "f") (i32.const 0) (i32.const 1) (i32.store)))"#,
            "f",
            &[]
        ),
        Err(Trap::OutOfBounds(TrapOutOfBounds::Memory))
    );
    let function = Function::local(
        FunctionSignature::new(vec![], vec![]),
        vec![],
        vec![
            Instruction::ConstI32(0),
            Instruction::ConstI32(1),
            Instruction::StoreI32 { flags: 2, offset: 0 },
            Instruction::End,
        ],
    );
    let module = Module::new(0, vec![Export::function("f".to_string(), 0)], vec![function], vec![]);
    let mut process = Process::new(Store::new(&module).unwrap());
    assert_eq!(
        Processor::default().invoke(&mut process, "f", &[]),
        Err(Trap::NotFound(TrapNotFound::Memory(0)))
    );
}

#[test]
fn lookups_that_fail_are_traps() {
    assert_eq!(
        run(ADD, "sub", &[I32(1), I32(2)]),
        Err(Trap::NotFound(TrapNotFound::ExportedFunction("sub".to_string())))
    );
    let module = Module::new(
        0,
        vec![Export::function("gone".to_string(), 7)],
        vec![Function::local(
            FunctionSignature::new(vec![], vec![]),
            vec![],
            vec![Instruction::Call(3), Instruction::End],
        )],
        vec![],
    );
    let mut process = Process::new(Store::new(&module).unwrap());
    let processor = Processor::default();
    assert_eq!(
        processor.invoke(&mut process, "gone", &[]),
        Err(Trap::NotFound(TrapNotFound::FunctionLocal(7)))
    );
    assert_eq!(
        invoke_internal(&mut process, &processor, 0, MAX_CALL_DEPTH),
        Err(Trap::NotFound(TrapNotFound::FunctionLocal(3)))
    );
    assert_eq!(process.function(0).map(|_| ()), Ok(()));
    assert_eq!(
        process.function(1).map(|_| ()),
        Err(Trap::NotFound(TrapNotFound::FunctionLocal(1)))
    );
    assert_eq!(process.export("gone").unwrap().name(), "gone");
    assert_eq!(process.export("gone").unwrap().data(), &ExportData::Function(7));
    assert_eq!(process.memory(0).map(|_| ()), Err(Trap::NotFound(TrapNotFound::Memory(0))));
}

#[test]
fn stack_traps_in_a_module() {
    assert_eq!(run(ADD, "add", &[I32(1)]), Err(Trap::Underflow(TrapUnderflow::Stack)));
    assert_eq!(
        run(ADD, "add", &[I32(1), I64(2)]),
        Err(Trap::Type(TrapType::Mismatch(ValueType::I32, ValueType::I64)))
    );
    let too_many = vec![I32(0); MAX_VALUE_STACK + 1];
    assert_eq!(run(ADD, "add", &too_many), Err(Trap::Overflow(TrapOverflow::Stack)));
    assert_eq!(
        run(r#"(module (func (export "f") (result i32)))"#, "f", &[]),
        Err(Trap::Underflow(TrapUnderflow::Stack))
    );
    assert_eq!(
        run(r#"(module (func $f (export "f") (call $f)))"#, "f", &[]),
        Err(Trap::Overflow(TrapOverflow::Stack))
    );
}

#[test]
fn instructions_that_are_not_carried_out_trap() {
    assert_eq!(
        run(r#"(module (func (export "f") (f32.const 1) drop))"#, "f", &[]),
        Err(Trap::NotImplemented(TrapNotImplemented::Instruction(Instruction::ConstF32(0x3F80_0000))))
    );
    assert_eq!(
        run(r#"(module (func (export "f") unreachable))"#, "f", &[]),
        Err(Trap::NotImplemented(TrapNotImplemented::Instruction(Instruction::Unreachable)))
    );
    assert_eq!(Instruction::AddI32.decode(), Operation::Binary(ValueType::I32, hal::numeric::BinaryOp::Add));
    assert_eq!(Instruction::Nop.decode(), Operation::Unsupported);
    assert_eq!(Instruction::Call(4).decode(), Operation::Call(4));
}

#[test]
fn a_call_leaves_the_frame_of_the_caller() {
    let doubler = Function::local(
        FunctionSignature::new(vec![ValueType::I32], vec![ValueType::I32]),
        vec![ValueType::I64],
        vec![
            Instruction::LocalGet32(0),
            Instruction::LocalGet32(0),
            Instruction::AddI32,
            Instruction::End,
        ],
    );
    let module = Module::new(0, vec![], vec![doubler], vec![]);
    let mut process = Process::new(Store::new(&module).unwrap());
    let processor = Processor::default();
    process.stack.push(I64(5)).unwrap();
    process.stack.push(I32(21)).unwrap();
    process.stack.frame.ip = 3;
    process.stack.frame.sp = 1;
    process.stack.frame.arity = 1;
    process.stack.frame.locals = vec![I32(8), I64(9)];
    process.stack.frame.instructions = vec![Instruction::Call(0), Instruction::End];
    assert_eq!(invoke_internal(&mut process, &processor, 0, 2), Ok(()));
    assert_eq!(process.stack.frame.ip, 3);
    assert_eq!(process.stack.frame.sp, 1);
    assert_eq!(process.stack.frame.arity, 1);
    assert_eq!(process.stack.frame.locals, vec![I32(8), I64(9)]);
    assert_eq!(process.stack.frame.instructions, vec![Instruction::Call(0), Instruction::End]);
    assert_eq!(process.stack.pop::<Value>(), Ok(I32(42)));
    assert_eq!(process.stack.pop::<Value>(), Ok(I64(5)));
    assert_eq!(process.stack.len(), 0);
    process.stack.push(I32(1)).unwrap();
    assert_eq!(
        invoke_internal(&mut process, &processor, 0, 0),
        Err(Trap::Overflow(TrapOverflow::Stack))
    );
}

#[test]
fn frames_take_the_arguments_in_declared_order() {
    let function = Function::local(
        FunctionSignature::new(vec![ValueType::I32, ValueType::I64], vec![]),
        vec![ValueType::I64, ValueType::I32],
        vec![Instruction::End],
    );
    let module = Module::new(0, vec![], vec![function], vec![]);
    let mut process = Process::new(Store::new(&module).unwrap());
    process.stack.push(I32(7)).unwrap();
    process.stack.push(I32(1)).unwrap();
    process.stack.push(I64(2)).unwrap();
    let previous = process.push_frame(0).unwrap();
    assert_eq!(previous.ip, 0);
    assert_eq!(process.stack.frame.ip, -1);
    assert_eq!(process.stack.frame.sp, 1);
    assert_eq!(process.stack.frame.arity, 0);
    assert_eq!(process.stack.frame.locals, vec![I32(1), I64(2), I64(0), I32(0)]);
    assert_eq!(process.stack.frame.instructions, vec![Instruction::End]);
    assert_eq!(process.stack.len(), 1);
    let processor = Processor::default();
    assert_eq!(processor.next(&mut process, 1), Ok(ProcessingState::Return));
    process.restore_frame(previous);
    assert_eq!(process.stack.frame.ip, 0);
    assert_eq!(process.push_frame(0).err(), Some(Trap::Underflow(TrapUnderflow::Stack)));
}

#[test]
fn the_processor_steps_through_a_body() {
    let function = Function::local(
        FunctionSignature::new(vec![], vec![ValueType::I32]),
        vec![],
        vec![Instruction::ConstI32(6), Instruction::ConstI32(7), Instruction::MulI32, Instruction::End],
    );
    let module = Module::new(0, vec![], vec![function], vec![]);
    let mut process = Process::new(Store::new(&module).unwrap());
    let processor = Processor::default();
    process.push_frame(0).unwrap();
    assert_eq!(processor.next(&mut process, 1), Ok(ProcessingState::Continue));
    assert_eq!(process.stack.frame.ip, 0);
    assert_eq!(processor.until_completion(&mut process, 1), Ok(()));
    assert_eq!(process.stack.frame.ip, 3);
    assert_eq!(process.stack.pop::<i32>(), Ok(42));
}

#[test]
fn instances_have_memories_of_their_own() {
    let text = r#"(module (memory 1) (data (i32.const 3) "ab")
        (func (export "w") (i32.const 0) (i32.const 9) (i32.store)))"#;
    let mut env = Environment::default();
    let id = LoadWasm::load(&mut env, wat_source::string(text)).unwrap();
    assert_eq!(env.instantiate(id).unwrap().memory(0).unwrap().data[3..5], [0x61, 0x62]);
    assert_eq!(env.instantiate(id).unwrap().memory(0).unwrap().data[3..5], [0x61, 0x62]);
    let (first, second) = (0, 1);
    assert_eq!(env.instances.len(), 2);
    assert_eq!(env.instance(first).invoke("w", &[]), Ok(vec![]));
    assert_eq!(env.instance(first).memory(0).unwrap().data[0..6], [9, 0, 0, 0, 0x62, 0]);
    assert_eq!(env.instance(second).memory(0).unwrap().data[0..6], [0, 0, 0, 0x61, 0x62, 0]);
    assert_eq!(env.modules[0].memories[0].data[0..6], [0, 0, 0, 0x61, 0x62, 0]);
    assert_eq!(env.invoke("w", &[]), Ok(vec![]));
    assert_eq!(env.instance(second).memory(0).unwrap().data[0..6], [9, 0, 0, 0, 0x62, 0]);
    let third = Spawn::spawn(&mut env, id).unwrap();
    assert_eq!(third.memory(0).unwrap().data[0], 0);
    assert_eq!(
        env.instantiate(5).err(),
        Some(EnvironmentError::Trapped(Trap::NotFound(TrapNotFound::Module("5".to_string()))))
    );
}

#[test]
fn binaries_are_loaded_and_spawned() {
    let bytes = hal::wat_text::WatParser::parse_str(ADD).unwrap();
    let mut env = Environment::default();
    assert_eq!(LoadWasm::load(&mut env, wasm_source::bytes(bytes.clone())), Ok(0));
    assert_eq!(LoadWasm::load(&mut env, wasm_source::bytes(bytes.clone())), Ok(1));
    assert_eq!(env.modules[1].id, 1);
    let instance = SpawnWasm::spawn(&mut env, wasm_source::bytes(bytes)).unwrap();
    assert_eq!(instance.invoke("add", &[I32(2), I32(3)]), Ok(vec![I32(5)]));
    assert_eq!(
        LoadWasm::load(&mut env, wasm_source::bytes(vec![0x00, 0x6D, 0x73, 0x61])),
        Err(LoadError::wasm_parsing_failed("Invalid magic number".to_string()))
    );
    assert_eq!(
        SpawnWasm::spawn(&mut env, wasm_source::bytes(vec![0, 0x61, 0x73, 0x6D, 2, 0, 0, 0])).err(),
        Some(EnvironmentError::LoadError(LoadError::wasm_parsing_failed(
            "Unsupported version: 2".to_string()
        )))
    );
    assert_eq!(env.modules.len(), 3);
}

fn compile(bytes: &[u8]) -> Result<Module, CompilationError> {
    Compiler::new().compile(3, &WasmParser::parse(bytes).unwrap())
}

fn header(rest: &[u8]) -> Vec<u8> {
    let mut bytes = vec![0x00, 0x61, 0x73, 0x6D, 0x01, 0x00, 0x00, 0x00];
    bytes.extend_from_slice(rest);
    bytes
}

#[test]
fn lowering() {
    let text = r#"(module (memory 1 4) (data (i32.const 65534) "xy")
        (func (export "f") (param i64) (result i32) (local i32 i32) (local i64)
            (local.get 3) (local.set 1) (i32.const 5)))"#;
    let module = compile(&hal::wat_text::WatParser::parse_str(text).unwrap()).unwrap();
    assert_eq!(module.id, 3);
    assert_eq!(module.exports, vec![Export::function("f".to_string(), 0)]);
    assert_eq!(module.memories.len(), 1);
    assert_eq!(module.memories[0].max, Some(4));
    assert_eq!(module.memories[0].data.len(), 65536);
    assert_eq!(module.memories[0].data[65533..], [0, 0x78, 0x79]);
    assert_eq!(
        module.functions,
        vec![Function::local(
            FunctionSignature::new(vec![ValueType::I64], vec![ValueType::I32]),
            vec![ValueType::I32, ValueType::I32, ValueType::I64],
            vec![
                Instruction::LocalGet32(3),
                Instruction::LocalSet32(1),
                Instruction::ConstI32(5),
                Instruction::End
            ],
        )]
    );
    match &module.functions[0] {
        Function::Local(local) => {
            assert_eq!(local.parameter_count(), 1);
            assert_eq!(local.result_count(), 1);
            assert_eq!(local.parameters(), [ValueType::I64]);
            assert_eq!(local.locals(), [ValueType::I32, ValueType::I32, ValueType::I64]);
            assert_eq!(local.instructions().len(), 4);
        }
    }
}

#[test]
fn lowering_fails() {
    assert_eq!(
        compile(&header(&[0x03, 0x02, 0x01, 0x02, 0x0A, 0x04, 0x01, 0x02, 0x00, 0x0B])).err(),
        Some(CompilationError::UnknownType(2))
    );
    assert_eq!(
        compile(&header(&[
            0x01, 0x04, 0x01, 0x60, 0x00, 0x00, 0x03, 0x02, 0x01, 0x00, 0x0A, 0x04, 0x01, 0x02, 0x00,
            0x6A
        ]))
        .err(),
        Some(CompilationError::InvalidFunction(0))
    );
    assert_eq!(
        compile(&header(&[
            0x01, 0x04, 0x01, 0x60, 0x00, 0x00, 0x03, 0x02, 0x01, 0x00, 0x0A, 0x06, 0x01, 0x04, 0x00,
            0x20, 0x00, 0x0B
        ]))
        .err(),
        Some(CompilationError::InvalidFunction(0))
    );
    assert_eq!(
        compile(&header(&[0x07, 0x05, 0x01, 0x01, 0xFF, 0x00, 0x00])).err(),
        Some(CompilationError::InvalidName(0))
    );
    assert_eq!(
        compile(&header(&[0x0B, 0x06, 0x01, 0x00, 0x41, 0x00, 0x0B, 0x00])).err(),
        Some(CompilationError::UnknownMemory(0))
    );
    assert_eq!(
        compile(&header(&[
            0x05, 0x03, 0x01, 0x00, 0x01, 0x0B, 0x0A, 0x01, 0x00, 0x41, 0xFF, 0xFF, 0x03, 0x0B, 0x02,
            0x61, 0x62
        ]))
        .err(),
        Some(CompilationError::DataOutOfBounds(0))
    );
    assert_eq!(CompilationError::UnknownType(2).to_string(), "Unknown type: 2");
    let mut env = Environment::default();
    assert_eq!(
        LoadWasm::load(&mut env, wasm_source::bytes(header(&[0x07, 0x05, 0x01, 0x01, 0xFF, 0x00, 0x00]))),
        Err(LoadError::compilation_failed("Invalid name of export: 0".to_string()))
    );
}

#[test]
fn a_load_fails_when_no_id_is_left() {
    let mut env = Environment::default();
    for id in 0..=u16::MAX {
        env.modules.push(Module::new(id, vec![], vec![], vec![]));
    }
    let bytes = vec![0x00, 0x61, 0x73, 0x6D, 0x01, 0x00, 0x00, 0x00];
    assert_eq!(
        env.load_wasm(&bytes),
        Err(LoadError::compilation_failed("No module id left".to_string()))
    );
    assert_eq!(env.modules.len(), 65536);
    assert_eq!(
        env.load_wasm(&[0x00]),
        Err(LoadError::wasm_parsing_failed("Unexpected end of file".to_string()))
    );
    env.modules.pop();
    assert_eq!(env.load_wasm(&bytes), Ok(u16::MAX));
    assert_eq!(env.modules[65535].id, u16::MAX);
}

#[test]
fn a_step_that_traps_leaves_the_rest() {
    let function = Function::local(
        FunctionSignature::new(vec![], vec![]),
        vec![],
        vec![
            Instruction::DivSI32,
            Instruction::StoreI32 { flags: 2, offset: 1 },
            Instruction::Nop,
            Instruction::AddI64,
            Instruction::End,
        ],
    );
    let module =
        Module::new(0, vec![], vec![function], vec![Memory { data: vec![7; 4], max: None }]);
    let mut process = Process::new(Store::new(&module).unwrap());
    let processor = Processor::default();
    process.stack.push(I64(3)).unwrap();
    process.push_frame(0).unwrap();
    process.stack.push(I32(i32::MIN)).unwrap();
    process.stack.push(I32(-1)).unwrap();
    assert_eq!(processor.next(&mut process, 1), Err(Trap::Overflow(TrapOverflow::Integer)));
    assert_eq!(process.stack.frame.ip, 0);
    assert_eq!(process.stack.len(), 1);
    process.stack.push(I32(0)).unwrap();
    process.stack.push(I32(-1)).unwrap();
    assert_eq!(processor.next(&mut process, 1), Err(Trap::OutOfBounds(TrapOutOfBounds::Memory)));
    assert_eq!(process.stack.len(), 1);
    assert_eq!(process.state.memories[0].data, vec![7; 4]);
    assert_eq!(
        processor.next(&mut process, 1),
        Err(Trap::NotImplemented(TrapNotImplemented::Instruction(Instruction::Nop)))
    );
    assert_eq!(process.stack.len(), 1);
    process.stack.push(I32(5)).unwrap();
    assert_eq!(
        processor.next(&mut process, 1),
        Err(Trap::Type(TrapType::Mismatch(ValueType::I64, ValueType::I32)))
    );
    assert_eq!(process.stack.len(), 2);
    assert_eq!(process.stack.pop::<Value>(), Ok(I32(5)));
    process.stack.push(I64(5)).unwrap();
    process.stack.frame.ip = 2;
    process.stack.pop::<Value>().unwrap();
    process.stack.pop::<Value>().unwrap();
    process.stack.push(I32(1)).unwrap();
    process.stack.push(I64(2)).unwrap();
    assert_eq!(
        processor.next(&mut process, 1),
        Err(Trap::Type(TrapType::Mismatch(ValueType::I64, ValueType::I32)))
    );
    assert_eq!(process.stack.len(), 1);
    assert_eq!(process.stack.pop::<Value>(), Ok(I32(1)));
    assert_eq!(process.stack.frame.locals, vec![]);
}

#[test]
fn bodies_that_can_be_run() {
    assert!(is_runnable(&vec![Instruction::End], 0, 0));
    assert!(is_runnable(&vec![Instruction::LocalGet32(1), Instruction::End], 1, 1));
    assert!(!is_runnable(&vec![Instruction::LocalGet32(2), Instruction::End], 1, 1));
    assert!(!is_runnable(&vec![Instruction::LocalSet32(0), Instruction::End], 0, 0));
    assert!(!is_runnable(&vec![Instruction::End, Instruction::Nop], 0, 0));
    assert!(!is_runnable(&vec![], 0, 0));
}

#[test]
fn stores_and_their_errors() {
    let module = Module::new(
        9,
        vec![Export::function("a".to_string(), 0), Export::function("a".to_string(), 1)],
        vec![],
        vec![Memory { data: vec![1, 2, 3], max: None }],
    );
    let store = Store::new(&module).unwrap();
    assert_eq!(store.export("a").unwrap().data(), &ExportData::Function(0));
    assert_eq!(store.memory(0).unwrap().data, vec![1, 2, 3]);
    assert_eq!(
        store.export("b").err(),
        Some(Trap::NotFound(TrapNotFound::ExportedFunction("b".to_string())))
    );
    assert_eq!(StoreError::NotFoundMemory(4).to_string(), "Memory not found: 4");
    assert_eq!(StoreError::NotFoundTypes.to_string(), "Types not found");
    assert_eq!(LoadError::not_found("x".to_string()).to_string(), "x");
}
