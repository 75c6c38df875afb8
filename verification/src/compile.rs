//! Lowering: from a decoded module to its executable form.

use crate::bytes::written;
use crate::instruction::Instruction;
use crate::module::{export_specs, function_specs, memory_specs, Export, ExportData, ExportSpec, Function, FunctionSignature, FunctionSpec, Memory, MemorySpec, Module, ModuleId, ModuleSpec, PAGE_SIZE};
use crate::semantics::{runnable, Operation};
use crate::text::{decimal, decimal_string, prefixed};
use crate::value::ValueType;
use crate::wasm::instruction::WasmInstruction;
use crate::wasm::module::{WasmDataSpec, WasmExportDescriptor, WasmModule, WasmModuleSpec, WasmValueType};
use vstd::prelude::*;
use vstd::utf8::{decode_utf8, valid_utf8};

verus! {

/// Why a decoded module has no executable form.
#[derive(Debug, Clone, Copy, PartialEq, Eq, Structural)]
pub enum CompilationError {
    /// A function names a signature that the module does not have.
    UnknownType(u32),
    /// The body of the function at the index cannot be run: it does not end
    /// with `End`, or it names a local that the function does not have.
    InvalidFunction(u32),
    /// The name of the export at the index is no UTF-8.
    InvalidName(u32),
    /// The memory at the index is larger than this machine can address.
    MemoryTooLarge(u32),
    /// A data segment names a memory that the module does not have.
    UnknownMemory(u32),
    /// The data segment at the index does not fit into its memory.
    DataOutOfBounds(u32),
    /// No id is left for the module: as many modules are loaded as there
    /// are ids.
    NoModuleId,
}

impl CompilationError {
    pub open spec fn text(self) -> Seq<char> {
        match self {
            CompilationError::UnknownType(index) => "Unknown type: "@ + decimal(index as nat),
            CompilationError::InvalidFunction(index) => "Invalid function: "@ + decimal(index as nat),
            CompilationError::InvalidName(index) => "Invalid name of export: "@ + decimal(
                index as nat,
            ),
            CompilationError::MemoryTooLarge(index) => "Memory too large: "@ + decimal(index as nat),
            CompilationError::UnknownMemory(index) => "Unknown memory: "@ + decimal(index as nat),
            CompilationError::DataOutOfBounds(index) => "Data segment out of bounds: "@ + decimal(
                index as nat,
            ),
            CompilationError::NoModuleId => "No module id left"@,
        }
    }

    /// The message this error is reported with.
    pub fn to_string(&self) -> (r: String)
        ensures
            r@ == self.text(),
    {
        match self {
            CompilationError::UnknownType(index) => prefixed(
                "Unknown type: ",
                decimal_string(*index as u64).as_str(),
            ),
            CompilationError::InvalidFunction(index) => prefixed(
                "Invalid function: ",
                decimal_string(*index as u64).as_str(),
            ),
            CompilationError::InvalidName(index) => prefixed(
                "Invalid name of export: ",
                decimal_string(*index as u64).as_str(),
            ),
            CompilationError::MemoryTooLarge(index) => prefixed(
                "Memory too large: ",
                decimal_string(*index as u64).as_str(),
            ),
            CompilationError::UnknownMemory(index) => prefixed(
                "Unknown memory: ",
                decimal_string(*index as u64).as_str(),
            ),
            CompilationError::DataOutOfBounds(index) => prefixed(
                "Data segment out of bounds: ",
                decimal_string(*index as u64).as_str(),
            ),
            CompilationError::NoModuleId => "No module id left".to_owned(),
        }
    }
}

/// The value type of the executable form for one of the decoder.
pub open spec fn value_type(t: WasmValueType) -> ValueType {
    match t {
        WasmValueType::I32 => ValueType::I32,
        WasmValueType::I64 => ValueType::I64,
    }
}

/// The value types of the executable form for those of the decoder.
pub open spec fn value_types(types: Seq<WasmValueType>) -> Seq<ValueType> {
    Seq::new(types.len(), |i: int| value_type(types[i]))
}

/// The locals that runs of locals stand for, one after the other.
pub open spec fn expanded(groups: Seq<(u32, WasmValueType)>) -> Seq<ValueType>
    decreases groups.len(),
{
    if groups.len() == 0 {
        Seq::empty()
    } else {
        expanded(groups.drop_last()) + Seq::new(
            groups.last().0 as nat,
            |i: int| value_type(groups.last().1),
        )
    }
}

/// The instructions of the executable form for those of the decoder.
pub open spec fn lowered_code(code: Seq<WasmInstruction>) -> Seq<Instruction> {
    Seq::new(code.len(), |i: int| code[i].lowered())
}

/// The function at `index`: the signature that the function section names
/// for it, the locals of its body expanded and its instructions lowered.
pub open spec fn function_of(wasm: WasmModuleSpec, index: int) -> Result<FunctionSpec, CompilationError> {
    let type_index = wasm.functions[index];
    let body = wasm.codes[index];
    if type_index >= wasm.types.len() {
        Err(CompilationError::UnknownType(type_index))
    } else {
        let f = FunctionSpec {
            params: value_types(wasm.types[type_index as int].params),
            results: value_types(wasm.types[type_index as int].returns),
            locals: expanded(body.locals),
            code: lowered_code(body.code),
        };
        if runnable(f.code, f.params.len() + f.locals.len()) {
            Ok(f)
        } else {
            Err(CompilationError::InvalidFunction(index as u32))
        }
    }
}

/// The first `n` functions.
pub open spec fn functions_of(wasm: WasmModuleSpec, n: nat) -> Result<Seq<FunctionSpec>, CompilationError>
    decreases n,
{
    if n == 0 {
        Ok(Seq::empty())
    } else {
        match functions_of(wasm, (n - 1) as nat) {
            Err(e) => Err(e),
            Ok(functions) => match function_of(wasm, n - 1) {
                Err(e) => Err(e),
                Ok(f) => Ok(functions.push(f)),
            },
        }
    }
}

/// The number of functions that have both a signature index and a body.
pub open spec fn function_count(wasm: WasmModuleSpec) -> nat {
    if wasm.codes.len() <= wasm.functions.len() {
        wasm.codes.len()
    } else {
        wasm.functions.len()
    }
}

/// The exports among the first `n` of the decoded module: those of
/// functions, under their names read as UTF-8.
pub open spec fn exports_of(wasm: WasmModuleSpec, n: nat) -> Result<Seq<ExportSpec>, CompilationError>
    decreases n,
{
    if n == 0 {
        Ok(Seq::empty())
    } else {
        match exports_of(wasm, (n - 1) as nat) {
            Err(e) => Err(e),
            Ok(exports) => {
                let export = wasm.exports[n - 1];
                if !valid_utf8(export.name) {
                    Err(CompilationError::InvalidName((n - 1) as u32))
                } else {
                    match export.desc {
                        WasmExportDescriptor::Func(index) => Ok(
                            exports.push(
                                ExportSpec {
                                    name: decode_utf8(export.name),
                                    data: ExportData::Function(index),
                                },
                            ),
                        ),
                        _ => Ok(exports),
                    }
                }
            },
        }
    }
}

/// `n` zero bytes.
pub open spec fn zeros(n: nat) -> Seq<u8> {
    Seq::new(n, |i: int| 0u8)
}

/// The first `n` memories, each with its minimum of pages, all zero.
pub open spec fn memories_of(wasm: WasmModuleSpec, n: nat) -> Result<Seq<MemorySpec>, CompilationError>
    decreases n,
{
    if n == 0 {
        Ok(Seq::empty())
    } else {
        match memories_of(wasm, (n - 1) as nat) {
            Err(e) => Err(e),
            Ok(memories) => {
                let limits = wasm.memories[n - 1].limits;
                if limits.min * PAGE_SIZE > usize::MAX {
                    Err(CompilationError::MemoryTooLarge((n - 1) as u32))
                } else {
                    Ok(
                        memories.push(
                            MemorySpec { data: zeros((limits.min * PAGE_SIZE) as nat), max: limits.max },
                        ),
                    )
                }
            },
        }
    }
}

/// The memories with the first `n` data segments written into them.
pub open spec fn with_data(memories: Seq<MemorySpec>, data: Seq<WasmDataSpec>, n: nat) -> Result<
    Seq<MemorySpec>,
    CompilationError,
>
    decreases n,
{
    if n == 0 {
        Ok(memories)
    } else {
        match with_data(memories, data, (n - 1) as nat) {
            Err(e) => Err(e),
            Ok(filled) => {
                let segment = data[n - 1];
                if segment.memory_index >= filled.len() {
                    Err(CompilationError::UnknownMemory(segment.memory_index))
                } else {
                    let memory = filled[segment.memory_index as int];
                    if segment.offset + segment.data.len() > memory.data.len() {
                        Err(CompilationError::DataOutOfBounds((n - 1) as u32))
                    } else {
                        Ok(
                            filled.update(
                                segment.memory_index as int,
                                MemorySpec {
                                    data: written(memory.data, segment.offset as int, segment.data),
                                    max: memory.max,
                                },
                            ),
                        )
                    }
                }
            },
        }
    }
}

/// The executable form of a decoded module: its functions, then its
/// exports, then its memories with the data segments written into them. The
/// first item that cannot be lowered gives the error.
pub open spec fn lowered(id: ModuleId, wasm: WasmModuleSpec) -> Result<ModuleSpec, CompilationError> {
    match functions_of(wasm, function_count(wasm)) {
        Err(e) => Err(e),
        Ok(functions) => match exports_of(wasm, wasm.exports.len()) {
            Err(e) => Err(e),
            Ok(exports) => match memories_of(wasm, wasm.memories.len()) {
                Err(e) => Err(e),
                Ok(empty) => match with_data(empty, wasm.data, wasm.data.len()) {
                    Err(e) => Err(e),
                    Ok(memories) => Ok(ModuleSpec { id, functions, exports, memories }),
                },
            },
        },
    }
}

/// An error among the first functions is the error of all of them.
pub proof fn lemma_functions_fail(wasm: WasmModuleSpec, k: nat, n: nat)
    requires
        k <= n,
        functions_of(wasm, k) is Err,
    ensures
        functions_of(wasm, n) == functions_of(wasm, k),
    decreases n,
{
    if k < n {
        lemma_functions_fail(wasm, k, (n - 1) as nat);
    }
}

/// An error among the first exports is the error of all of them.
pub proof fn lemma_exports_fail(wasm: WasmModuleSpec, k: nat, n: nat)
    requires
        k <= n,
        exports_of(wasm, k) is Err,
    ensures
        exports_of(wasm, n) == exports_of(wasm, k),
    decreases n,
{
    if k < n {
        lemma_exports_fail(wasm, k, (n - 1) as nat);
    }
}

/// An error among the first memories is the error of all of them.
pub proof fn lemma_memories_fail(wasm: WasmModuleSpec, k: nat, n: nat)
    requires
        k <= n,
        memories_of(wasm, k) is Err,
    ensures
        memories_of(wasm, n) == memories_of(wasm, k),
    decreases n,
{
    if k < n {
        lemma_memories_fail(wasm, k, (n - 1) as nat);
    }
}

/// An error among the first data segments is the error of all of them.
pub proof fn lemma_data_fail(memories: Seq<MemorySpec>, data: Seq<WasmDataSpec>, k: nat, n: nat)
    requires
        k <= n,
        with_data(memories, data, k) is Err,
    ensures
        with_data(memories, data, n) == with_data(memories, data, k),
    decreases n,
{
    if k < n {
        lemma_data_fail(memories, data, k, (n - 1) as nat);
    }
}

/// `core::str::from_utf8` of the standard library: the text that the bytes
/// are the UTF-8 encoding of, or nothing where they are no UTF-8.
#[verifier::external_body]
fn text_of(bytes: &[u8]) -> (r: Option<&str>)
    ensures
        r is Some <==> valid_utf8(bytes@),
        r matches Some(s) ==> s@ == decode_utf8(bytes@),
{
    match core::str::from_utf8(bytes) {
        Ok(s) => Some(s),
        Err(_) => None,
    }
}

/// The value type of the executable form for one of the decoder.
pub fn lower_value_type(t: WasmValueType) -> (r: ValueType)
    ensures
        r == value_type(t),
{
    match t {
        WasmValueType::I32 => ValueType::I32,
        WasmValueType::I64 => ValueType::I64,
    }
}

fn lower_value_types(types: &Vec<WasmValueType>) -> (r: Vec<ValueType>)
    ensures
        r@ == value_types(types@),
{
    let mut r: Vec<ValueType> = Vec::new();
    let mut i: usize = 0;
    while i < types.len()
        invariant
            i <= types.len(),
            r.len() == i,
            forall|j: int| 0 <= j < i ==> r[j] == value_type(types[j]),
        decreases types.len() - i,
    {
        r.push(lower_value_type(types[i]));
        i += 1;
    }
    assert(r@ =~= value_types(types@));
    r
}

fn expand_locals(groups: &Vec<(u32, WasmValueType)>) -> (r: Vec<ValueType>)
    ensures
        r@ == expanded(groups@),
{
    let mut r: Vec<ValueType> = Vec::new();
    let mut i: usize = 0;
    while i < groups.len()
        invariant
            i <= groups.len(),
            r@ == expanded(groups@.subrange(0, i as int)),
        decreases groups.len() - i,
    {
        let (count, t) = groups[i];
        let ghost before = r@;
        let mut k: u32 = 0;
        while k < count
            invariant
                k <= count,
                r@ == before + Seq::new(k as nat, |j: int| value_type(t)),
            decreases count - k,
        {
            r.push(lower_value_type(t));
            assert(r@ =~= before + Seq::new((k + 1) as nat, |j: int| value_type(t)));
            k += 1;
        }
        assert(groups@.subrange(0, i + 1).drop_last() =~= groups@.subrange(0, i as int));
        i += 1;
    }
    assert(groups@.subrange(0, i as int) =~= groups@);
    r
}

fn lower_code(code: &Vec<WasmInstruction>) -> (r: Vec<Instruction>)
    ensures
        r@ == lowered_code(code@),
{
    let mut r: Vec<Instruction> = Vec::new();
    let mut i: usize = 0;
    while i < code.len()
        invariant
            i <= code.len(),
            r.len() == i,
            forall|j: int| 0 <= j < i ==> r[j] == code[j].lowered(),
        decreases code.len() - i,
    {
        r.push(code[i].lower());
        i += 1;
    }
    assert(r@ =~= lowered_code(code@));
    r
}

/// Whether a function body with `params` parameters and `locals` declared
/// locals can be run.
pub fn is_runnable(code: &Vec<Instruction>, params: usize, locals: usize) -> (r: bool)
    ensures
        r == runnable(code@, (params + locals) as nat),
{
    if code.len() == 0 || code.len() > isize::MAX as usize {
        return false;
    }
    let bound: u128 = params as u128 + locals as u128;
    match code[code.len() - 1] {
        Instruction::End => {},
        _ => {
            return false;
        },
    }
    let mut i: usize = 0;
    while i < code.len()
        invariant
            i <= code.len(),
            bound == params + locals,
            forall|j: int|
                0 <= j < i ==> match (#[trigger] code[j]).operation() {
                    Operation::LocalGet(index) => index < bound,
                    Operation::LocalSet(index) => index < bound,
                    _ => true,
                },
        decreases code.len() - i,
    {
        match code[i].decode() {
            Operation::LocalGet(index) => {
                if index as u128 >= bound {
                    return false;
                }
            },
            Operation::LocalSet(index) => {
                if index as u128 >= bound {
                    return false;
                }
            },
            _ => {},
        }
        i += 1;
    }
    true
}

/// `n` zero bytes.
fn zero_bytes(n: usize) -> (r: Vec<u8>)
    ensures
        r@ == zeros(n as nat),
{
    let r = vec![0u8; n];
    assert(r@ =~= zeros(n as nat));
    r
}

/// Writes `bytes` into `memory` from position `at` on.
fn copy_into(memory: &mut Vec<u8>, at: usize, bytes: &Vec<u8>)
    requires
        at + bytes@.len() <= old(memory)@.len(),
    ensures
        final(memory)@ == written(old(memory)@, at as int, bytes@),
{
    let ghost before = memory@;
    let len = memory.len();
    let mut i: usize = 0;
    while i < bytes.len()
        invariant
            i <= bytes.len(),
            memory@.len() == before.len(),
            at + bytes@.len() <= before.len(),
            before.len() == len,
            forall|j: int| 0 <= j < at + i ==> memory@[j] == written(before, at as int, bytes@)[j],
            forall|j: int| at + i <= j < memory@.len() ==> memory@[j] == before[j],
        decreases bytes.len() - i,
    {
        memory[at + i] = bytes[i];
        i += 1;
    }
    assert(memory@ =~= written(before, at as int, bytes@));
}

#[derive(Debug)]
pub struct Compiler {}

impl Default for Compiler {
    fn default() -> Self {
        Self {  }
    }
}

impl Compiler {
    pub fn new() -> Self {
        Self {  }
    }

    /// Lowers a decoded module. Every function of the result can be run.
    #[verifier::loop_isolation(false)]
    pub fn compile(&self, id: ModuleId, wasm: &WasmModule) -> (r: Result<Module, CompilationError>)
        ensures
            match r {
                Ok(module) => lowered(id, wasm@) == Ok::<ModuleSpec, CompilationError>(module@),
                Err(e) => lowered(id, wasm@) == Err::<ModuleSpec, CompilationError>(e),
            },
    {
        let count = if wasm.codes.len() <= wasm.functions.len() {
            wasm.codes.len()
        } else {
            wasm.functions.len()
        };
        let mut functions: Vec<Function> = Vec::new();
        let mut i: usize = 0;
        assert(function_specs(functions@) =~= Seq::empty());
        while i < count
            invariant
                i <= count,
                functions_of(wasm@, i as nat) == Ok::<Seq<FunctionSpec>, CompilationError>(
                    function_specs(functions@),
                ),
            decreases count - i,
        {
            let body = &wasm.codes[i];
            let type_index = wasm.functions[i];
            assert(wasm@.codes[i as int] == body@);
            if type_index as usize >= wasm.types.len() {
                proof {
                    lemma_functions_fail(wasm@, (i + 1) as nat, count as nat);
                }
                return Err(CompilationError::UnknownType(type_index));
            }
            let func_type = &wasm.types[type_index as usize];
            assert(wasm@.types[type_index as int] == func_type@);
            let params = lower_value_types(&func_type.params);
            let results = lower_value_types(&func_type.returns);
            let locals = expand_locals(&body.locals);
            let instructions = lower_code(&body.code);
            if !is_runnable(&instructions, params.len(), locals.len()) {
                proof {
                    lemma_functions_fail(wasm@, (i + 1) as nat, count as nat);
                }
                return Err(CompilationError::InvalidFunction(#[verifier::truncate] (i as u32)));
            }
            let function = Function::local(FunctionSignature::new(params, results), locals, instructions);
            let ghost done = functions@;
            functions.push(function);
            assert(function_specs(functions@) =~= function_specs(done).push(function@));
            i += 1;
        }
        let mut exports: Vec<Export> = Vec::new();
        let mut k: usize = 0;
        assert(export_specs(exports@) =~= Seq::empty());
        while k < wasm.exports.len()
            invariant
                k <= wasm.exports.len(),
                exports_of(wasm@, k as nat) == Ok::<Seq<ExportSpec>, CompilationError>(
                    export_specs(exports@),
                ),
            decreases wasm.exports.len() - k,
        {
            let export = &wasm.exports[k];
            assert(wasm@.exports[k as int] == export@);
            let name = match text_of(export.name.as_slice()) {
                Some(name) => name.to_owned(),
                None => {
                    proof {
                        lemma_exports_fail(wasm@, (k + 1) as nat, wasm@.exports.len());
                    }
                    return Err(CompilationError::InvalidName(#[verifier::truncate] (k as u32)));
                },
            };
            match export.desc {
                WasmExportDescriptor::Func(index) => {
                    let ghost done = exports@;
                    let export = Export::function(name, index);
                    exports.push(export);
                    assert(export_specs(exports@) =~= export_specs(done).push(export@));
                },
                _ => {},
            }
            k += 1;
        }
        let mut memories: Vec<Memory> = Vec::new();
        let mut m: usize = 0;
        assert(memory_specs(memories@) =~= Seq::empty());
        while m < wasm.memories.len()
            invariant
                m <= wasm.memories.len(),
                memories_of(wasm@, m as nat) == Ok::<Seq<MemorySpec>, CompilationError>(
                    memory_specs(memories@),
                ),
            decreases wasm.memories.len() - m,
        {
            let limits = wasm.memories[m].limits;
            let size: u64 = limits.min as u64 * PAGE_SIZE as u64;
            if size > usize::MAX as u64 {
                proof {
                    lemma_memories_fail(wasm@, (m + 1) as nat, wasm@.memories.len());
                }
                return Err(CompilationError::MemoryTooLarge(#[verifier::truncate] (m as u32)));
            }
            let ghost done = memories@;
            let memory = Memory { data: zero_bytes(size as usize), max: limits.max };
            memories.push(memory);
            assert(memory_specs(memories@) =~= memory_specs(done).push(memory@));
            m += 1;
        }
        let ghost empty = memory_specs(memories@);
        let mut d: usize = 0;
        while d < wasm.data.len()
            invariant
                d <= wasm.data.len(),
                with_data(empty, wasm@.data, d as nat) == Ok::<Seq<MemorySpec>, CompilationError>(
                    memory_specs(memories@),
                ),
            decreases wasm.data.len() - d,
        {
            let segment = &wasm.data[d];
            assert(wasm@.data[d as int] == segment@);
            if segment.memory_index as usize >= memories.len() {
                proof {
                    lemma_data_fail(empty, wasm@.data, (d + 1) as nat, wasm@.data.len());
                }
                return Err(CompilationError::UnknownMemory(segment.memory_index));
            }
            let ghost filled = memories@;
            let at = segment.memory_index as usize;
            if segment.offset as u128 + segment.data.len() as u128 > memories[at].data.len() as u128 {
                proof {
                    lemma_data_fail(empty, wasm@.data, (d + 1) as nat, wasm@.data.len());
                }
                return Err(CompilationError::DataOutOfBounds(#[verifier::truncate] (d as u32)));
            }
            copy_into(&mut memories[at].data, segment.offset as usize, &segment.data);
            assert(memory_specs(memories@) =~= memory_specs(filled).update(
                at as int,
                MemorySpec {
                    data: written(filled[at as int].data@, segment.offset as int, segment.data@),
                    max: filled[at as int].max,
                },
            ));
            d += 1;
        }
        Ok(Module::new(id, exports, functions, memories))
    }
}

} // verus!
