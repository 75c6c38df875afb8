//! The executable form of a module: functions, exports and memories.

use crate::instruction::Instruction;
use crate::value::ValueType;
use vstd::prelude::*;

verus! {

pub type Index = u32;

pub type LocalIndex = Index;

pub type FunctionIndex = Index;

pub type TableIndex = Index;

pub type MemoryIndex = Index;

pub type GlobalIndex = Index;

pub type ElementIndex = Index;

pub type DataIndex = Index;

pub type ExternalIndex = Index;

pub type TypeIndex = Index;

pub type LabelIndex = Index;

pub type ModuleIndex = Index;

pub type LocalAddress = u32;

pub type FunctionAddress = u32;

pub type MemoryAddress = u32;

pub type ModuleId = u16;

pub type ValueTypes = Vec<ValueType>;

/// The number of bytes of one page of linear memory.
pub const PAGE_SIZE: u32 = 65536;

/// Copies a list of value types.
pub fn copy_types(types: &Vec<ValueType>) -> (r: Vec<ValueType>)
    ensures
        r@ == types@,
{
    let r = types.clone();
    assert(r@ =~= types@);
    r
}

/// Copies a list of instructions.
pub fn copy_instructions(code: &Vec<Instruction>) -> (r: Vec<Instruction>)
    ensures
        r@ == code@,
{
    let r = code.clone();
    assert(r@ =~= code@);
    r
}

/// Copies a list of bytes.
pub fn copy_bytes(bytes: &Vec<u8>) -> (r: Vec<u8>)
    ensures
        r@ == bytes@,
{
    let r = bytes.clone();
    assert(r@ =~= bytes@);
    r
}

/// Parameter and result types of a function.
#[derive(Debug, Clone, PartialEq)]
pub struct Signature {
    pub params: ValueTypes,
    pub results: ValueTypes,
}

/// Parameter and result types of a function.
#[derive(Debug, Clone, PartialEq)]
pub struct FunctionSignature {
    pub params: ValueTypes,
    pub results: ValueTypes,
}

impl FunctionSignature {
    pub fn new(params: ValueTypes, results: ValueTypes) -> (r: Self)
        ensures
            r.params == params,
            r.results == results,
    {
        Self { params, results }
    }
}

/// What a function is, as plain values.
pub struct FunctionSpec {
    pub params: Seq<ValueType>,
    pub results: Seq<ValueType>,
    pub locals: Seq<ValueType>,
    pub code: Seq<Instruction>,
}

/// A function defined by the module itself.
#[derive(Debug, Clone, PartialEq)]
pub struct FunctionLocal {
    pub signature: FunctionSignature,
    pub locals: ValueTypes,
    pub instructions: Vec<Instruction>,
}

impl View for FunctionLocal {
    type V = FunctionSpec;

    open spec fn view(&self) -> FunctionSpec {
        FunctionSpec {
            params: self.signature.params@,
            results: self.signature.results@,
            locals: self.locals@,
            code: self.instructions@,
        }
    }
}

impl FunctionLocal {
    pub fn result_count(&self) -> (r: usize)
        ensures
            r == self@.results.len(),
    {
        self.signature.results.len()
    }

    pub fn parameter_count(&self) -> (r: usize)
        ensures
            r == self@.params.len(),
    {
        self.signature.params.len()
    }

    /// The types of the parameters, in declared order.
    pub fn parameters(&self) -> (r: &[ValueType])
        ensures
            r@ == self@.params,
    {
        self.signature.params.as_slice()
    }

    /// The types of the declared locals; the parameters are not among them.
    pub fn locals(&self) -> (r: &[ValueType])
        ensures
            r@ == self@.locals,
    {
        self.locals.as_slice()
    }

    /// A copy of the body.
    pub fn instructions(&self) -> (r: Vec<Instruction>)
        ensures
            r@ == self@.code,
    {
        copy_instructions(&self.instructions)
    }

    /// A copy of the function.
    pub fn duplicate(&self) -> (r: FunctionLocal)
        ensures
            r@ == self@,
    {
        FunctionLocal {
            signature: FunctionSignature {
                params: copy_types(&self.signature.params),
                results: copy_types(&self.signature.results),
            },
            locals: copy_types(&self.locals),
            instructions: copy_instructions(&self.instructions),
        }
    }
}

/// A function of a module.
#[derive(Debug, Clone, PartialEq)]
pub enum Function {
    Local(FunctionLocal),
}

impl View for Function {
    type V = FunctionSpec;

    open spec fn view(&self) -> FunctionSpec {
        match self {
            Function::Local(local) => local@,
        }
    }
}

impl Function {
    pub fn local(signature: FunctionSignature, locals: ValueTypes, instructions: Vec<Instruction>) -> (r:
        Self)
        ensures
            r@ == (FunctionSpec {
                params: signature.params@,
                results: signature.results@,
                locals: locals@,
                code: instructions@,
            }),
    {
        Function::Local(FunctionLocal { signature, locals, instructions })
    }

    /// A copy of the function.
    pub fn duplicate(&self) -> (r: Function)
        ensures
            r@ == self@,
    {
        match self {
            Function::Local(local) => Function::Local(local.duplicate()),
        }
    }
}

/// What an export points at.
#[derive(Debug, Clone, Copy, PartialEq, Eq, Structural)]
pub enum ExportData {
    Function(FunctionAddress),
}

/// What an export is, as plain values.
pub struct ExportSpec {
    pub name: Seq<char>,
    pub data: ExportData,
}

/// A name under which the host reaches an item of the module.
#[derive(Debug, Clone, PartialEq)]
pub struct Export {
    pub name: String,
    pub data: ExportData,
}

impl View for Export {
    type V = ExportSpec;

    open spec fn view(&self) -> ExportSpec {
        ExportSpec { name: self.name@, data: self.data }
    }
}

impl Export {
    pub fn function(name: String, addr: FunctionAddress) -> (r: Self)
        ensures
            r@ == (ExportSpec { name: name@, data: ExportData::Function(addr) }),
    {
        Self { name, data: ExportData::Function(addr) }
    }

    pub fn name(&self) -> (r: &str)
        ensures
            r@ == self@.name,
    {
        self.name.as_str()
    }

    pub fn data(&self) -> (r: &ExportData)
        ensures
            *r == self@.data,
    {
        &self.data
    }

    /// A copy of the export.
    pub fn duplicate(&self) -> (r: Export)
        ensures
            r@ == self@,
    {
        Export { name: self.name.clone(), data: self.data }
    }
}

/// What a memory is, as plain values.
pub struct MemorySpec {
    pub data: Seq<u8>,
    pub max: Option<u32>,
}

/// A linear memory: its bytes and the most pages it may grow to.
#[derive(Debug, Clone, PartialEq)]
pub struct Memory {
    pub data: Vec<u8>,
    pub max: Option<u32>,
}

impl View for Memory {
    type V = MemorySpec;

    open spec fn view(&self) -> MemorySpec {
        MemorySpec { data: self.data@, max: self.max }
    }
}

impl Memory {
    /// A copy of the memory.
    pub fn duplicate(&self) -> (r: Memory)
        ensures
            r@ == self@,
    {
        Memory { data: copy_bytes(&self.data), max: self.max }
    }
}

/// The functions of a list, as plain values.
pub open spec fn function_specs(functions: Seq<Function>) -> Seq<FunctionSpec> {
    Seq::new(functions.len(), |i: int| functions[i]@)
}

/// The exports of a list, as plain values.
pub open spec fn export_specs(exports: Seq<Export>) -> Seq<ExportSpec> {
    Seq::new(exports.len(), |i: int| exports[i]@)
}

/// The memories of a list, as plain values.
pub open spec fn memory_specs(memories: Seq<Memory>) -> Seq<MemorySpec> {
    Seq::new(memories.len(), |i: int| memories[i]@)
}

/// What a module is, as plain values.
pub struct ModuleSpec {
    pub id: ModuleId,
    pub functions: Seq<FunctionSpec>,
    pub exports: Seq<ExportSpec>,
    pub memories: Seq<MemorySpec>,
}

/// A loaded module in executable form.
#[derive(Debug, Clone, PartialEq)]
pub struct Module {
    pub id: ModuleId,
    pub functions: Vec<Function>,
    pub exports: Vec<Export>,
    pub memories: Vec<Memory>,
}

impl View for Module {
    type V = ModuleSpec;

    open spec fn view(&self) -> ModuleSpec {
        ModuleSpec {
            id: self.id,
            functions: function_specs(self.functions@),
            exports: export_specs(self.exports@),
            memories: memory_specs(self.memories@),
        }
    }
}

impl Module {
    pub fn new(id: ModuleId, exports: Vec<Export>, functions: Vec<Function>, memories: Vec<Memory>) -> (r:
        Self)
        ensures
            r.id == id,
            r.exports == exports,
            r.functions == functions,
            r.memories == memories,
    {
        Self { id, functions, exports, memories }
    }
}

/// Copies a list of functions.
pub fn copy_functions(functions: &Vec<Function>) -> (r: Vec<Function>)
    ensures
        function_specs(r@) == function_specs(functions@),
{
    let mut r: Vec<Function> = Vec::new();
    let mut i: usize = 0;
    while i < functions.len()
        invariant
            i <= functions.len(),
            r.len() == i,
            forall|j: int| 0 <= j < i ==> r[j]@ == functions[j]@,
        decreases functions.len() - i,
    {
        r.push(functions[i].duplicate());
        i += 1;
    }
    assert(function_specs(r@) =~= function_specs(functions@));
    r
}

/// Copies a list of exports.
pub fn copy_exports(exports: &Vec<Export>) -> (r: Vec<Export>)
    ensures
        export_specs(r@) == export_specs(exports@),
{
    let mut r: Vec<Export> = Vec::new();
    let mut i: usize = 0;
    while i < exports.len()
        invariant
            i <= exports.len(),
            r.len() == i,
            forall|j: int| 0 <= j < i ==> r[j]@ == exports[j]@,
        decreases exports.len() - i,
    {
        r.push(exports[i].duplicate());
        i += 1;
    }
    assert(export_specs(r@) =~= export_specs(exports@));
    r
}

/// Copies a list of memories.
pub fn copy_memories(memories: &Vec<Memory>) -> (r: Vec<Memory>)
    ensures
        memory_specs(r@) == memory_specs(memories@),
{
    let mut r: Vec<Memory> = Vec::new();
    let mut i: usize = 0;
    while i < memories.len()
        invariant
            i <= memories.len(),
            r.len() == i,
            forall|j: int| 0 <= j < i ==> r[j]@ == memories[j]@,
        decreases memories.len() - i,
    {
        r.push(memories[i].duplicate());
        i += 1;
    }
    assert(memory_specs(r@) =~= memory_specs(memories@));
    r
}

} // verus!
