//! A decoded module: what each section of the binary holds.

use crate::wasm::instruction::WasmInstruction;
use vstd::prelude::*;

verus! {

/// The views of the items of `items`.
pub open spec fn views<T: View>(items: Seq<T>) -> Seq<T::V> {
    Seq::new(items.len(), |i: int| items[i]@)
}

/// The views of a list with one more item are the views of the list with
/// the view of that item.
pub proof fn lemma_views_push<T: View>(items: Seq<T>, x: T)
    ensures
        views(items.push(x)) == views(items).push(x@),
{
    assert(views(items.push(x)) =~= views(items).push(x@));
}

#[derive(Debug, Clone, Copy, PartialEq, Eq, Structural)]
pub enum WasmValueType {
    I32,
    I64,
}

#[derive(Debug, Clone, Copy, PartialEq, Eq, Structural)]
pub enum WasmValue {
    I32(i32),
    I64(i64),
}

/// The limits of a resizable item, in pages or elements.
#[derive(Debug, Clone, Copy, PartialEq, Eq)]
pub struct WasmResizableLimit {
    pub min: u32,
    pub max: Option<u32>,
}

/// The type of a table: the type of its elements and its limits.
#[derive(Debug, Clone, Copy, PartialEq, Eq)]
pub struct WasmTable {
    pub element_type: u8,
    pub limits: WasmResizableLimit,
}

/// The type of a memory: its limits.
#[derive(Debug, Clone, Copy, PartialEq, Eq)]
pub struct WasmMemory {
    pub limits: WasmResizableLimit,
}

/// What an import stands for.
#[derive(Debug, Clone, Copy, PartialEq, Eq)]
pub enum WasmImportDescriptor {
    Func(u32),
    Table(WasmTable),
    Memory(WasmMemory),
}

/// What an export stands for.
#[derive(Debug, Clone, Copy, PartialEq, Eq)]
pub enum WasmExportDescriptor {
    Func(u32),
    Table(u32),
    Memory(u32),
    Global(u32),
}

/// What a custom section is, as plain values.
pub struct WasmCustomSpec {
    pub name: Seq<char>,
    pub data: Seq<u8>,
}

/// A custom section. The decoder does not look into it: the content of the
/// section, its name included, is kept in `data` as it stands in the
/// binary, and `name` is left empty.
#[derive(Debug, Clone, PartialEq)]
pub struct WasmCustom {
    pub name: String,
    pub data: Vec<u8>,
}

impl View for WasmCustom {
    type V = WasmCustomSpec;

    open spec fn view(&self) -> WasmCustomSpec {
        WasmCustomSpec { name: self.name@, data: self.data@ }
    }
}

/// What a function signature is, as plain values.
pub struct WasmFuncSpec {
    pub params: Seq<WasmValueType>,
    pub returns: Seq<WasmValueType>,
}

/// A function signature: the types of the parameters and of the results.
#[derive(Debug, Clone, PartialEq)]
pub struct WasmFunc {
    pub params: Vec<WasmValueType>,
    pub returns: Vec<WasmValueType>,
}

impl View for WasmFunc {
    type V = WasmFuncSpec;

    open spec fn view(&self) -> WasmFuncSpec {
        WasmFuncSpec { params: self.params@, returns: self.returns@ }
    }
}

impl Default for WasmFunc {
    fn default() -> (r: Self)
        ensures
            r@ == (WasmFuncSpec { params: Seq::empty(), returns: Seq::empty() }),
    {
        WasmFunc { params: Vec::new(), returns: Vec::new() }
    }
}

/// What an import is, as plain values.
pub struct WasmImportSpec {
    pub module: Seq<u8>,
    pub name: Seq<u8>,
    pub desc: WasmImportDescriptor,
}

/// An import: the module it comes from, its name there, and what it is.
#[derive(Debug, Clone, PartialEq)]
pub struct WasmImport {
    pub module: Vec<u8>,
    pub name: Vec<u8>,
    pub desc: WasmImportDescriptor,
}

impl View for WasmImport {
    type V = WasmImportSpec;

    open spec fn view(&self) -> WasmImportSpec {
        WasmImportSpec { module: self.module@, name: self.name@, desc: self.desc }
    }
}

/// What an export is, as plain values.
pub struct WasmExportSpec {
    pub name: Seq<u8>,
    pub desc: WasmExportDescriptor,
}

/// An export: its name and what it is.
#[derive(Debug, Clone, PartialEq)]
pub struct WasmExport {
    pub name: Vec<u8>,
    pub desc: WasmExportDescriptor,
}

impl View for WasmExport {
    type V = WasmExportSpec;

    open spec fn view(&self) -> WasmExportSpec {
        WasmExportSpec { name: self.name@, desc: self.desc }
    }
}

/// What an element segment is, as plain values.
pub struct WasmElementSpec {
    pub table_index: u32,
    pub offset: Seq<WasmInstruction>,
    pub init: Seq<u32>,
}

/// An element segment: function indices for a table.
#[derive(Debug, Clone, PartialEq)]
pub struct WasmElement {
    pub table_index: u32,
    pub offset: Vec<WasmInstruction>,
    pub init: Vec<u32>,
}

impl View for WasmElement {
    type V = WasmElementSpec;

    open spec fn view(&self) -> WasmElementSpec {
        WasmElementSpec { table_index: self.table_index, offset: self.offset@, init: self.init@ }
    }
}

/// What a function body is, as plain values.
pub struct WasmFunctionBodySpec {
    pub locals: Seq<(u32, WasmValueType)>,
    pub code: Seq<WasmInstruction>,
}

/// A function body: the declared locals in runs of one type, and the
/// instructions.
#[derive(Debug, Clone, PartialEq)]
pub struct WasmFunctionBody {
    pub locals: Vec<(u32, WasmValueType)>,
    pub code: Vec<WasmInstruction>,
}

impl View for WasmFunctionBody {
    type V = WasmFunctionBodySpec;

    open spec fn view(&self) -> WasmFunctionBodySpec {
        WasmFunctionBodySpec { locals: self.locals@, code: self.code@ }
    }
}

/// What a data segment is, as plain values.
pub struct WasmDataSpec {
    pub memory_index: u32,
    pub offset: u32,
    pub data: Seq<u8>,
}

/// A data segment: bytes for a memory, and where they go.
#[derive(Debug, Clone, PartialEq)]
pub struct WasmData {
    pub memory_index: u32,
    pub offset: u32,
    pub data: Vec<u8>,
}

impl View for WasmData {
    type V = WasmDataSpec;

    open spec fn view(&self) -> WasmDataSpec {
        WasmDataSpec { memory_index: self.memory_index, offset: self.offset, data: self.data@ }
    }
}

/// What a decoded module is, as plain values.
pub struct WasmModuleSpec {
    pub magic: Seq<u8>,
    pub version: u32,
    pub customs: Seq<WasmCustomSpec>,
    pub types: Seq<WasmFuncSpec>,
    pub imports: Seq<WasmImportSpec>,
    pub functions: Seq<u32>,
    pub tables: Seq<WasmTable>,
    pub memories: Seq<WasmMemory>,
    pub exports: Seq<WasmExportSpec>,
    pub start_function: Option<u32>,
    pub elements: Seq<WasmElementSpec>,
    pub codes: Seq<WasmFunctionBodySpec>,
    pub data: Seq<WasmDataSpec>,
}

/// A decoded module, section by section.
#[derive(Debug, Clone, PartialEq)]
pub struct WasmModule {
    /// The four bytes that every binary starts with.
    pub magic: Vec<u8>,
    /// The version of the binary format.
    pub version: u32,
    pub customs: Vec<WasmCustom>,
    /// The function signatures.
    pub types: Vec<WasmFunc>,
    pub imports: Vec<WasmImport>,
    /// For each function of the module the index of its signature.
    pub functions: Vec<u32>,
    pub tables: Vec<WasmTable>,
    pub memories: Vec<WasmMemory>,
    pub exports: Vec<WasmExport>,
    pub start_function: Option<u32>,
    pub elements: Vec<WasmElement>,
    /// The function bodies, in the order of `functions`.
    pub codes: Vec<WasmFunctionBody>,
    pub data: Vec<WasmData>,
}

impl View for WasmModule {
    type V = WasmModuleSpec;

    open spec fn view(&self) -> WasmModuleSpec {
        WasmModuleSpec {
            magic: self.magic@,
            version: self.version,
            customs: views(self.customs@),
            types: views(self.types@),
            imports: views(self.imports@),
            functions: self.functions@,
            tables: self.tables@,
            memories: self.memories@,
            exports: views(self.exports@),
            start_function: self.start_function,
            elements: views(self.elements@),
            codes: views(self.codes@),
            data: views(self.data@),
        }
    }
}

} // verus!
