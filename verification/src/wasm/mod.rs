//! The binary decoder: from the bytes of a module to its sections.

pub mod error;
pub mod instruction;
pub mod module;
pub mod parse;

pub use error::WasmParseError;
pub use instruction::WasmInstruction;
pub use module::{
    WasmCustom, WasmData, WasmElement, WasmExport, WasmExportDescriptor, WasmFunc,
    WasmFunctionBody, WasmImport, WasmImportDescriptor, WasmMemory, WasmModule,
    WasmResizableLimit, WasmTable, WasmValue, WasmValueType,
};
