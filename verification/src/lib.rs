//! An embeddable WebAssembly runtime: a binary decoder, a lowering stage and
//! a stack-machine interpreter for the integer core of WebAssembly.

pub mod bytes;
pub mod compile;
pub mod env;
pub mod instruction;
pub mod leb128;
pub mod module;
pub mod numeric;
pub mod process;
pub mod processor;
pub mod reader;
pub mod semantics;
pub mod stack;
pub mod store;
pub mod text;
pub mod trap;
pub mod typing;
pub mod value;
pub mod wasm;
pub mod wasm_source;
pub mod wat_source;
pub mod wat_text;
