//! The errors of the decoder.

use crate::text::{decimal, decimal_string, prefixed};
use vstd::prelude::*;

verus! {

/// Why a binary was refused.
#[derive(Debug, Clone, Copy, PartialEq, Eq, Structural)]
pub enum WasmParseError {
    InvalidMagicNumber,
    UnsupportedVersion(u32),
    UnexpectedEndOfFile,
    InvalidLEB128Encoding,
    InvalidSectionCode(u8),
    OutOfBounds,
    InvalidValueType(u8),
    InvalidImportDescriptor(u8),
    InvalidExportDescriptor(u8),
    InvalidOpcode(u8),
}

impl WasmParseError {
    pub open spec fn text(self) -> Seq<char> {
        match self {
            WasmParseError::InvalidMagicNumber => "Invalid magic number"@,
            WasmParseError::UnsupportedVersion(version) => "Unsupported version: "@ + decimal(
                version as nat,
            ),
            WasmParseError::UnexpectedEndOfFile => "Unexpected end of file"@,
            WasmParseError::OutOfBounds => "Index out of bounds"@,
            WasmParseError::InvalidLEB128Encoding => "Invalid encoding"@,
            WasmParseError::InvalidSectionCode(code) => "Invalid section code "@ + decimal(
                code as nat,
            ),
            WasmParseError::InvalidValueType(value_type) => "Invalid value types: "@ + decimal(
                value_type as nat,
            ),
            WasmParseError::InvalidImportDescriptor(descriptor) => "Invalid import descriptor: "@
                + decimal(descriptor as nat),
            WasmParseError::InvalidExportDescriptor(descriptor) => "Invalid export descriptor: "@
                + decimal(descriptor as nat),
            WasmParseError::InvalidOpcode(opcode) => "Invalid opcode: "@ + decimal(opcode as nat),
        }
    }

    /// The message this error is reported with.
    pub fn to_string(&self) -> (r: String)
        ensures
            r@ == self.text(),
    {
        match self {
            WasmParseError::InvalidMagicNumber => "Invalid magic number".to_owned(),
            WasmParseError::UnsupportedVersion(version) => prefixed(
                "Unsupported version: ",
                decimal_string(*version as u64).as_str(),
            ),
            WasmParseError::UnexpectedEndOfFile => "Unexpected end of file".to_owned(),
            WasmParseError::OutOfBounds => "Index out of bounds".to_owned(),
            WasmParseError::InvalidLEB128Encoding => "Invalid encoding".to_owned(),
            WasmParseError::InvalidSectionCode(code) => prefixed(
                "Invalid section code ",
                decimal_string(*code as u64).as_str(),
            ),
            WasmParseError::InvalidValueType(value_type) => prefixed(
                "Invalid value types: ",
                decimal_string(*value_type as u64).as_str(),
            ),
            WasmParseError::InvalidImportDescriptor(descriptor) => prefixed(
                "Invalid import descriptor: ",
                decimal_string(*descriptor as u64).as_str(),
            ),
            WasmParseError::InvalidExportDescriptor(descriptor) => prefixed(
                "Invalid export descriptor: ",
                decimal_string(*descriptor as u64).as_str(),
            ),
            WasmParseError::InvalidOpcode(opcode) => prefixed(
                "Invalid opcode: ",
                decimal_string(*opcode as u64).as_str(),
            ),
        }
    }
}

} // verus!
