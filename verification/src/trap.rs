//! The reasons for which an execution stops.

use crate::instruction::Instruction;
use crate::module::{FunctionAddress, MemoryAddress};
use crate::text::{decimal, decimal_string, prefixed};
use crate::value::ValueType;
use vstd::prelude::*;

verus! {

/// An abrupt end of an execution, with its reason.
#[derive(Debug, Clone, PartialEq)]
pub enum Trap {
    DivisionByZero(TrapDivisionByZero),
    NotFound(TrapNotFound),
    NotImplemented(TrapNotImplemented),
    OutOfBounds(TrapOutOfBounds),
    Overflow(TrapOverflow),
    Type(TrapType),
    Underflow(TrapUnderflow),
}

#[derive(Debug, Clone, Copy, PartialEq, Eq, Structural)]
pub enum TrapDivisionByZero {
    Integer,
}

#[derive(Debug, Clone, PartialEq)]
pub enum TrapNotFound {
    ExportedFunction(String),
    Function(String),
    FunctionLocal(FunctionAddress),
    Memory(MemoryAddress),
    Module(String),
    ReturnValue,
}

#[derive(Debug, Clone, Copy, PartialEq, Eq, Structural)]
pub enum TrapNotImplemented {
    Instruction(Instruction),
}

/// An access past the end of a linear memory.
#[derive(Debug, Clone, Copy, PartialEq, Eq, Structural)]
pub enum TrapOutOfBounds {
    Memory,
}

#[derive(Debug, Clone, Copy, PartialEq, Eq, Structural)]
pub enum TrapOverflow {
    Integer,
    Stack,
}

/// A value of one type where another was expected: first the expected type,
/// then the one found.
#[derive(Debug, Clone, Copy, PartialEq, Eq, Structural)]
pub enum TrapType {
    Mismatch(ValueType, ValueType),
}

#[derive(Debug, Clone, Copy, PartialEq, Eq, Structural)]
pub enum TrapUnderflow {
    Stack,
}

impl TrapDivisionByZero {
    pub open spec fn text(self) -> Seq<char> {
        "integer divide by zero"@
    }

    pub fn to_string(&self) -> (r: String)
        ensures
            r@ == self.text(),
    {
        "integer divide by zero".to_owned()
    }
}

impl TrapNotFound {
    pub open spec fn text(self) -> Seq<char> {
        match self {
            TrapNotFound::ExportedFunction(name) => "Exported function not found: "@ + name@,
            TrapNotFound::Function(name) => "Function not found: "@ + name@,
            TrapNotFound::FunctionLocal(addr) => "Function not found: "@ + decimal(addr as nat),
            TrapNotFound::Memory(addr) => "Memory not found: "@ + decimal(addr as nat),
            TrapNotFound::Module(name) => "Module not found: "@ + name@,
            TrapNotFound::ReturnValue => "Return value not found"@,
        }
    }

    pub fn to_string(&self) -> (r: String)
        ensures
            r@ == self.text(),
    {
        match self {
            TrapNotFound::ExportedFunction(name) => prefixed(
                "Exported function not found: ",
                name.as_str(),
            ),
            TrapNotFound::Function(name) => prefixed("Function not found: ", name.as_str()),
            TrapNotFound::FunctionLocal(addr) => prefixed(
                "Function not found: ",
                decimal_string(*addr as u64).as_str(),
            ),
            TrapNotFound::Memory(addr) => prefixed(
                "Memory not found: ",
                decimal_string(*addr as u64).as_str(),
            ),
            TrapNotFound::Module(name) => prefixed("Module not found: ", name.as_str()),
            TrapNotFound::ReturnValue => "Return value not found".to_owned(),
        }
    }
}

impl TrapNotImplemented {
    pub open spec fn text(self) -> Seq<char> {
        "instruction not implemented"@
    }

    pub fn to_string(&self) -> (r: String)
        ensures
            r@ == self.text(),
    {
        "instruction not implemented".to_owned()
    }
}

impl TrapOutOfBounds {
    pub open spec fn text(self) -> Seq<char> {
        "out of bounds memory access"@
    }

    pub fn to_string(&self) -> (r: String)
        ensures
            r@ == self.text(),
    {
        "out of bounds memory access".to_owned()
    }
}

impl TrapOverflow {
    pub open spec fn text(self) -> Seq<char> {
        match self {
            TrapOverflow::Integer => "integer overflow"@,
            TrapOverflow::Stack => "stack overflow"@,
        }
    }

    pub fn to_string(&self) -> (r: String)
        ensures
            r@ == self.text(),
    {
        match self {
            TrapOverflow::Integer => "integer overflow".to_owned(),
            TrapOverflow::Stack => "stack overflow".to_owned(),
        }
    }
}

impl TrapType {
    pub open spec fn text(self) -> Seq<char> {
        match self {
            TrapType::Mismatch(expected, got) => "expected type "@ + expected.name() + ", got "@
                + got.name(),
        }
    }

    pub fn to_string(&self) -> (r: String)
        ensures
            r@ == self.text(),
    {
        match self {
            TrapType::Mismatch(expected, got) => {
                let head = prefixed("expected type ", expected.to_str());
                let middle = prefixed(head.as_str(), ", got ");
                prefixed(middle.as_str(), got.to_str())
            },
        }
    }
}

impl TrapUnderflow {
    pub open spec fn text(self) -> Seq<char> {
        "stack underflow"@
    }

    pub fn to_string(&self) -> (r: String)
        ensures
            r@ == self.text(),
    {
        "stack underflow".to_owned()
    }
}

impl Trap {
    /// Whether this trap says that no export is named `name`.
    pub open spec fn is_missing_export(self, name: Seq<char>) -> bool {
        self matches Trap::NotFound(TrapNotFound::ExportedFunction(n)) && n@ == name
    }

    pub open spec fn text(self) -> Seq<char> {
        match self {
            Trap::DivisionByZero(t) => t.text(),
            Trap::NotFound(t) => t.text(),
            Trap::NotImplemented(t) => t.text(),
            Trap::OutOfBounds(t) => t.text(),
            Trap::Overflow(t) => t.text(),
            Trap::Type(t) => t.text(),
            Trap::Underflow(t) => t.text(),
        }
    }

    /// The message this trap is reported with.
    pub fn to_string(&self) -> (r: String)
        ensures
            r@ == self.text(),
    {
        match self {
            Trap::DivisionByZero(t) => t.to_string(),
            Trap::NotFound(t) => t.to_string(),
            Trap::NotImplemented(t) => t.to_string(),
            Trap::OutOfBounds(t) => t.to_string(),
            Trap::Overflow(t) => t.to_string(),
            Trap::Type(t) => t.to_string(),
            Trap::Underflow(t) => t.to_string(),
        }
    }
}

} // verus!
