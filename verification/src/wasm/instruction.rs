//! The instructions as the binary format has them, and their decoding.

use crate::instruction::Instruction;
use crate::leb128::{lemma_signed64_used, lemma_signed_used, lemma_unsigned_used};
use crate::reader::{byte_at, leb_i32_at, leb_i64_at, leb_u32_at, u32_at, u64_at, ByteReader, Parsed};
use crate::wasm::error::WasmParseError;
use vstd::prelude::*;

verus! {

/// An instruction as it is decoded. A floating-point constant is kept as
/// the bits of its encoding.
#[derive(Debug, Clone, Copy, PartialEq, Eq, Structural)]
pub enum WasmInstruction {
    Unreachable,
    Block(u32),
    Loop(u32),
    Else(u32),
    End,
    Br(u32),
    BrIf(u32),
    BrTable(u32, u32),
    Call(u32),
    CallIndirect(u32, u32),
    Drop,
    LocalGet(u32),
    LocalSet(u32),
    LocalTee(u32),
    GlobalGet(u32),
    GlobalSet(u32),
    I32Store { flag: u32, offset: u32 },
    I64Store { flag: u32, offset: u32 },
    F32Store { flag: u32, offset: u32 },
    F64Store { flag: u32, offset: u32 },
    MemorySize(u32),
    MemoryGrow(u32),
    I32Const(i32),
    I64Const(i64),
    F32Const(u32),
    F64Const(u64),
    I32Eqz,
    I32Eq,
    I32Ne,
    I32LtS,
    I32LtU,
    I32GtS,
    I32GtU,
    I32LeS,
    I32LeU,
    I32GeS,
    I32GeU,
    I64Eqz,
    I64Eq,
    I64Ne,
    I64LtS,
    I64LtU,
    I64GtS,
    I64GtU,
    I64LeS,
    I64LeU,
    I64GeS,
    I64GeU,
    F32Eq,
    F32Ne,
    F32Lt,
    F32Gt,
    F32Le,
    F32Ge,
    F64Eq,
    F64Ne,
    F64Lt,
    F64Gt,
    F64Le,
    F64Ge,
    I32Clz,
    I32Ctz,
    I32Popcnt,
    I32Add,
    I32Sub,
    I32Mul,
    I32DivS,
    I32DivU,
    I32RemS,
    I32RemU,
    I32And,
    I32Or,
    I32Xor,
    I32Shl,
    I32ShrS,
    I32ShrU,
    I32Rotl,
    I32Rotr,
    I64Clz,
    I64Ctz,
    I64Popcnt,
    I64Add,
    I64Sub,
    I64Mul,
    I64DivS,
    I64DivU,
    I64RemS,
    I64RemU,
    I64And,
    I64Or,
    I64Xor,
    I64Shl,
    I64ShrS,
    I64ShrU,
    I64Rotl,
    I64Rotr,
    F32Abs,
    F32Neg,
    F32Ceil,
    F32Floor,
    F32Sqrt,
    F32Add,
    F32Sub,
    F32Mul,
    F32Copysign,
    F64Abs,
    F64Neg,
    F64Ceil,
    F64Floor,
    F64Sqrt,
    F64Add,
    F64Sub,
    F64Mul,
    F64Copysign,
    I32WrapI64,
    F64PromoteF32,
    I32ReinterpretF32,
    I64ReinterpretF64,
    F32ReinterpretI32,
    F64ReinterpretI64,
    I32Extend8S,
    I32Extend16S,
    I64Extend8S,
    I64Extend16S,
    I64Extend32S,
    RefNull(u32),
    RefIsNull,
    RefFunc(u32),
}

impl WasmInstruction {
    /// The instruction of the executable form that stands for this one.
    pub open spec fn lowered(self) -> Instruction {
        match self {
            WasmInstruction::Unreachable => Instruction::Unreachable,
            WasmInstruction::Block(a) => Instruction::Block(a),
            WasmInstruction::Loop(a) => Instruction::Loop(a),
            WasmInstruction::Else(a) => Instruction::Else(a),
            WasmInstruction::End => Instruction::End,
            WasmInstruction::Br(a) => Instruction::Br(a),
            WasmInstruction::BrIf(a) => Instruction::BrIf(a),
            WasmInstruction::BrTable(a, b) => Instruction::BrTable(a, b),
            WasmInstruction::Call(a) => Instruction::Call(a),
            WasmInstruction::CallIndirect(a, b) => Instruction::CallIndirect(a, b),
            WasmInstruction::Drop => Instruction::Drop32,
            WasmInstruction::LocalGet(a) => Instruction::LocalGet32(a),
            WasmInstruction::LocalSet(a) => Instruction::LocalSet32(a),
            WasmInstruction::LocalTee(a) => Instruction::LocalTee32(a),
            WasmInstruction::GlobalGet(a) => Instruction::GlobalGet(a),
            WasmInstruction::GlobalSet(a) => Instruction::GlobalSet32(a),
            WasmInstruction::I32Store { flag, offset } => Instruction::StoreI32 { flags: flag, offset },
            WasmInstruction::I64Store { flag, offset } => Instruction::StoreI64 { flags: flag, offset },
            WasmInstruction::F32Store { flag, offset } => Instruction::StoreF32 { flags: flag, offset },
            WasmInstruction::F64Store { flag, offset } => Instruction::StoreF64 { flags: flag, offset },
            WasmInstruction::MemorySize(a) => Instruction::MemorySize(a),
            WasmInstruction::MemoryGrow(a) => Instruction::MemoryGrow(a),
            WasmInstruction::I32Const(a) => Instruction::ConstI32(a),
            WasmInstruction::I64Const(a) => Instruction::ConstI64(a),
            WasmInstruction::F32Const(a) => Instruction::ConstF32(a),
            WasmInstruction::F64Const(a) => Instruction::ConstF64(a),
            WasmInstruction::I32Eqz => Instruction::EqzI32,
            WasmInstruction::I32Eq => Instruction::EqI32,
            WasmInstruction::I32Ne => Instruction::NeI32,
            WasmInstruction::I32LtS => Instruction::LtSI32,
            WasmInstruction::I32LtU => Instruction::LtUI32,
            WasmInstruction::I32GtS => Instruction::GtSI32,
            WasmInstruction::I32GtU => Instruction::GtUI32,
            WasmInstruction::I32LeS => Instruction::LeSI32,
            WasmInstruction::I32LeU => Instruction::LeUI32,
            WasmInstruction::I32GeS => Instruction::GeSI32,
            WasmInstruction::I32GeU => Instruction::GeUI32,
            WasmInstruction::I64Eqz => Instruction::EqzI64,
            WasmInstruction::I64Eq => Instruction::EqI64,
            WasmInstruction::I64Ne => Instruction::NeI64,
            WasmInstruction::I64LtS => Instruction::LtSI64,
            WasmInstruction::I64LtU => Instruction::LtUI64,
            WasmInstruction::I64GtS => Instruction::GtSI64,
            WasmInstruction::I64GtU => Instruction::GtUI64,
            WasmInstruction::I64LeS => Instruction::LeSI64,
            WasmInstruction::I64LeU => Instruction::LeUI64,
            WasmInstruction::I64GeS => Instruction::GeSI64,
            WasmInstruction::I64GeU => Instruction::GeUI64,
            WasmInstruction::F32Eq => Instruction::EqF32,
            WasmInstruction::F32Ne => Instruction::NeF32,
            WasmInstruction::F32Lt => Instruction::LtF32,
            WasmInstruction::F32Gt => Instruction::GtF32,
            WasmInstruction::F32Le => Instruction::LeF32,
            WasmInstruction::F32Ge => Instruction::GeF32,
            WasmInstruction::F64Eq => Instruction::EqF64,
            WasmInstruction::F64Ne => Instruction::NeF64,
            WasmInstruction::F64Lt => Instruction::LtF64,
            WasmInstruction::F64Gt => Instruction::GtF64,
            WasmInstruction::F64Le => Instruction::LeF64,
            WasmInstruction::F64Ge => Instruction::GeF64,
            WasmInstruction::I32Clz => Instruction::ClzI32,
            WasmInstruction::I32Ctz => Instruction::CtzI32,
            WasmInstruction::I32Popcnt => Instruction::PopcntI32,
            WasmInstruction::I32Add => Instruction::AddI32,
            WasmInstruction::I32Sub => Instruction::SubI32,
            WasmInstruction::I32Mul => Instruction::MulI32,
            WasmInstruction::I32DivS => Instruction::DivSI32,
            WasmInstruction::I32DivU => Instruction::DivUI32,
            WasmInstruction::I32RemS => Instruction::RemSI32,
            WasmInstruction::I32RemU => Instruction::RemUI32,
            WasmInstruction::I32And => Instruction::AndI32,
            WasmInstruction::I32Or => Instruction::OrI32,
            WasmInstruction::I32Xor => Instruction::XorI32,
            WasmInstruction::I32Shl => Instruction::ShlI32,
            WasmInstruction::I32ShrS => Instruction::ShrSI32,
            WasmInstruction::I32ShrU => Instruction::ShrUI32,
            WasmInstruction::I32Rotl => Instruction::RotlI32,
            WasmInstruction::I32Rotr => Instruction::RotrI32,
            WasmInstruction::I64Clz => Instruction::ClzI64,
            WasmInstruction::I64Ctz => Instruction::CtzI64,
            WasmInstruction::I64Popcnt => Instruction::PopcntI64,
            WasmInstruction::I64Add => Instruction::AddI64,
            WasmInstruction::I64Sub => Instruction::SubI64,
            WasmInstruction::I64Mul => Instruction::MulI64,
            WasmInstruction::I64DivS => Instruction::DivSI64,
            WasmInstruction::I64DivU => Instruction::DivUI64,
            WasmInstruction::I64RemS => Instruction::RemSI64,
            WasmInstruction::I64RemU => Instruction::RemUI64,
            WasmInstruction::I64And => Instruction::AndI64,
            WasmInstruction::I64Or => Instruction::OrI64,
            WasmInstruction::I64Xor => Instruction::XorI64,
            WasmInstruction::I64Shl => Instruction::ShlI64,
            WasmInstruction::I64ShrS => Instruction::ShrSI64,
            WasmInstruction::I64ShrU => Instruction::ShrUI64,
            WasmInstruction::I64Rotl => Instruction::RotlI64,
            WasmInstruction::I64Rotr => Instruction::RotrI64,
            WasmInstruction::F32Abs => Instruction::AbsF32,
            WasmInstruction::F32Neg => Instruction::NegF32,
            WasmInstruction::F32Ceil => Instruction::CeilF32,
            WasmInstruction::F32Floor => Instruction::FloorF32,
            WasmInstruction::F32Sqrt => Instruction::SqrtF32,
            WasmInstruction::F32Add => Instruction::AddF32,
            WasmInstruction::F32Sub => Instruction::SubF32,
            WasmInstruction::F32Mul => Instruction::MulF32,
            WasmInstruction::F32Copysign => Instruction::CopysignF32,
            WasmInstruction::F64Abs => Instruction::AbsF64,
            WasmInstruction::F64Neg => Instruction::NegF64,
            WasmInstruction::F64Ceil => Instruction::CeilF64,
            WasmInstruction::F64Floor => Instruction::FloorF64,
            WasmInstruction::F64Sqrt => Instruction::SqrtF64,
            WasmInstruction::F64Add => Instruction::AddF64,
            WasmInstruction::F64Sub => Instruction::SubF64,
            WasmInstruction::F64Mul => Instruction::MulF64,
            WasmInstruction::F64Copysign => Instruction::CopysignF64,
            WasmInstruction::I32WrapI64 => Instruction::WrapI32I64,
            WasmInstruction::F64PromoteF32 => Instruction::PromoteF32F64,
            WasmInstruction::I32ReinterpretF32 => Instruction::ReinterpretF32I32,
            WasmInstruction::I64ReinterpretF64 => Instruction::ReinterpretF64I64,
            WasmInstruction::F32ReinterpretI32 => Instruction::ReinterpretI32F32,
            WasmInstruction::F64ReinterpretI64 => Instruction::ReinterpretI64F64,
            WasmInstruction::I32Extend8S => Instruction::Extend8SI32,
            WasmInstruction::I32Extend16S => Instruction::Extend16SI32,
            WasmInstruction::I64Extend8S => Instruction::Extend8SI64,
            WasmInstruction::I64Extend16S => Instruction::Extend16SI64,
            WasmInstruction::I64Extend32S => Instruction::Extend32SI64,
            WasmInstruction::RefNull(a) => Instruction::RefNull(a),
            WasmInstruction::RefIsNull => Instruction::RefIsNull,
            WasmInstruction::RefFunc(a) => Instruction::RefFunc(a),
        }
    }

    /// The instruction of the executable form that stands for this one.
    pub fn lower(&self) -> (r: Instruction)
        ensures
            r == self.lowered(),
    {
        match *self {
            WasmInstruction::Unreachable => Instruction::Unreachable,
            WasmInstruction::Block(a) => Instruction::Block(a),
            WasmInstruction::Loop(a) => Instruction::Loop(a),
            WasmInstruction::Else(a) => Instruction::Else(a),
            WasmInstruction::End => Instruction::End,
            WasmInstruction::Br(a) => Instruction::Br(a),
            WasmInstruction::BrIf(a) => Instruction::BrIf(a),
            WasmInstruction::BrTable(a, b) => Instruction::BrTable(a, b),
            WasmInstruction::Call(a) => Instruction::Call(a),
            WasmInstruction::CallIndirect(a, b) => Instruction::CallIndirect(a, b),
            WasmInstruction::Drop => Instruction::Drop32,
            WasmInstruction::LocalGet(a) => Instruction::LocalGet32(a),
            WasmInstruction::LocalSet(a) => Instruction::LocalSet32(a),
            WasmInstruction::LocalTee(a) => Instruction::LocalTee32(a),
            WasmInstruction::GlobalGet(a) => Instruction::GlobalGet(a),
            WasmInstruction::GlobalSet(a) => Instruction::GlobalSet32(a),
            WasmInstruction::I32Store { flag, offset } => Instruction::StoreI32 { flags: flag, offset },
            WasmInstruction::I64Store { flag, offset } => Instruction::StoreI64 { flags: flag, offset },
            WasmInstruction::F32Store { flag, offset } => Instruction::StoreF32 { flags: flag, offset },
            WasmInstruction::F64Store { flag, offset } => Instruction::StoreF64 { flags: flag, offset },
            WasmInstruction::MemorySize(a) => Instruction::MemorySize(a),
            WasmInstruction::MemoryGrow(a) => Instruction::MemoryGrow(a),
            WasmInstruction::I32Const(a) => Instruction::ConstI32(a),
            WasmInstruction::I64Const(a) => Instruction::ConstI64(a),
            WasmInstruction::F32Const(a) => Instruction::ConstF32(a),
            WasmInstruction::F64Const(a) => Instruction::ConstF64(a),
            WasmInstruction::I32Eqz => Instruction::EqzI32,
            WasmInstruction::I32Eq => Instruction::EqI32,
            WasmInstruction::I32Ne => Instruction::NeI32,
            WasmInstruction::I32LtS => Instruction::LtSI32,
            WasmInstruction::I32LtU => Instruction::LtUI32,
            WasmInstruction::I32GtS => Instruction::GtSI32,
            WasmInstruction::I32GtU => Instruction::GtUI32,
            WasmInstruction::I32LeS => Instruction::LeSI32,
            WasmInstruction::I32LeU => Instruction::LeUI32,
            WasmInstruction::I32GeS => Instruction::GeSI32,
            WasmInstruction::I32GeU => Instruction::GeUI32,
            WasmInstruction::I64Eqz => Instruction::EqzI64,
            WasmInstruction::I64Eq => Instruction::EqI64,
            WasmInstruction::I64Ne => Instruction::NeI64,
            WasmInstruction::I64LtS => Instruction::LtSI64,
            WasmInstruction::I64LtU => Instruction::LtUI64,
            WasmInstruction::I64GtS => Instruction::GtSI64,
            WasmInstruction::I64GtU => Instruction::GtUI64,
            WasmInstruction::I64LeS => Instruction::LeSI64,
            WasmInstruction::I64LeU => Instruction::LeUI64,
            WasmInstruction::I64GeS => Instruction::GeSI64,
            WasmInstruction::I64GeU => Instruction::GeUI64,
            WasmInstruction::F32Eq => Instruction::EqF32,
            WasmInstruction::F32Ne => Instruction::NeF32,
            WasmInstruction::F32Lt => Instruction::LtF32,
            WasmInstruction::F32Gt => Instruction::GtF32,
            WasmInstruction::F32Le => Instruction::LeF32,
            WasmInstruction::F32Ge => Instruction::GeF32,
            WasmInstruction::F64Eq => Instruction::EqF64,
            WasmInstruction::F64Ne => Instruction::NeF64,
            WasmInstruction::F64Lt => Instruction::LtF64,
            WasmInstruction::F64Gt => Instruction::GtF64,
            WasmInstruction::F64Le => Instruction::LeF64,
            WasmInstruction::F64Ge => Instruction::GeF64,
            WasmInstruction::I32Clz => Instruction::ClzI32,
            WasmInstruction::I32Ctz => Instruction::CtzI32,
            WasmInstruction::I32Popcnt => Instruction::PopcntI32,
            WasmInstruction::I32Add => Instruction::AddI32,
            WasmInstruction::I32Sub => Instruction::SubI32,
            WasmInstruction::I32Mul => Instruction::MulI32,
            WasmInstruction::I32DivS => Instruction::DivSI32,
            WasmInstruction::I32DivU => Instruction::DivUI32,
            WasmInstruction::I32RemS => Instruction::RemSI32,
            WasmInstruction::I32RemU => Instruction::RemUI32,
            WasmInstruction::I32And => Instruction::AndI32,
            WasmInstruction::I32Or => Instruction::OrI32,
            WasmInstruction::I32Xor => Instruction::XorI32,
            WasmInstruction::I32Shl => Instruction::ShlI32,
            WasmInstruction::I32ShrS => Instruction::ShrSI32,
            WasmInstruction::I32ShrU => Instruction::ShrUI32,
            WasmInstruction::I32Rotl => Instruction::RotlI32,
            WasmInstruction::I32Rotr => Instruction::RotrI32,
            WasmInstruction::I64Clz => Instruction::ClzI64,
            WasmInstruction::I64Ctz => Instruction::CtzI64,
            WasmInstruction::I64Popcnt => Instruction::PopcntI64,
            WasmInstruction::I64Add => Instruction::AddI64,
            WasmInstruction::I64Sub => Instruction::SubI64,
            WasmInstruction::I64Mul => Instruction::MulI64,
            WasmInstruction::I64DivS => Instruction::DivSI64,
            WasmInstruction::I64DivU => Instruction::DivUI64,
            WasmInstruction::I64RemS => Instruction::RemSI64,
            WasmInstruction::I64RemU => Instruction::RemUI64,
            WasmInstruction::I64And => Instruction::AndI64,
            WasmInstruction::I64Or => Instruction::OrI64,
            WasmInstruction::I64Xor => Instruction::XorI64,
            WasmInstruction::I64Shl => Instruction::ShlI64,
            WasmInstruction::I64ShrS => Instruction::ShrSI64,
            WasmInstruction::I64ShrU => Instruction::ShrUI64,
            WasmInstruction::I64Rotl => Instruction::RotlI64,
            WasmInstruction::I64Rotr => Instruction::RotrI64,
            WasmInstruction::F32Abs => Instruction::AbsF32,
            WasmInstruction::F32Neg => Instruction::NegF32,
            WasmInstruction::F32Ceil => Instruction::CeilF32,
            WasmInstruction::F32Floor => Instruction::FloorF32,
            WasmInstruction::F32Sqrt => Instruction::SqrtF32,
            WasmInstruction::F32Add => Instruction::AddF32,
            WasmInstruction::F32Sub => Instruction::SubF32,
            WasmInstruction::F32Mul => Instruction::MulF32,
            WasmInstruction::F32Copysign => Instruction::CopysignF32,
            WasmInstruction::F64Abs => Instruction::AbsF64,
            WasmInstruction::F64Neg => Instruction::NegF64,
            WasmInstruction::F64Ceil => Instruction::CeilF64,
            WasmInstruction::F64Floor => Instruction::FloorF64,
            WasmInstruction::F64Sqrt => Instruction::SqrtF64,
            WasmInstruction::F64Add => Instruction::AddF64,
            WasmInstruction::F64Sub => Instruction::SubF64,
            WasmInstruction::F64Mul => Instruction::MulF64,
            WasmInstruction::F64Copysign => Instruction::CopysignF64,
            WasmInstruction::I32WrapI64 => Instruction::WrapI32I64,
            WasmInstruction::F64PromoteF32 => Instruction::PromoteF32F64,
            WasmInstruction::I32ReinterpretF32 => Instruction::ReinterpretF32I32,
            WasmInstruction::I64ReinterpretF64 => Instruction::ReinterpretF64I64,
            WasmInstruction::F32ReinterpretI32 => Instruction::ReinterpretI32F32,
            WasmInstruction::F64ReinterpretI64 => Instruction::ReinterpretI64F64,
            WasmInstruction::I32Extend8S => Instruction::Extend8SI32,
            WasmInstruction::I32Extend16S => Instruction::Extend16SI32,
            WasmInstruction::I64Extend8S => Instruction::Extend8SI64,
            WasmInstruction::I64Extend16S => Instruction::Extend16SI64,
            WasmInstruction::I64Extend32S => Instruction::Extend32SI64,
            WasmInstruction::RefNull(a) => Instruction::RefNull(a),
            WasmInstruction::RefIsNull => Instruction::RefIsNull,
            WasmInstruction::RefFunc(a) => Instruction::RefFunc(a),
        }
    }
}

/// An instruction with one index as its operand, read at `pos`.
pub open spec fn with_index(bytes: Seq<u8>, pos: int, make: spec_fn(u32) -> WasmInstruction) -> Parsed<
    WasmInstruction,
> {
    match leb_u32_at(bytes, pos) {
        Ok((a, after)) => Ok((make(a), after)),
        Err(e) => Err(e),
    }
}

/// An instruction with two unsigned operands, read at `pos`.
pub open spec fn with_pair(bytes: Seq<u8>, pos: int, make: spec_fn(u32, u32) -> WasmInstruction) -> Parsed<
    WasmInstruction,
> {
    match leb_u32_at(bytes, pos) {
        Ok((a, middle)) => match leb_u32_at(bytes, middle) {
            Ok((b, after)) => Ok((make(a, b), after)),
            Err(e) => Err(e),
        },
        Err(e) => Err(e),
    }
}

/// The instruction at `pos`: one byte of opcode, then the operands that the
/// opcode asks for. A byte that is no opcode of the table is refused.
#[verifier::opaque]
pub open spec fn instruction_at(bytes: Seq<u8>, pos: int) -> Parsed<WasmInstruction> {
    match byte_at(bytes, pos) {
        Err(e) => Err(e),
        Ok((op, next)) => match op {
            0x00 => Ok((WasmInstruction::Unreachable, next)),
            0x02 => with_index(bytes, next, |a: u32| WasmInstruction::Block(a)),
            0x03 => with_index(bytes, next, |a: u32| WasmInstruction::Loop(a)),
            0x05 => with_index(bytes, next, |a: u32| WasmInstruction::Else(a)),
            0x0B => Ok((WasmInstruction::End, next)),
            0x0C => with_index(bytes, next, |a: u32| WasmInstruction::Br(a)),
            0x0D => with_index(bytes, next, |a: u32| WasmInstruction::BrIf(a)),
            0x0E => with_pair(bytes, next, |a: u32, b: u32| WasmInstruction::BrTable(a, b)),
            0x10 => with_index(bytes, next, |a: u32| WasmInstruction::Call(a)),
            0x11 => with_pair(bytes, next, |a: u32, b: u32| WasmInstruction::CallIndirect(a, b)),
            0x1A => Ok((WasmInstruction::Drop, next)),
            0x20 => with_index(bytes, next, |a: u32| WasmInstruction::LocalGet(a)),
            0x21 => with_index(bytes, next, |a: u32| WasmInstruction::LocalSet(a)),
            0x22 => with_index(bytes, next, |a: u32| WasmInstruction::LocalTee(a)),
            0x23 => with_index(bytes, next, |a: u32| WasmInstruction::GlobalGet(a)),
            0x24 => with_index(bytes, next, |a: u32| WasmInstruction::GlobalSet(a)),
            0x36 => with_pair(bytes, next, |a: u32, b: u32| WasmInstruction::I32Store { flag: a, offset: b }),
            0x37 => with_pair(bytes, next, |a: u32, b: u32| WasmInstruction::I64Store { flag: a, offset: b }),
            0x38 => with_pair(bytes, next, |a: u32, b: u32| WasmInstruction::F32Store { flag: a, offset: b }),
            0x39 => with_pair(bytes, next, |a: u32, b: u32| WasmInstruction::F64Store { flag: a, offset: b }),
            0x3F => with_index(bytes, next, |a: u32| WasmInstruction::MemorySize(a)),
            0x40 => with_index(bytes, next, |a: u32| WasmInstruction::MemoryGrow(a)),
            0x41 => match leb_i32_at(bytes, next) {
                Ok((value, after)) => Ok((WasmInstruction::I32Const(value), after)),
                Err(e) => Err(e),
            },
            0x42 => match leb_i64_at(bytes, next) {
                Ok((value, after)) => Ok((WasmInstruction::I64Const(value), after)),
                Err(e) => Err(e),
            },
            0x43 => match u32_at(bytes, next) {
                Ok((bits, after)) => Ok((WasmInstruction::F32Const(bits), after)),
                Err(e) => Err(e),
            },
            0x44 => match u64_at(bytes, next) {
                Ok((bits, after)) => Ok((WasmInstruction::F64Const(bits), after)),
                Err(e) => Err(e),
            },
            0x45 => Ok((WasmInstruction::I32Eqz, next)),
            0x46 => Ok((WasmInstruction::I32Eq, next)),
            0x47 => Ok((WasmInstruction::I32Ne, next)),
            0x48 => Ok((WasmInstruction::I32LtS, next)),
            0x49 => Ok((WasmInstruction::I32LtU, next)),
            0x4A => Ok((WasmInstruction::I32GtS, next)),
            0x4B => Ok((WasmInstruction::I32GtU, next)),
            0x4C => Ok((WasmInstruction::I32LeS, next)),
            0x4D => Ok((WasmInstruction::I32LeU, next)),
            0x4E => Ok((WasmInstruction::I32GeS, next)),
            0x4F => Ok((WasmInstruction::I32GeU, next)),
            0x50 => Ok((WasmInstruction::I64Eqz, next)),
            0x51 => Ok((WasmInstruction::I64Eq, next)),
            0x52 => Ok((WasmInstruction::I64Ne, next)),
            0x53 => Ok((WasmInstruction::I64LtS, next)),
            0x54 => Ok((WasmInstruction::I64LtU, next)),
            0x55 => Ok((WasmInstruction::I64GtS, next)),
            0x56 => Ok((WasmInstruction::I64GtU, next)),
            0x57 => Ok((WasmInstruction::I64LeS, next)),
            0x58 => Ok((WasmInstruction::I64LeU, next)),
            0x59 => Ok((WasmInstruction::I64GeS, next)),
            0x5A => Ok((WasmInstruction::I64GeU, next)),
            0x5B => Ok((WasmInstruction::F32Eq, next)),
            0x5C => Ok((WasmInstruction::F32Ne, next)),
            0x5D => Ok((WasmInstruction::F32Lt, next)),
            0x5E => Ok((WasmInstruction::F32Gt, next)),
            0x5F => Ok((WasmInstruction::F32Le, next)),
            0x60 => Ok((WasmInstruction::F32Ge, next)),
            0x61 => Ok((WasmInstruction::F64Eq, next)),
            0x62 => Ok((WasmInstruction::F64Ne, next)),
            0x63 => Ok((WasmInstruction::F64Lt, next)),
            0x64 => Ok((WasmInstruction::F64Gt, next)),
            0x65 => Ok((WasmInstruction::F64Le, next)),
            0x66 => Ok((WasmInstruction::F64Ge, next)),
            0x67 => Ok((WasmInstruction::I32Clz, next)),
            0x68 => Ok((WasmInstruction::I32Ctz, next)),
            0x69 => Ok((WasmInstruction::I32Popcnt, next)),
            0x6A => Ok((WasmInstruction::I32Add, next)),
            0x6B => Ok((WasmInstruction::I32Sub, next)),
            0x6C => Ok((WasmInstruction::I32Mul, next)),
            0x6D => Ok((WasmInstruction::I32DivS, next)),
            0x6E => Ok((WasmInstruction::I32DivU, next)),
            0x6F => Ok((WasmInstruction::I32RemS, next)),
            0x70 => Ok((WasmInstruction::I32RemU, next)),
            0x71 => Ok((WasmInstruction::I32And, next)),
            0x72 => Ok((WasmInstruction::I32Or, next)),
            0x73 => Ok((WasmInstruction::I32Xor, next)),
            0x74 => Ok((WasmInstruction::I32Shl, next)),
            0x75 => Ok((WasmInstruction::I32ShrS, next)),
            0x76 => Ok((WasmInstruction::I32ShrU, next)),
            0x77 => Ok((WasmInstruction::I32Rotl, next)),
            0x78 => Ok((WasmInstruction::I32Rotr, next)),
            0x79 => Ok((WasmInstruction::I64Clz, next)),
            0x7A => Ok((WasmInstruction::I64Ctz, next)),
            0x7B => Ok((WasmInstruction::I64Popcnt, next)),
            0x7C => Ok((WasmInstruction::I64Add, next)),
            0x7D => Ok((WasmInstruction::I64Sub, next)),
            0x7E => Ok((WasmInstruction::I64Mul, next)),
            0x7F => Ok((WasmInstruction::I64DivS, next)),
            0x80 => Ok((WasmInstruction::I64DivU, next)),
            0x81 => Ok((WasmInstruction::I64RemS, next)),
            0x82 => Ok((WasmInstruction::I64RemU, next)),
            0x83 => Ok((WasmInstruction::I64And, next)),
            0x84 => Ok((WasmInstruction::I64Or, next)),
            0x85 => Ok((WasmInstruction::I64Xor, next)),
            0x86 => Ok((WasmInstruction::I64Shl, next)),
            0x87 => Ok((WasmInstruction::I64ShrS, next)),
            0x88 => Ok((WasmInstruction::I64ShrU, next)),
            0x89 => Ok((WasmInstruction::I64Rotl, next)),
            0x8A => Ok((WasmInstruction::I64Rotr, next)),
            0x8B => Ok((WasmInstruction::F32Abs, next)),
            0x8C => Ok((WasmInstruction::F32Neg, next)),
            0x8D => Ok((WasmInstruction::F32Ceil, next)),
            0x8E => Ok((WasmInstruction::F32Floor, next)),
            0x91 => Ok((WasmInstruction::F32Sqrt, next)),
            0x92 => Ok((WasmInstruction::F32Add, next)),
            0x93 => Ok((WasmInstruction::F32Sub, next)),
            0x94 => Ok((WasmInstruction::F32Mul, next)),
            0x98 => Ok((WasmInstruction::F32Copysign, next)),
            0x99 => Ok((WasmInstruction::F64Abs, next)),
            0x9A => Ok((WasmInstruction::F64Neg, next)),
            0x9B => Ok((WasmInstruction::F64Ceil, next)),
            0x9C => Ok((WasmInstruction::F64Floor, next)),
            0x9F => Ok((WasmInstruction::F64Sqrt, next)),
            0xA0 => Ok((WasmInstruction::F64Add, next)),
            0xA1 => Ok((WasmInstruction::F64Sub, next)),
            0xA2 => Ok((WasmInstruction::F64Mul, next)),
            0xA6 => Ok((WasmInstruction::F64Copysign, next)),
            0xA7 => Ok((WasmInstruction::I32WrapI64, next)),
            0xBB => Ok((WasmInstruction::F64PromoteF32, next)),
            0xBC => Ok((WasmInstruction::I32ReinterpretF32, next)),
            0xBD => Ok((WasmInstruction::I64ReinterpretF64, next)),
            0xBE => Ok((WasmInstruction::F32ReinterpretI32, next)),
            0xBF => Ok((WasmInstruction::F64ReinterpretI64, next)),
            0xC0 => Ok((WasmInstruction::I32Extend8S, next)),
            0xC1 => Ok((WasmInstruction::I32Extend16S, next)),
            0xC2 => Ok((WasmInstruction::I64Extend8S, next)),
            0xC3 => Ok((WasmInstruction::I64Extend16S, next)),
            0xC4 => Ok((WasmInstruction::I64Extend32S, next)),
            0xD0 => with_index(bytes, next, |a: u32| WasmInstruction::RefNull(a)),
            0xD1 => Ok((WasmInstruction::RefIsNull, next)),
            0xD2 => with_index(bytes, next, |a: u32| WasmInstruction::RefFunc(a)),
            _ => Err(WasmParseError::InvalidOpcode(op)),
        },
    }
}

/// An unsigned integer that is read takes at least one byte.
proof fn lemma_index_advances(bytes: Seq<u8>, pos: int)
    ensures
        leb_u32_at(bytes, pos) matches Ok((_, after)) ==> after > pos,
{
    lemma_unsigned_used(bytes.subrange(pos, bytes.len() as int));
}

/// An instruction that is read takes at least one byte.
pub proof fn lemma_instruction_advances(bytes: Seq<u8>, pos: int)
    ensures
        instruction_at(bytes, pos) matches Ok((_, after)) ==> after > pos,
{
    reveal(instruction_at);
    let next = pos + 1;
    lemma_index_advances(bytes, next);
    match leb_u32_at(bytes, next) {
        Ok((_, middle)) => {
            lemma_index_advances(bytes, middle);
        },
        Err(_) => {},
    }
    lemma_signed_used(bytes.subrange(next, bytes.len() as int));
    lemma_signed64_used(bytes.subrange(next, bytes.len() as int));
}

/// Reads one instruction.
pub fn parse_instruction(reader: &mut ByteReader) -> (r: Result<WasmInstruction, WasmParseError>)
    ensures
        final(reader).bytes() == old(reader).bytes(),
        match r {
            Ok(inst) => instruction_at(old(reader).bytes(), old(reader).position()) == Ok::<
                (WasmInstruction, int),
                WasmParseError,
            >((inst, final(reader).position())),
            Err(e) => instruction_at(old(reader).bytes(), old(reader).position()) == Err::<
                (WasmInstruction, int),
                WasmParseError,
            >(e),
        },
{
    proof {
        reveal(instruction_at);
    }
    let op = reader.read_u8()?;
    match op {
        0x00 => Ok(WasmInstruction::Unreachable),
        0x02 => {
            let a = reader.read_leb128_u32()?;
            Ok(WasmInstruction::Block(a))
        },
        0x03 => {
            let a = reader.read_leb128_u32()?;
            Ok(WasmInstruction::Loop(a))
        },
        0x05 => {
            let a = reader.read_leb128_u32()?;
            Ok(WasmInstruction::Else(a))
        },
        0x0B => Ok(WasmInstruction::End),
        0x0C => {
            let a = reader.read_leb128_u32()?;
            Ok(WasmInstruction::Br(a))
        },
        0x0D => {
            let a = reader.read_leb128_u32()?;
            Ok(WasmInstruction::BrIf(a))
        },
        0x0E => {
            let a = reader.read_leb128_u32()?;
            let b = reader.read_leb128_u32()?;
            Ok(WasmInstruction::BrTable(a, b))
        },
        0x10 => {
            let a = reader.read_leb128_u32()?;
            Ok(WasmInstruction::Call(a))
        },
        0x11 => {
            let a = reader.read_leb128_u32()?;
            let b = reader.read_leb128_u32()?;
            Ok(WasmInstruction::CallIndirect(a, b))
        },
        0x1A => Ok(WasmInstruction::Drop),
        0x20 => {
            let a = reader.read_leb128_u32()?;
            Ok(WasmInstruction::LocalGet(a))
        },
        0x21 => {
            let a = reader.read_leb128_u32()?;
            Ok(WasmInstruction::LocalSet(a))
        },
        0x22 => {
            let a = reader.read_leb128_u32()?;
            Ok(WasmInstruction::LocalTee(a))
        },
        0x23 => {
            let a = reader.read_leb128_u32()?;
            Ok(WasmInstruction::GlobalGet(a))
        },
        0x24 => {
            let a = reader.read_leb128_u32()?;
            Ok(WasmInstruction::GlobalSet(a))
        },
        0x36 => {
            let flag = reader.read_leb128_u32()?;
            let offset = reader.read_leb128_u32()?;
            Ok(WasmInstruction::I32Store { flag, offset })
        },
        0x37 => {
            let flag = reader.read_leb128_u32()?;
            let offset = reader.read_leb128_u32()?;
            Ok(WasmInstruction::I64Store { flag, offset })
        },
        0x38 => {
            let flag = reader.read_leb128_u32()?;
            let offset = reader.read_leb128_u32()?;
            Ok(WasmInstruction::F32Store { flag, offset })
        },
        0x39 => {
            let flag = reader.read_leb128_u32()?;
            let offset = reader.read_leb128_u32()?;
            Ok(WasmInstruction::F64Store { flag, offset })
        },
        0x3F => {
            let a = reader.read_leb128_u32()?;
            Ok(WasmInstruction::MemorySize(a))
        },
        0x40 => {
            let a = reader.read_leb128_u32()?;
            Ok(WasmInstruction::MemoryGrow(a))
        },
        0x41 => {
            let value = reader.read_leb128_i32()?;
            Ok(WasmInstruction::I32Const(value))
        },
        0x42 => {
            let value = reader.read_leb128_i64()?;
            Ok(WasmInstruction::I64Const(value))
        },
        0x43 => {
            let value = reader.read_u32()?;
            Ok(WasmInstruction::F32Const(value))
        },
        0x44 => {
            let value = reader.read_u64()?;
            Ok(WasmInstruction::F64Const(value))
        },
        0x45 => Ok(WasmInstruction::I32Eqz),
        0x46 => Ok(WasmInstruction::I32Eq),
        0x47 => Ok(WasmInstruction::I32Ne),
        0x48 => Ok(WasmInstruction::I32LtS),
        0x49 => Ok(WasmInstruction::I32LtU),
        0x4A => Ok(WasmInstruction::I32GtS),
        0x4B => Ok(WasmInstruction::I32GtU),
        0x4C => Ok(WasmInstruction::I32LeS),
        0x4D => Ok(WasmInstruction::I32LeU),
        0x4E => Ok(WasmInstruction::I32GeS),
        0x4F => Ok(WasmInstruction::I32GeU),
        0x50 => Ok(WasmInstruction::I64Eqz),
        0x51 => Ok(WasmInstruction::I64Eq),
        0x52 => Ok(WasmInstruction::I64Ne),
        0x53 => Ok(WasmInstruction::I64LtS),
        0x54 => Ok(WasmInstruction::I64LtU),
        0x55 => Ok(WasmInstruction::I64GtS),
        0x56 => Ok(WasmInstruction::I64GtU),
        0x57 => Ok(WasmInstruction::I64LeS),
        0x58 => Ok(WasmInstruction::I64LeU),
        0x59 => Ok(WasmInstruction::I64GeS),
        0x5A => Ok(WasmInstruction::I64GeU),
        0x5B => Ok(WasmInstruction::F32Eq),
        0x5C => Ok(WasmInstruction::F32Ne),
        0x5D => Ok(WasmInstruction::F32Lt),
        0x5E => Ok(WasmInstruction::F32Gt),
        0x5F => Ok(WasmInstruction::F32Le),
        0x60 => Ok(WasmInstruction::F32Ge),
        0x61 => Ok(WasmInstruction::F64Eq),
        0x62 => Ok(WasmInstruction::F64Ne),
        0x63 => Ok(WasmInstruction::F64Lt),
        0x64 => Ok(WasmInstruction::F64Gt),
        0x65 => Ok(WasmInstruction::F64Le),
        0x66 => Ok(WasmInstruction::F64Ge),
        0x67 => Ok(WasmInstruction::I32Clz),
        0x68 => Ok(WasmInstruction::I32Ctz),
        0x69 => Ok(WasmInstruction::I32Popcnt),
        0x6A => Ok(WasmInstruction::I32Add),
        0x6B => Ok(WasmInstruction::I32Sub),
        0x6C => Ok(WasmInstruction::I32Mul),
        0x6D => Ok(WasmInstruction::I32DivS),
        0x6E => Ok(WasmInstruction::I32DivU),
        0x6F => Ok(WasmInstruction::I32RemS),
        0x70 => Ok(WasmInstruction::I32RemU),
        0x71 => Ok(WasmInstruction::I32And),
        0x72 => Ok(WasmInstruction::I32Or),
        0x73 => Ok(WasmInstruction::I32Xor),
        0x74 => Ok(WasmInstruction::I32Shl),
        0x75 => Ok(WasmInstruction::I32ShrS),
        0x76 => Ok(WasmInstruction::I32ShrU),
        0x77 => Ok(WasmInstruction::I32Rotl),
        0x78 => Ok(WasmInstruction::I32Rotr),
        0x79 => Ok(WasmInstruction::I64Clz),
        0x7A => Ok(WasmInstruction::I64Ctz),
        0x7B => Ok(WasmInstruction::I64Popcnt),
        0x7C => Ok(WasmInstruction::I64Add),
        0x7D => Ok(WasmInstruction::I64Sub),
        0x7E => Ok(WasmInstruction::I64Mul),
        0x7F => Ok(WasmInstruction::I64DivS),
        0x80 => Ok(WasmInstruction::I64DivU),
        0x81 => Ok(WasmInstruction::I64RemS),
        0x82 => Ok(WasmInstruction::I64RemU),
        0x83 => Ok(WasmInstruction::I64And),
        0x84 => Ok(WasmInstruction::I64Or),
        0x85 => Ok(WasmInstruction::I64Xor),
        0x86 => Ok(WasmInstruction::I64Shl),
        0x87 => Ok(WasmInstruction::I64ShrS),
        0x88 => Ok(WasmInstruction::I64ShrU),
        0x89 => Ok(WasmInstruction::I64Rotl),
        0x8A => Ok(WasmInstruction::I64Rotr),
        0x8B => Ok(WasmInstruction::F32Abs),
        0x8C => Ok(WasmInstruction::F32Neg),
        0x8D => Ok(WasmInstruction::F32Ceil),
        0x8E => Ok(WasmInstruction::F32Floor),
        0x91 => Ok(WasmInstruction::F32Sqrt),
        0x92 => Ok(WasmInstruction::F32Add),
        0x93 => Ok(WasmInstruction::F32Sub),
        0x94 => Ok(WasmInstruction::F32Mul),
        0x98 => Ok(WasmInstruction::F32Copysign),
        0x99 => Ok(WasmInstruction::F64Abs),
        0x9A => Ok(WasmInstruction::F64Neg),
        0x9B => Ok(WasmInstruction::F64Ceil),
        0x9C => Ok(WasmInstruction::F64Floor),
        0x9F => Ok(WasmInstruction::F64Sqrt),
        0xA0 => Ok(WasmInstruction::F64Add),
        0xA1 => Ok(WasmInstruction::F64Sub),
        0xA2 => Ok(WasmInstruction::F64Mul),
        0xA6 => Ok(WasmInstruction::F64Copysign),
        0xA7 => Ok(WasmInstruction::I32WrapI64),
        0xBB => Ok(WasmInstruction::F64PromoteF32),
        0xBC => Ok(WasmInstruction::I32ReinterpretF32),
        0xBD => Ok(WasmInstruction::I64ReinterpretF64),
        0xBE => Ok(WasmInstruction::F32ReinterpretI32),
        0xBF => Ok(WasmInstruction::F64ReinterpretI64),
        0xC0 => Ok(WasmInstruction::I32Extend8S),
        0xC1 => Ok(WasmInstruction::I32Extend16S),
        0xC2 => Ok(WasmInstruction::I64Extend8S),
        0xC3 => Ok(WasmInstruction::I64Extend16S),
        0xC4 => Ok(WasmInstruction::I64Extend32S),
        0xD0 => {
            let a = reader.read_leb128_u32()?;
            Ok(WasmInstruction::RefNull(a))
        },
        0xD1 => Ok(WasmInstruction::RefIsNull),
        0xD2 => {
            let a = reader.read_leb128_u32()?;
            Ok(WasmInstruction::RefFunc(a))
        },
        _ => Err(WasmParseError::InvalidOpcode(op)),
    }
}

} // verus!
