//! The decoder of the binary format: the header, then section by section.

use crate::reader::{byte_at, leb_i32_at, leb_u32_at, range_at, u32_at, ByteReader, Parsed};
use crate::wasm::error::WasmParseError;
use crate::wasm::instruction::{instruction_at, lemma_instruction_advances, parse_instruction, WasmInstruction};
use crate::wasm::module::{lemma_views_push, views, WasmCustom, WasmCustomSpec, WasmData, WasmDataSpec, WasmExport, WasmExportDescriptor, WasmExportSpec, WasmFunc, WasmFuncSpec, WasmFunctionBody, WasmFunctionBodySpec, WasmImport, WasmImportDescriptor, WasmImportSpec, WasmMemory, WasmModule, WasmModuleSpec, WasmResizableLimit, WasmValueType};
use vstd::prelude::*;

verus! {

/// A way to read one item at a position.
pub type Item<T> = spec_fn(Seq<u8>, int) -> Parsed<T>;

/// `count` items read one after the other from `pos` on.
pub open spec fn many<T>(item: Item<T>, bytes: Seq<u8>, pos: int, count: nat) -> Parsed<Seq<T>>
    decreases count,
{
    if count == 0 {
        Ok((Seq::empty(), pos))
    } else {
        match item(bytes, pos) {
            Err(e) => Err(e),
            Ok((first, next)) => match many(item, bytes, next, (count - 1) as nat) {
                Err(e) => Err(e),
                Ok((rest, after)) => Ok((seq![first] + rest, after)),
            },
        }
    }
}

/// The items `done` followed by the items that `rest` gives.
pub open spec fn continued<T>(done: Seq<T>, rest: Parsed<Seq<T>>) -> Parsed<Seq<T>> {
    match rest {
        Err(e) => Err(e),
        Ok((more, after)) => Ok((done + more, after)),
    }
}

/// A count and then that many items.
pub open spec fn vector<T>(item: Item<T>, bytes: Seq<u8>, pos: int) -> Parsed<Seq<T>> {
    match leb_u32_at(bytes, pos) {
        Err(e) => Err(e),
        Ok((count, next)) => many(item, bytes, next, count as nat),
    }
}

/// What was read, where the reading ended at `end`; else the content is
/// out of the bounds it declared.
pub open spec fn sized<T>(inner: Parsed<T>, end: int) -> Parsed<T> {
    match inner {
        Err(e) => Err(e),
        Ok((v, after)) => if after == end {
            Ok((v, after))
        } else {
            Err(WasmParseError::OutOfBounds)
        },
    }
}

/// Reading one more item carries a run of items one step on.
pub proof fn lemma_many_step<T>(item: Item<T>, bytes: Seq<u8>, pos: int, count: nat, done: Seq<T>)
    requires
        count > 0,
    ensures
        match item(bytes, pos) {
            Err(e) => continued(done, many(item, bytes, pos, count)) == Err::<(Seq<T>, int), WasmParseError>(
                e,
            ),
            Ok((first, next)) => continued(done, many(item, bytes, pos, count)) == continued(
                done.push(first),
                many(item, bytes, next, (count - 1) as nat),
            ),
        },
{
    match item(bytes, pos) {
        Err(e) => {},
        Ok((first, next)) => {
            match many(item, bytes, next, (count - 1) as nat) {
                Err(e) => {},
                Ok((rest, after)) => {
                    assert(done + (seq![first] + rest) =~= done.push(first) + rest);
                },
            }
        },
    }
}

/// A run of items after no items is the run.
pub proof fn lemma_many_start<T>(item: Item<T>, bytes: Seq<u8>, pos: int, count: nat)
    ensures
        continued(Seq::<T>::empty(), many(item, bytes, pos, count)) == many(item, bytes, pos, count),
{
    match many(item, bytes, pos, count) {
        Err(e) => {},
        Ok((more, after)) => {
            assert(Seq::<T>::empty() + more =~= more);
        },
    }
}

/// A run of no items adds nothing.
pub proof fn lemma_many_done<T>(item: Item<T>, bytes: Seq<u8>, pos: int, done: Seq<T>)
    ensures
        continued(done, many(item, bytes, pos, 0)) == Ok::<(Seq<T>, int), WasmParseError>((done, pos)),
{
    assert(done + Seq::<T>::empty() =~= done);
}

/// The value type that a byte stands for.
pub open spec fn value_type_of(value: u8) -> Result<WasmValueType, WasmParseError> {
    if value == 0x7F {
        Ok(WasmValueType::I32)
    } else if value == 0x7E {
        Ok(WasmValueType::I64)
    } else {
        Err(WasmParseError::InvalidValueType(value))
    }
}

/// The value type at `pos`.
pub open spec fn value_type_at(bytes: Seq<u8>, pos: int) -> Parsed<WasmValueType> {
    match byte_at(bytes, pos) {
        Err(e) => Err(e),
        Ok((value, next)) => match value_type_of(value) {
            Err(e) => Err(e),
            Ok(t) => Ok((t, next)),
        },
    }
}

pub open spec fn value_type_item() -> Item<WasmValueType> {
    |bytes: Seq<u8>, pos: int| value_type_at(bytes, pos)
}

pub open spec fn index_item() -> Item<u32> {
    |bytes: Seq<u8>, pos: int| leb_u32_at(bytes, pos)
}

/// The name at `pos`: a length and that many bytes.
pub open spec fn name_at(bytes: Seq<u8>, pos: int) -> Parsed<Seq<u8>> {
    match leb_u32_at(bytes, pos) {
        Err(e) => Err(e),
        Ok((size, next)) => range_at(bytes, next, size as int),
    }
}

/// The function signature at `pos`: the byte that marks a signature, the
/// parameter types and the result types.
pub open spec fn func_type_at(bytes: Seq<u8>, pos: int) -> Parsed<WasmFuncSpec> {
    match byte_at(bytes, pos) {
        Err(e) => Err(e),
        Ok((_, start)) => match vector(value_type_item(), bytes, start) {
            Err(e) => Err(e),
            Ok((params, middle)) => match vector(value_type_item(), bytes, middle) {
                Err(e) => Err(e),
                Ok((results, after)) => Ok((WasmFuncSpec { params, returns: results }, after)),
            },
        },
    }
}

pub open spec fn func_type_item() -> Item<WasmFuncSpec> {
    |bytes: Seq<u8>, pos: int| func_type_at(bytes, pos)
}

/// The limits at `pos`: flags, the minimum, and the maximum where the flags
/// are not zero.
pub open spec fn limits_at(bytes: Seq<u8>, pos: int) -> Parsed<WasmResizableLimit> {
    match leb_u32_at(bytes, pos) {
        Err(e) => Err(e),
        Ok((flags, start)) => match leb_u32_at(bytes, start) {
            Err(e) => Err(e),
            Ok((min, middle)) => if flags == 0 {
                Ok((WasmResizableLimit { min, max: None }, middle))
            } else {
                match leb_u32_at(bytes, middle) {
                    Err(e) => Err(e),
                    Ok((max, after)) => Ok((WasmResizableLimit { min, max: Some(max) }, after)),
                }
            },
        },
    }
}

/// The memory at `pos`.
pub open spec fn memory_at(bytes: Seq<u8>, pos: int) -> Parsed<WasmMemory> {
    match limits_at(bytes, pos) {
        Err(e) => Err(e),
        Ok((limits, after)) => Ok((WasmMemory { limits }, after)),
    }
}

pub open spec fn memory_item() -> Item<WasmMemory> {
    |bytes: Seq<u8>, pos: int| memory_at(bytes, pos)
}

/// The import at `pos`: two names, the kind, and for a function the index
/// of its signature. No other kind is taken.
pub open spec fn import_at(bytes: Seq<u8>, pos: int) -> Parsed<WasmImportSpec> {
    match name_at(bytes, pos) {
        Err(e) => Err(e),
        Ok((module, start)) => match name_at(bytes, start) {
            Err(e) => Err(e),
            Ok((name, middle)) => match byte_at(bytes, middle) {
                Err(e) => Err(e),
                Ok((kind, next)) => if kind == 0 {
                    match leb_u32_at(bytes, next) {
                        Err(e) => Err(e),
                        Ok((addr, after)) => Ok(
                            (
                                WasmImportSpec { module, name, desc: WasmImportDescriptor::Func(addr) },
                                after,
                            ),
                        ),
                    }
                } else {
                    Err(WasmParseError::InvalidImportDescriptor(kind))
                },
            },
        },
    }
}

pub open spec fn import_item() -> Item<WasmImportSpec> {
    |bytes: Seq<u8>, pos: int| import_at(bytes, pos)
}

/// The export at `pos`: a name, the kind and an index. Only functions are
/// taken.
pub open spec fn export_at(bytes: Seq<u8>, pos: int) -> Parsed<WasmExportSpec> {
    match name_at(bytes, pos) {
        Err(e) => Err(e),
        Ok((name, start)) => match byte_at(bytes, start) {
            Err(e) => Err(e),
            Ok((kind, middle)) => match leb_u32_at(bytes, middle) {
                Err(e) => Err(e),
                Ok((addr, after)) => if kind == 0 {
                    Ok((WasmExportSpec { name, desc: WasmExportDescriptor::Func(addr) }, after))
                } else {
                    Err(WasmParseError::InvalidExportDescriptor(kind))
                },
            },
        },
    }
}

pub open spec fn export_item() -> Item<WasmExportSpec> {
    |bytes: Seq<u8>, pos: int| export_at(bytes, pos)
}

/// The run of locals at `pos`: how many, and of which type.
pub open spec fn local_group_at(bytes: Seq<u8>, pos: int) -> Parsed<(u32, WasmValueType)> {
    match leb_u32_at(bytes, pos) {
        Err(e) => Err(e),
        Ok((count, next)) => match value_type_at(bytes, next) {
            Err(e) => Err(e),
            Ok((t, after)) => Ok(((count, t), after)),
        },
    }
}

pub open spec fn local_group_item() -> Item<(u32, WasmValueType)> {
    |bytes: Seq<u8>, pos: int| local_group_at(bytes, pos)
}

/// How far `pos` is from `end`, where it is before it.
pub open spec fn distance(pos: int, end: int) -> nat {
    if pos < end {
        (end - pos) as nat
    } else {
        0
    }
}

/// The instructions from `pos` up to `end`.
pub open spec fn instructions_until(bytes: Seq<u8>, pos: int, end: int) -> Parsed<Seq<WasmInstruction>>
    decreases distance(pos, end),
{
    if pos >= end {
        Ok((Seq::empty(), pos))
    } else {
        match instruction_at(bytes, pos) {
            Err(e) => Err(e),
            Ok((first, next)) => if next > pos {
                match instructions_until(bytes, next, end) {
                    Err(e) => Err(e),
                    Ok((rest, after)) => Ok((seq![first] + rest, after)),
                }
            } else {
                // Never so: an instruction takes at least one byte.
                arbitrary()
            },
        }
    }
}

/// The function body of `size` bytes at `pos`: the runs of locals, then
/// instructions to the end of the body.
pub open spec fn body_of(bytes: Seq<u8>, pos: int, size: u32) -> Parsed<WasmFunctionBodySpec> {
    match vector(local_group_item(), bytes, pos) {
        Err(e) => Err(e),
        Ok((locals, start)) => match sized(instructions_until(bytes, start, pos + size), pos + size) {
            Err(e) => Err(e),
            Ok((code, after)) => Ok((WasmFunctionBodySpec { locals, code }, after)),
        },
    }
}

/// The function body at `pos`, behind its size.
pub open spec fn body_at(bytes: Seq<u8>, pos: int) -> Parsed<WasmFunctionBodySpec> {
    match leb_u32_at(bytes, pos) {
        Err(e) => Err(e),
        Ok((size, start)) => body_of(bytes, start, size),
    }
}

pub open spec fn body_item() -> Item<WasmFunctionBodySpec> {
    |bytes: Seq<u8>, pos: int| body_at(bytes, pos)
}

/// The byte at `pos`, which has to be the opcode `opcode`.
pub open spec fn opcode_at(bytes: Seq<u8>, pos: int, opcode: u8) -> Parsed<u8> {
    match byte_at(bytes, pos) {
        Err(e) => Err(e),
        Ok((op, next)) => if op == opcode {
            Ok((op, next))
        } else {
            Err(WasmParseError::InvalidOpcode(op))
        },
    }
}

/// The offset that the constant expression at `pos` gives: one 32-bit
/// constant and the end of the expression.
pub open spec fn expr_at(bytes: Seq<u8>, pos: int) -> Parsed<u32> {
    match opcode_at(bytes, pos, 0x41) {
        Err(e) => Err(e),
        Ok((_, start)) => match leb_i32_at(bytes, start) {
            Err(e) => Err(e),
            Ok((value, middle)) => match opcode_at(bytes, middle, 0x0B) {
                Err(e) => Err(e),
                Ok((_, after)) => Ok((value as u32, after)),
            },
        },
    }
}

/// The data segment at `pos`: the index of the memory, the offset, and the
/// bytes behind their length.
pub open spec fn data_at(bytes: Seq<u8>, pos: int) -> Parsed<WasmDataSpec> {
    match leb_u32_at(bytes, pos) {
        Err(e) => Err(e),
        Ok((memory_index, start)) => match expr_at(bytes, start) {
            Err(e) => Err(e),
            Ok((offset, middle)) => match name_at(bytes, middle) {
                Err(e) => Err(e),
                Ok((data, after)) => Ok((WasmDataSpec { memory_index, offset, data }, after)),
            },
        },
    }
}

pub open spec fn data_item() -> Item<WasmDataSpec> {
    |bytes: Seq<u8>, pos: int| data_at(bytes, pos)
}

/// The kinds of section that the decoder reads.
#[derive(Debug, Clone, Copy, PartialEq, Eq, Structural)]
pub enum SectionCode {
    Custom,
    Type,
    Import,
    Function,
    Memory,
    Export,
    Code,
    Data,
}

impl SectionCode {
    /// The kind of section that a byte stands for.
    pub open spec fn of(value: u8) -> Result<SectionCode, WasmParseError> {
        if value == 0x00 {
            Ok(SectionCode::Custom)
        } else if value == 0x01 {
            Ok(SectionCode::Type)
        } else if value == 0x02 {
            Ok(SectionCode::Import)
        } else if value == 0x03 {
            Ok(SectionCode::Function)
        } else if value == 0x05 {
            Ok(SectionCode::Memory)
        } else if value == 0x07 {
            Ok(SectionCode::Export)
        } else if value == 0x0a {
            Ok(SectionCode::Code)
        } else if value == 0x0b {
            Ok(SectionCode::Data)
        } else {
            Err(WasmParseError::InvalidSectionCode(value))
        }
    }

    pub fn from_u8(value: u8) -> (r: Result<SectionCode, WasmParseError>)
        ensures
            r == Self::of(value),
    {
        match value {
            0x00 => Ok(SectionCode::Custom),
            0x01 => Ok(SectionCode::Type),
            0x02 => Ok(SectionCode::Import),
            0x03 => Ok(SectionCode::Function),
            0x05 => Ok(SectionCode::Memory),
            0x07 => Ok(SectionCode::Export),
            0x0a => Ok(SectionCode::Code),
            0x0b => Ok(SectionCode::Data),
            _ => Err(WasmParseError::InvalidSectionCode(value)),
        }
    }
}

/// The custom section with the content `content`.
pub open spec fn custom_of(content: Seq<u8>) -> WasmCustomSpec {
    WasmCustomSpec { name: Seq::empty(), data: content }
}

/// The header of the section at `pos`: its kind and its size.
pub open spec fn section_header_at(bytes: Seq<u8>, pos: int) -> Parsed<(SectionCode, u32)> {
    match byte_at(bytes, pos) {
        Err(e) => Err(e),
        Ok((value, next)) => match SectionCode::of(value) {
            Err(e) => Err(e),
            Ok(code) => match leb_u32_at(bytes, next) {
                Err(e) => Err(e),
                Ok((size, after)) => Ok(((code, size), after)),
            },
        },
    }
}

/// The module with the section at `pos` read into it, and the position
/// behind the section. A section takes the place of an earlier one of its
/// kind; a custom section is kept, with its content as it stands, behind
/// the custom sections before it.
pub open spec fn section_at(bytes: Seq<u8>, pos: int, m: WasmModuleSpec) -> Parsed<WasmModuleSpec> {
    match section_header_at(bytes, pos) {
        Err(e) => Err(e),
        Ok(((code, size), start)) => {
            let end = start + size;
            match code {
                SectionCode::Custom => match range_at(bytes, start, size as int) {
                    Err(e) => Err(e),
                    Ok((content, after)) => Ok(
                        (WasmModuleSpec { customs: m.customs.push(custom_of(content)), ..m }, after),
                    ),
                },
                SectionCode::Type => match sized(vector(func_type_item(), bytes, start), end) {
                    Err(e) => Err(e),
                    Ok((types, after)) => Ok((WasmModuleSpec { types, ..m }, after)),
                },
                SectionCode::Import => match sized(vector(import_item(), bytes, start), end) {
                    Err(e) => Err(e),
                    Ok((imports, after)) => Ok((WasmModuleSpec { imports, ..m }, after)),
                },
                SectionCode::Function => match sized(vector(index_item(), bytes, start), end) {
                    Err(e) => Err(e),
                    Ok((functions, after)) => Ok((WasmModuleSpec { functions, ..m }, after)),
                },
                SectionCode::Memory => match sized(vector(memory_item(), bytes, start), end) {
                    Err(e) => Err(e),
                    Ok((memories, after)) => Ok((WasmModuleSpec { memories, ..m }, after)),
                },
                SectionCode::Export => match sized(vector(export_item(), bytes, start), end) {
                    Err(e) => Err(e),
                    Ok((exports, after)) => Ok((WasmModuleSpec { exports, ..m }, after)),
                },
                SectionCode::Code => match sized(vector(body_item(), bytes, start), end) {
                    Err(e) => Err(e),
                    Ok((codes, after)) => Ok((WasmModuleSpec { codes, ..m }, after)),
                },
                SectionCode::Data => match sized(vector(data_item(), bytes, start), end) {
                    Err(e) => Err(e),
                    Ok((data, after)) => Ok((WasmModuleSpec { data, ..m }, after)),
                },
            }
        },
    }
}

/// The module `m` with the sections from `pos` to the end of the bytes read
/// into it.
pub open spec fn sections_from(bytes: Seq<u8>, pos: int, m: WasmModuleSpec) -> Result<
    WasmModuleSpec,
    WasmParseError,
>
    decreases distance(pos, bytes.len() as int),
{
    if pos >= bytes.len() {
        Ok(m)
    } else {
        match section_at(bytes, pos, m) {
            Err(e) => Err(e),
            Ok((with_section, after)) => if after > pos {
                sections_from(bytes, after, with_section)
            } else {
                // Never so: the header of a section takes at least two bytes.
                Ok(with_section)
            },
        }
    }
}

/// The four bytes that a binary starts with.
pub open spec fn magic_number() -> Seq<u8> {
    seq![0x00u8, 0x61u8, 0x73u8, 0x6Du8]
}

/// The magic number at `pos`.
pub open spec fn magic_at(bytes: Seq<u8>, pos: int) -> Parsed<Seq<u8>> {
    match range_at(bytes, pos, 4) {
        Err(e) => Err(e),
        Ok((magic, after)) => if magic == magic_number() {
            Ok((magic, after))
        } else {
            Err(WasmParseError::InvalidMagicNumber)
        },
    }
}

/// The version at `pos`; only version 1 is taken.
pub open spec fn version_at(bytes: Seq<u8>, pos: int) -> Parsed<u32> {
    match u32_at(bytes, pos) {
        Err(e) => Err(e),
        Ok((version, after)) => if version == 1 {
            Ok((version, after))
        } else {
            Err(WasmParseError::UnsupportedVersion(version))
        },
    }
}

/// A module with a header and no sections.
pub open spec fn empty_module(magic: Seq<u8>, version: u32) -> WasmModuleSpec {
    WasmModuleSpec {
        magic,
        version,
        customs: Seq::empty(),
        types: Seq::empty(),
        imports: Seq::empty(),
        functions: Seq::empty(),
        tables: Seq::empty(),
        memories: Seq::empty(),
        exports: Seq::empty(),
        start_function: None,
        elements: Seq::empty(),
        codes: Seq::empty(),
        data: Seq::empty(),
    }
}

/// The module that the bytes of a binary decode to.
pub open spec fn module_of(bytes: Seq<u8>) -> Result<WasmModuleSpec, WasmParseError> {
    match magic_at(bytes, 0) {
        Err(e) => Err(e),
        Ok((magic, start)) => match version_at(bytes, start) {
            Err(e) => Err(e),
            Ok((version, after)) => sections_from(bytes, after, empty_module(magic, version)),
        },
    }
}

pub fn value_type_from_u8(value: u8) -> (r: Result<WasmValueType, WasmParseError>)
    ensures
        r == value_type_of(value),
{
    match value {
        0x7F => Ok(WasmValueType::I32),
        0x7E => Ok(WasmValueType::I64),
        _ => Err(WasmParseError::InvalidValueType(value)),
    }
}

/// Reads a value type.
pub fn parse_value_type(reader: &mut ByteReader) -> (r: Result<WasmValueType, WasmParseError>)
    ensures
        final(reader).bytes() == old(reader).bytes(),
        match r {
            Ok(t) => value_type_at(old(reader).bytes(), old(reader).position()) == Ok::<
                (WasmValueType, int),
                WasmParseError,
            >((t, final(reader).position())),
            Err(e) => value_type_at(old(reader).bytes(), old(reader).position()) == Err::<
                (WasmValueType, int),
                WasmParseError,
            >(e),
        },
{
    let value_type = reader.read_u8()?;
    value_type_from_u8(value_type)
}

/// Reads `size` value types.
#[verifier::loop_isolation(false)]
pub fn parse_value_types(size: u32, reader: &mut ByteReader) -> (r: Result<
    Vec<WasmValueType>,
    WasmParseError,
>)
    ensures
        final(reader).bytes() == old(reader).bytes(),
        match r {
            Ok(types) => many(
                value_type_item(),
                old(reader).bytes(),
                old(reader).position(),
                size as nat,
            ) == Ok::<(Seq<WasmValueType>, int), WasmParseError>((types@, final(reader).position())),
            Err(e) => many(value_type_item(), old(reader).bytes(), old(reader).position(), size as nat)
                == Err::<(Seq<WasmValueType>, int), WasmParseError>(e),
        },
{
    let ghost bytes = reader.bytes();
    let ghost start = reader.position();
    let mut result: Vec<WasmValueType> = Vec::new();
    proof {
        lemma_many_start(value_type_item(), bytes, start, size as nat);
    }
    let mut i: u32 = 0;
    while i < size
        invariant
            i <= size,
            reader.bytes() == bytes,
            continued(
                result@,
                many(value_type_item(), bytes, reader.position(), (size - i) as nat),
            ) == many(value_type_item(), bytes, start, size as nat),
        decreases size - i,
    {
        proof {
            lemma_many_step(
                value_type_item(),
                bytes,
                reader.position(),
                (size - i) as nat,
                result@,
            );
        }
        let item = parse_value_type(reader)?;
        result.push(item);
        i += 1;
    }
    proof {
        lemma_many_done(value_type_item(), bytes, reader.position(), result@);
    }
    Ok(result)
}

/// Reads a name: a length and that many bytes.
pub fn parse_name(reader: &mut ByteReader) -> (r: Result<Vec<u8>, WasmParseError>)
    ensures
        final(reader).bytes() == old(reader).bytes(),
        match r {
            Ok(name) => name_at(old(reader).bytes(), old(reader).position()) == Ok::<
                (Seq<u8>, int),
                WasmParseError,
            >((name@, final(reader).position())),
            Err(e) => name_at(old(reader).bytes(), old(reader).position()) == Err::<
                (Seq<u8>, int),
                WasmParseError,
            >(e),
        },
{
    let size = reader.read_leb128_u32()?;
    reader.read_range(size as usize)
}

/// Reads an index.
fn parse_index(reader: &mut ByteReader) -> (r: Result<u32, WasmParseError>)
    ensures
        final(reader).bytes() == old(reader).bytes(),
        match r {
            Ok(index) => index_item()(old(reader).bytes(), old(reader).position()) == Ok::<
                (u32, int),
                WasmParseError,
            >((index, final(reader).position())),
            Err(e) => index_item()(old(reader).bytes(), old(reader).position()) == Err::<
                (u32, int),
                WasmParseError,
            >(e),
        },
{
    reader.read_leb128_u32()
}

/// Reads a function signature.
fn parse_func_type(reader: &mut ByteReader) -> (r: Result<WasmFunc, WasmParseError>)
    ensures
        final(reader).bytes() == old(reader).bytes(),
        match r {
            Ok(func) => func_type_item()(old(reader).bytes(), old(reader).position()) == Ok::<
                (WasmFuncSpec, int),
                WasmParseError,
            >((func@, final(reader).position())),
            Err(e) => func_type_item()(old(reader).bytes(), old(reader).position()) == Err::<
                (WasmFuncSpec, int),
                WasmParseError,
            >(e),
        },
{
    let _ = reader.read_u8()?;
    let param_count = reader.read_leb128_u32()?;
    let params = parse_value_types(param_count, reader)?;
    let return_count = reader.read_leb128_u32()?;
    let results = parse_value_types(return_count, reader)?;
    Ok(WasmFunc { params, returns: results })
}

/// Reads limits: flags, the minimum, and the maximum where the flags are
/// not zero.
pub fn parse_limits(reader: &mut ByteReader) -> (r: Result<WasmResizableLimit, WasmParseError>)
    ensures
        final(reader).bytes() == old(reader).bytes(),
        match r {
            Ok(limits) => limits_at(old(reader).bytes(), old(reader).position()) == Ok::<
                (WasmResizableLimit, int),
                WasmParseError,
            >((limits, final(reader).position())),
            Err(e) => limits_at(old(reader).bytes(), old(reader).position()) == Err::<
                (WasmResizableLimit, int),
                WasmParseError,
            >(e),
        },
{
    let flags = reader.read_leb128_u32()?;
    let min = reader.read_leb128_u32()?;
    let max = if flags == 0 {
        None
    } else {
        let max = reader.read_leb128_u32()?;
        Some(max)
    };
    Ok(WasmResizableLimit { min, max })
}

/// Reads the type of a memory.
fn parse_memory(reader: &mut ByteReader) -> (r: Result<WasmMemory, WasmParseError>)
    ensures
        final(reader).bytes() == old(reader).bytes(),
        match r {
            Ok(memory) => memory_item()(old(reader).bytes(), old(reader).position()) == Ok::<
                (WasmMemory, int),
                WasmParseError,
            >((memory, final(reader).position())),
            Err(e) => memory_item()(old(reader).bytes(), old(reader).position()) == Err::<
                (WasmMemory, int),
                WasmParseError,
            >(e),
        },
{
    let limits = parse_limits(reader)?;
    Ok(WasmMemory { limits })
}

/// Reads an import.
fn parse_import(reader: &mut ByteReader) -> (r: Result<WasmImport, WasmParseError>)
    ensures
        final(reader).bytes() == old(reader).bytes(),
        match r {
            Ok(import) => import_item()(old(reader).bytes(), old(reader).position()) == Ok::<
                (WasmImportSpec, int),
                WasmParseError,
            >((import@, final(reader).position())),
            Err(e) => import_item()(old(reader).bytes(), old(reader).position()) == Err::<
                (WasmImportSpec, int),
                WasmParseError,
            >(e),
        },
{
    let module = parse_name(reader)?;
    let name = parse_name(reader)?;
    let import_kind = reader.read_u8()?;
    let desc = match import_kind {
        0x00 => {
            let addr = reader.read_leb128_u32()?;
            WasmImportDescriptor::Func(addr)
        },
        _ => {
            return Err(WasmParseError::InvalidImportDescriptor(import_kind));
        },
    };
    Ok(WasmImport { module, name, desc })
}

/// Reads an export.
fn parse_export(reader: &mut ByteReader) -> (r: Result<WasmExport, WasmParseError>)
    ensures
        final(reader).bytes() == old(reader).bytes(),
        match r {
            Ok(export) => export_item()(old(reader).bytes(), old(reader).position()) == Ok::<
                (WasmExportSpec, int),
                WasmParseError,
            >((export@, final(reader).position())),
            Err(e) => export_item()(old(reader).bytes(), old(reader).position()) == Err::<
                (WasmExportSpec, int),
                WasmParseError,
            >(e),
        },
{
    let name = parse_name(reader)?;
    let export_kind = reader.read_u8()?;
    let addr = reader.read_leb128_u32()?;
    let desc = match export_kind {
        0x00 => WasmExportDescriptor::Func(addr),
        _ => {
            return Err(WasmParseError::InvalidExportDescriptor(export_kind));
        },
    };
    Ok(WasmExport { name, desc })
}

/// Reads the runs of locals of a function body.
#[verifier::loop_isolation(false)]
fn parse_local_groups(reader: &mut ByteReader) -> (r: Result<Vec<(u32, WasmValueType)>, WasmParseError>)
    ensures
        final(reader).bytes() == old(reader).bytes(),
        match r {
            Ok(groups) => vector(local_group_item(), old(reader).bytes(), old(reader).position())
                == Ok::<(Seq<(u32, WasmValueType)>, int), WasmParseError>(
                (groups@, final(reader).position()),
            ),
            Err(e) => vector(local_group_item(), old(reader).bytes(), old(reader).position())
                == Err::<(Seq<(u32, WasmValueType)>, int), WasmParseError>(e),
        },
{
    let ghost bytes = reader.bytes();
    let count = reader.read_leb128_u32()?;
    let ghost start = reader.position();
    let mut locals: Vec<(u32, WasmValueType)> = Vec::new();
    proof {
        lemma_many_start(local_group_item(), bytes, start, count as nat);
    }
    let mut i: u32 = 0;
    while i < count
        invariant
            i <= count,
            reader.bytes() == bytes,
            continued(
                locals@,
                many(local_group_item(), bytes, reader.position(), (count - i) as nat),
            ) == many(local_group_item(), bytes, start, count as nat),
        decreases count - i,
    {
        proof {
            lemma_many_step(
                local_group_item(),
                bytes,
                reader.position(),
                (count - i) as nat,
                locals@,
            );
        }
        let type_count = reader.read_leb128_u32()?;
        let value_type = parse_value_type(reader)?;
        locals.push((type_count, value_type));
        i += 1;
    }
    proof {
        lemma_many_done(local_group_item(), bytes, reader.position(), locals@);
    }
    Ok(locals)
}

/// Reads a function body of `size` bytes: the runs of locals, then
/// instructions to the end of the body.
#[verifier::loop_isolation(false)]
pub fn parse_function_body(size: u32, reader: &mut ByteReader) -> (r: Result<
    WasmFunctionBody,
    WasmParseError,
>)
    ensures
        final(reader).bytes() == old(reader).bytes(),
        match r {
            Ok(body) => body_of(old(reader).bytes(), old(reader).position(), size) == Ok::<
                (WasmFunctionBodySpec, int),
                WasmParseError,
            >((body@, final(reader).position())),
            Err(e) => body_of(old(reader).bytes(), old(reader).position(), size) == Err::<
                (WasmFunctionBodySpec, int),
                WasmParseError,
            >(e),
        },
{
    let ghost bytes = reader.bytes();
    let ghost end = reader.position() + size;
    let expected = reader.pos() as u128 + size as u128;
    let locals = parse_local_groups(reader)?;
    let ghost start = reader.position();
    let mut code: Vec<WasmInstruction> = Vec::new();
    assert(Seq::<WasmInstruction>::empty() + instructions_until(bytes, start, end)->Ok_0.0
        =~= instructions_until(bytes, start, end)->Ok_0.0);
    while (reader.pos() as u128) < expected
        invariant
            reader.bytes() == bytes,
            continued(code@, instructions_until(bytes, reader.position(), end))
                == instructions_until(bytes, start, end),
        decreases distance(reader.position(), end),
    {
        let ghost done = code@;
        proof {
            lemma_instruction_advances(bytes, reader.position());
        }
        let inst = parse_instruction(reader)?;
        code.push(inst);
        proof {
            match instructions_until(bytes, reader.position(), end) {
                Err(_) => {},
                Ok((rest, _)) => {
                    assert(done + (seq![inst] + rest) =~= done.push(inst) + rest);
                },
            }
        }
    }
    proof {
        assert(code@ + Seq::<WasmInstruction>::empty() =~= code@);
    }
    if reader.pos() as u128 != expected {
        return Err(WasmParseError::OutOfBounds);
    }
    Ok(WasmFunctionBody { locals, code })
}

/// Reads a function body behind its size.
fn parse_body(reader: &mut ByteReader) -> (r: Result<WasmFunctionBody, WasmParseError>)
    ensures
        final(reader).bytes() == old(reader).bytes(),
        match r {
            Ok(body) => body_item()(old(reader).bytes(), old(reader).position()) == Ok::<
                (WasmFunctionBodySpec, int),
                WasmParseError,
            >((body@, final(reader).position())),
            Err(e) => body_item()(old(reader).bytes(), old(reader).position()) == Err::<
                (WasmFunctionBodySpec, int),
                WasmParseError,
            >(e),
        },
{
    let size = reader.read_leb128_u32()?;
    parse_function_body(size, reader)
}

/// Reads a byte that has to be the opcode `opcode`.
fn parse_opcode(reader: &mut ByteReader, opcode: u8) -> (r: Result<u8, WasmParseError>)
    ensures
        final(reader).bytes() == old(reader).bytes(),
        match r {
            Ok(op) => opcode_at(old(reader).bytes(), old(reader).position(), opcode) == Ok::<
                (u8, int),
                WasmParseError,
            >((op, final(reader).position())),
            Err(e) => opcode_at(old(reader).bytes(), old(reader).position(), opcode) == Err::<
                (u8, int),
                WasmParseError,
            >(e),
        },
{
    let op = reader.read_u8()?;
    if op == opcode {
        Ok(op)
    } else {
        Err(WasmParseError::InvalidOpcode(op))
    }
}

/// Reads the constant expression that gives the offset of a data segment.
pub fn parse_expr(reader: &mut ByteReader) -> (r: Result<u32, WasmParseError>)
    ensures
        final(reader).bytes() == old(reader).bytes(),
        match r {
            Ok(offset) => expr_at(old(reader).bytes(), old(reader).position()) == Ok::<
                (u32, int),
                WasmParseError,
            >((offset, final(reader).position())),
            Err(e) => expr_at(old(reader).bytes(), old(reader).position()) == Err::<
                (u32, int),
                WasmParseError,
            >(e),
        },
{
    let _ = parse_opcode(reader, 0x41)?;
    let offset = reader.read_leb128_i32()?;
    let _ = parse_opcode(reader, 0x0B)?;
    Ok(offset as u32)
}

/// Reads a data segment.
fn parse_data(reader: &mut ByteReader) -> (r: Result<WasmData, WasmParseError>)
    ensures
        final(reader).bytes() == old(reader).bytes(),
        match r {
            Ok(data) => data_item()(old(reader).bytes(), old(reader).position()) == Ok::<
                (WasmDataSpec, int),
                WasmParseError,
            >((data@, final(reader).position())),
            Err(e) => data_item()(old(reader).bytes(), old(reader).position()) == Err::<
                (WasmDataSpec, int),
                WasmParseError,
            >(e),
        },
{
    let memory_index = reader.read_leb128_u32()?;
    let offset = parse_expr(reader)?;
    let data = parse_name(reader)?;
    Ok(WasmData { memory_index, offset, data })
}

/// Reads a custom section of `size` bytes and keeps its content.
pub fn parse_custom_section(size: u32, reader: &mut ByteReader) -> (r: Result<
    Vec<WasmCustom>,
    WasmParseError,
>)
    ensures
        final(reader).bytes() == old(reader).bytes(),
        match r {
            Ok(customs) => {
                &&& customs@.len() == 1
                &&& range_at(old(reader).bytes(), old(reader).position(), size as int) == Ok::<
                    (Seq<u8>, int),
                    WasmParseError,
                >((customs@[0].data@, final(reader).position()))
                &&& customs@[0]@ == custom_of(customs@[0].data@)
            },
            Err(e) => range_at(old(reader).bytes(), old(reader).position(), size as int) == Err::<
                (Seq<u8>, int),
                WasmParseError,
            >(e),
        },
{
    let data = reader.read_range(size as usize)?;
    let mut result: Vec<WasmCustom> = Vec::new();
    result.push(WasmCustom { name: String::new(), data });
    Ok(result)
}

/// Reads the type section: the function signatures.
#[verifier::loop_isolation(false)]
pub fn parse_types_section(size: u32, reader: &mut ByteReader) -> (r: Result<
    Vec<WasmFunc>,
    WasmParseError,
>)
    ensures
        final(reader).bytes() == old(reader).bytes(),
        match r {
            Ok(items) => sized(
                vector(func_type_item(), old(reader).bytes(), old(reader).position()),
                old(reader).position() + size,
            ) == Ok::<(Seq<WasmFuncSpec>, int), WasmParseError>((views(items@), final(reader).position())),
            Err(e) => sized(
                vector(func_type_item(), old(reader).bytes(), old(reader).position()),
                old(reader).position() + size,
            ) == Err::<(Seq<WasmFuncSpec>, int), WasmParseError>(e),
        },
{
    let ghost bytes = reader.bytes();
    let expected = reader.pos() as u128 + size as u128;
    let count = reader.read_leb128_u32()?;
    let ghost start = reader.position();
    let mut result: Vec<WasmFunc> = Vec::new();
    proof {
        lemma_many_start(func_type_item(), bytes, start, count as nat);
        assert(views(result@) =~= Seq::<WasmFuncSpec>::empty());
    }
    let mut i: u32 = 0;
    while i < count
        invariant
            i <= count,
            reader.bytes() == bytes,
            continued(views(result@), many(func_type_item(), bytes, reader.position(), (count - i) as nat))
                == many(func_type_item(), bytes, start, count as nat),
        decreases count - i,
    {
        proof {
            lemma_many_step(func_type_item(), bytes, reader.position(), (count - i) as nat, views(result@));
        }
        let item = parse_func_type(reader)?;
            proof {
                lemma_views_push(result@, item);
            }
        result.push(item);
        i += 1;
    }
    proof {
        lemma_many_done(func_type_item(), bytes, reader.position(), views(result@));
    }
    if reader.pos() as u128 != expected {
        return Err(WasmParseError::OutOfBounds);
    }
    Ok(result)
}

/// Reads the import section.
#[verifier::loop_isolation(false)]
pub fn parse_import_section(size: u32, reader: &mut ByteReader) -> (r: Result<
    Vec<WasmImport>,
    WasmParseError,
>)
    ensures
        final(reader).bytes() == old(reader).bytes(),
        match r {
            Ok(items) => sized(
                vector(import_item(), old(reader).bytes(), old(reader).position()),
                old(reader).position() + size,
            ) == Ok::<(Seq<WasmImportSpec>, int), WasmParseError>((views(items@), final(reader).position())),
            Err(e) => sized(
                vector(import_item(), old(reader).bytes(), old(reader).position()),
                old(reader).position() + size,
            ) == Err::<(Seq<WasmImportSpec>, int), WasmParseError>(e),
        },
{
    let ghost bytes = reader.bytes();
    let expected = reader.pos() as u128 + size as u128;
    let count = reader.read_leb128_u32()?;
    let ghost start = reader.position();
    let mut result: Vec<WasmImport> = Vec::new();
    proof {
        lemma_many_start(import_item(), bytes, start, count as nat);
        assert(views(result@) =~= Seq::<WasmImportSpec>::empty());
    }
    let mut i: u32 = 0;
    while i < count
        invariant
            i <= count,
            reader.bytes() == bytes,
            continued(views(result@), many(import_item(), bytes, reader.position(), (count - i) as nat))
                == many(import_item(), bytes, start, count as nat),
        decreases count - i,
    {
        proof {
            lemma_many_step(import_item(), bytes, reader.position(), (count - i) as nat, views(result@));
        }
        let item = parse_import(reader)?;
            proof {
                lemma_views_push(result@, item);
            }
        result.push(item);
        i += 1;
    }
    proof {
        lemma_many_done(import_item(), bytes, reader.position(), views(result@));
    }
    if reader.pos() as u128 != expected {
        return Err(WasmParseError::OutOfBounds);
    }
    Ok(result)
}

/// Reads the function section: for each function the index of its signature.
#[verifier::loop_isolation(false)]
pub fn parse_functions_section(size: u32, reader: &mut ByteReader) -> (r: Result<
    Vec<u32>,
    WasmParseError,
>)
    ensures
        final(reader).bytes() == old(reader).bytes(),
        match r {
            Ok(items) => sized(
                vector(index_item(), old(reader).bytes(), old(reader).position()),
                old(reader).position() + size,
            ) == Ok::<(Seq<u32>, int), WasmParseError>((items@, final(reader).position())),
            Err(e) => sized(
                vector(index_item(), old(reader).bytes(), old(reader).position()),
                old(reader).position() + size,
            ) == Err::<(Seq<u32>, int), WasmParseError>(e),
        },
{
    let ghost bytes = reader.bytes();
    let expected = reader.pos() as u128 + size as u128;
    let count = reader.read_leb128_u32()?;
    let ghost start = reader.position();
    let mut result: Vec<u32> = Vec::new();
    proof {
        lemma_many_start(index_item(), bytes, start, count as nat);
        assert(result@ =~= Seq::<u32>::empty());
    }
    let mut i: u32 = 0;
    while i < count
        invariant
            i <= count,
            reader.bytes() == bytes,
            continued(result@, many(index_item(), bytes, reader.position(), (count - i) as nat))
                == many(index_item(), bytes, start, count as nat),
        decreases count - i,
    {
        proof {
            lemma_many_step(index_item(), bytes, reader.position(), (count - i) as nat, result@);
        }
        let item = parse_index(reader)?;
        result.push(item);
        i += 1;
    }
    proof {
        lemma_many_done(index_item(), bytes, reader.position(), result@);
    }
    if reader.pos() as u128 != expected {
        return Err(WasmParseError::OutOfBounds);
    }
    Ok(result)
}

/// Reads the memory section.
#[verifier::loop_isolation(false)]
pub fn parse_memory_section(size: u32, reader: &mut ByteReader) -> (r: Result<
    Vec<WasmMemory>,
    WasmParseError,
>)
    ensures
        final(reader).bytes() == old(reader).bytes(),
        match r {
            Ok(items) => sized(
                vector(memory_item(), old(reader).bytes(), old(reader).position()),
                old(reader).position() + size,
            ) == Ok::<(Seq<WasmMemory>, int), WasmParseError>((items@, final(reader).position())),
            Err(e) => sized(
                vector(memory_item(), old(reader).bytes(), old(reader).position()),
                old(reader).position() + size,
            ) == Err::<(Seq<WasmMemory>, int), WasmParseError>(e),
        },
{
    let ghost bytes = reader.bytes();
    let expected = reader.pos() as u128 + size as u128;
    let count = reader.read_leb128_u32()?;
    let ghost start = reader.position();
    let mut result: Vec<WasmMemory> = Vec::new();
    proof {
        lemma_many_start(memory_item(), bytes, start, count as nat);
        assert(result@ =~= Seq::<WasmMemory>::empty());
    }
    let mut i: u32 = 0;
    while i < count
        invariant
            i <= count,
            reader.bytes() == bytes,
            continued(result@, many(memory_item(), bytes, reader.position(), (count - i) as nat))
                == many(memory_item(), bytes, start, count as nat),
        decreases count - i,
    {
        proof {
            lemma_many_step(memory_item(), bytes, reader.position(), (count - i) as nat, result@);
        }
        let item = parse_memory(reader)?;
        result.push(item);
        i += 1;
    }
    proof {
        lemma_many_done(memory_item(), bytes, reader.position(), result@);
    }
    if reader.pos() as u128 != expected {
        return Err(WasmParseError::OutOfBounds);
    }
    Ok(result)
}

/// Reads the export section.
#[verifier::loop_isolation(false)]
pub fn parse_export_section(size: u32, reader: &mut ByteReader) -> (r: Result<
    Vec<WasmExport>,
    WasmParseError,
>)
    ensures
        final(reader).bytes() == old(reader).bytes(),
        match r {
            Ok(items) => sized(
                vector(export_item(), old(reader).bytes(), old(reader).position()),
                old(reader).position() + size,
            ) == Ok::<(Seq<WasmExportSpec>, int), WasmParseError>((views(items@), final(reader).position())),
            Err(e) => sized(
                vector(export_item(), old(reader).bytes(), old(reader).position()),
                old(reader).position() + size,
            ) == Err::<(Seq<WasmExportSpec>, int), WasmParseError>(e),
        },
{
    let ghost bytes = reader.bytes();
    let expected = reader.pos() as u128 + size as u128;
    let count = reader.read_leb128_u32()?;
    let ghost start = reader.position();
    let mut result: Vec<WasmExport> = Vec::new();
    proof {
        lemma_many_start(export_item(), bytes, start, count as nat);
        assert(views(result@) =~= Seq::<WasmExportSpec>::empty());
    }
    let mut i: u32 = 0;
    while i < count
        invariant
            i <= count,
            reader.bytes() == bytes,
            continued(views(result@), many(export_item(), bytes, reader.position(), (count - i) as nat))
                == many(export_item(), bytes, start, count as nat),
        decreases count - i,
    {
        proof {
            lemma_many_step(export_item(), bytes, reader.position(), (count - i) as nat, views(result@));
        }
        let item = parse_export(reader)?;
            proof {
                lemma_views_push(result@, item);
            }
        result.push(item);
        i += 1;
    }
    proof {
        lemma_many_done(export_item(), bytes, reader.position(), views(result@));
    }
    if reader.pos() as u128 != expected {
        return Err(WasmParseError::OutOfBounds);
    }
    Ok(result)
}

/// Reads the code section: the function bodies.
#[verifier::loop_isolation(false)]
pub fn parse_code_section(size: u32, reader: &mut ByteReader) -> (r: Result<
    Vec<WasmFunctionBody>,
    WasmParseError,
>)
    ensures
        final(reader).bytes() == old(reader).bytes(),
        match r {
            Ok(items) => sized(
                vector(body_item(), old(reader).bytes(), old(reader).position()),
                old(reader).position() + size,
            ) == Ok::<(Seq<WasmFunctionBodySpec>, int), WasmParseError>((views(items@), final(reader).position())),
            Err(e) => sized(
                vector(body_item(), old(reader).bytes(), old(reader).position()),
                old(reader).position() + size,
            ) == Err::<(Seq<WasmFunctionBodySpec>, int), WasmParseError>(e),
        },
{
    let ghost bytes = reader.bytes();
    let expected = reader.pos() as u128 + size as u128;
    let count = reader.read_leb128_u32()?;
    let ghost start = reader.position();
    let mut result: Vec<WasmFunctionBody> = Vec::new();
    proof {
        lemma_many_start(body_item(), bytes, start, count as nat);
        assert(views(result@) =~= Seq::<WasmFunctionBodySpec>::empty());
    }
    let mut i: u32 = 0;
    while i < count
        invariant
            i <= count,
            reader.bytes() == bytes,
            continued(views(result@), many(body_item(), bytes, reader.position(), (count - i) as nat))
                == many(body_item(), bytes, start, count as nat),
        decreases count - i,
    {
        proof {
            lemma_many_step(body_item(), bytes, reader.position(), (count - i) as nat, views(result@));
        }
        let item = parse_body(reader)?;
            proof {
                lemma_views_push(result@, item);
            }
        result.push(item);
        i += 1;
    }
    proof {
        lemma_many_done(body_item(), bytes, reader.position(), views(result@));
    }
    if reader.pos() as u128 != expected {
        return Err(WasmParseError::OutOfBounds);
    }
    Ok(result)
}

/// Reads the data section.
#[verifier::loop_isolation(false)]
pub fn parse_data_section(size: u32, reader: &mut ByteReader) -> (r: Result<
    Vec<WasmData>,
    WasmParseError,
>)
    ensures
        final(reader).bytes() == old(reader).bytes(),
        match r {
            Ok(items) => sized(
                vector(data_item(), old(reader).bytes(), old(reader).position()),
                old(reader).position() + size,
            ) == Ok::<(Seq<WasmDataSpec>, int), WasmParseError>((views(items@), final(reader).position())),
            Err(e) => sized(
                vector(data_item(), old(reader).bytes(), old(reader).position()),
                old(reader).position() + size,
            ) == Err::<(Seq<WasmDataSpec>, int), WasmParseError>(e),
        },
{
    let ghost bytes = reader.bytes();
    let expected = reader.pos() as u128 + size as u128;
    let count = reader.read_leb128_u32()?;
    let ghost start = reader.position();
    let mut result: Vec<WasmData> = Vec::new();
    proof {
        lemma_many_start(data_item(), bytes, start, count as nat);
        assert(views(result@) =~= Seq::<WasmDataSpec>::empty());
    }
    let mut i: u32 = 0;
    while i < count
        invariant
            i <= count,
            reader.bytes() == bytes,
            continued(views(result@), many(data_item(), bytes, reader.position(), (count - i) as nat))
                == many(data_item(), bytes, start, count as nat),
        decreases count - i,
    {
        proof {
            lemma_many_step(data_item(), bytes, reader.position(), (count - i) as nat, views(result@));
        }
        let item = parse_data(reader)?;
            proof {
                lemma_views_push(result@, item);
            }
        result.push(item);
        i += 1;
    }
    proof {
        lemma_many_done(data_item(), bytes, reader.position(), views(result@));
    }
    if reader.pos() as u128 != expected {
        return Err(WasmParseError::OutOfBounds);
    }
    Ok(result)
}


/// The decoder of the binary format.
pub struct WasmParser {}

impl WasmParser {
    /// Decodes a binary: the header, then every section to the end of the
    /// bytes.
    #[verifier::loop_isolation(false)]
    pub fn parse(input: &[u8]) -> (r: Result<WasmModule, WasmParseError>)
        ensures
            match r {
                Ok(module) => module_of(input@) == Ok::<WasmModuleSpec, WasmParseError>(module@),
                Err(e) => module_of(input@) == Err::<WasmModuleSpec, WasmParseError>(e),
            },
    {
        let mut reader = ByteReader::new(input);
        let magic = Self::parse_magic(&mut reader)?;
        let version = Self::parse_version(&mut reader)?;
        let mut result = WasmModule {
            magic,
            version,
            customs: Vec::new(),
            types: Vec::new(),
            imports: Vec::new(),
            functions: Vec::new(),
            tables: Vec::new(),
            memories: Vec::new(),
            exports: Vec::new(),
            start_function: None,
            elements: Vec::new(),
            codes: Vec::new(),
            data: Vec::new(),
        };
        let ghost first = reader.position();
        let ghost initial = result@;
        assert(initial =~= empty_module(result.magic@, version)) by {
            assert(initial.customs =~= Seq::empty());
            assert(initial.types =~= Seq::empty());
            assert(initial.imports =~= Seq::empty());
            assert(initial.exports =~= Seq::empty());
            assert(initial.elements =~= Seq::empty());
            assert(initial.codes =~= Seq::empty());
            assert(initial.data =~= Seq::empty());
        }
        while !reader.eof()
            invariant
                reader.bytes() == input@,
                sections_from(input@, reader.position(), result@) == sections_from(
                    input@,
                    first,
                    initial,
                ),
            decreases distance(reader.position(), input@.len() as int),
        {
            let (code, size) = Self::parse_section_header(&mut reader)?;
            match code {
                SectionCode::Custom => {
                    let ghost kept = result.customs@;
                    let mut customs = parse_custom_section(size, &mut reader)?;
                    let ghost custom = customs@[0];
                    result.customs.append(&mut customs);
                    assert(views(result.customs@) =~= views(kept).push(custom@));
                },
                SectionCode::Type => {
                    result.types = parse_types_section(size, &mut reader)?;
                },
                SectionCode::Import => {
                    result.imports = parse_import_section(size, &mut reader)?;
                },
                SectionCode::Function => {
                    result.functions = parse_functions_section(size, &mut reader)?;
                },
                SectionCode::Memory => {
                    result.memories = parse_memory_section(size, &mut reader)?;
                },
                SectionCode::Export => {
                    result.exports = parse_export_section(size, &mut reader)?;
                },
                SectionCode::Code => {
                    result.codes = parse_code_section(size, &mut reader)?;
                },
                SectionCode::Data => {
                    result.data = parse_data_section(size, &mut reader)?;
                },
            }
        }
        Ok(result)
    }

    /// Reads the magic number.
    pub fn parse_magic(reader: &mut ByteReader) -> (r: Result<Vec<u8>, WasmParseError>)
        ensures
            final(reader).bytes() == old(reader).bytes(),
            match r {
                Ok(magic) => magic_at(old(reader).bytes(), old(reader).position()) == Ok::<
                    (Seq<u8>, int),
                    WasmParseError,
                >((magic@, final(reader).position())),
                Err(e) => magic_at(old(reader).bytes(), old(reader).position()) == Err::<
                    (Seq<u8>, int),
                    WasmParseError,
                >(e),
            },
    {
        let result = reader.read_range(4)?;
        if result[0] != 0x00 || result[1] != 0x61 || result[2] != 0x73 || result[3] != 0x6D {
            Err(WasmParseError::InvalidMagicNumber)
        } else {
            assert(result@ =~= magic_number());
            Ok(result)
        }
    }

    /// Reads the version.
    pub fn parse_version(reader: &mut ByteReader) -> (r: Result<u32, WasmParseError>)
        ensures
            final(reader).bytes() == old(reader).bytes(),
            match r {
                Ok(version) => version_at(old(reader).bytes(), old(reader).position()) == Ok::<
                    (u32, int),
                    WasmParseError,
                >((version, final(reader).position())),
                Err(e) => version_at(old(reader).bytes(), old(reader).position()) == Err::<
                    (u32, int),
                    WasmParseError,
                >(e),
            },
    {
        let result = reader.read_u32()?;
        if result != 1 {
            Err(WasmParseError::UnsupportedVersion(result))
        } else {
            Ok(result)
        }
    }

    /// Reads the header of a section: its kind and its size.
    pub fn parse_section_header(reader: &mut ByteReader) -> (r: Result<
        (SectionCode, u32),
        WasmParseError,
    >)
        ensures
            final(reader).bytes() == old(reader).bytes(),
            match r {
                Ok(header) => section_header_at(old(reader).bytes(), old(reader).position()) == Ok::<
                    ((SectionCode, u32), int),
                    WasmParseError,
                >((header, final(reader).position())),
                Err(e) => section_header_at(old(reader).bytes(), old(reader).position()) == Err::<
                    ((SectionCode, u32), int),
                    WasmParseError,
                >(e),
            },
    {
        let code = SectionCode::from_u8(reader.read_u8()?)?;
        let size = reader.read_leb128_u32()?;
        Ok((code, size))
    }
}

} // verus!
