use hal::instruction::Instruction;
use hal::reader::ByteReader;
use hal::wasm::error::WasmParseError;
use hal::wasm::error::WasmParseError::{InvalidMagicNumber, UnexpectedEndOfFile, UnsupportedVersion};
use hal::wasm::instruction::{parse_instruction, WasmInstruction};
use hal::wasm::parse::{parse_expr, parse_limits, SectionCode, WasmParser};
use hal::wasm::{
    WasmCustom, WasmData, WasmExport, WasmExportDescriptor, WasmFunc, WasmFunctionBody, WasmImport,
    WasmImportDescriptor, WasmMemory, WasmModule, WasmResizableLimit, WasmValueType,
};
use hal::wat_text::WatParser;

fn names(functions: &[u8]) -> Vec<WasmCustom> {
    let mut data = vec![0x04, 0x6E, 0x61, 0x6D, 0x65, 0x01];
    data.push(functions.len() as u8);
    data.extend_from_slice(functions);
    vec![WasmCustom { name: String::new(), data }]
}

fn wasm(content: &str) -> Vec<u8> {
    WatParser::parse_str(content).unwrap()
}

#[test]
fn nothing_to_decode() {
    let err = WasmParser::parse([0u8, 0].as_ref()).err().unwrap();
    assert_eq!(err, UnexpectedEndOfFile)
}

#[test]
fn invalid_magic_number() {
    let err = WasmParser::parse(&[0x00, 0x6D, 0x73, 0x61]).err().unwrap();
    assert_eq!(err, InvalidMagicNumber)
}

#[test]
fn invalid_version() {
    let given_bytes = &2_i32.to_le_bytes();
    let mut reader = ByteReader::new(given_bytes.as_ref());
    let err = WasmParser::parse_version(&mut reader).err().unwrap();
    assert_eq!(err, UnsupportedVersion(2))
}

#[test]
fn unsupported_version_of_a_whole_binary() {
    let err = WasmParser::parse(&[0x00, 0x61, 0x73, 0x6D, 0x02, 0, 0, 0]).err().unwrap();
    assert_eq!(err, UnsupportedVersion(2))
}

fn assert_empty_but(result: &WasmModule) {
    assert_eq!(result.magic, "\0asm".as_bytes());
    assert_eq!(result.version, 1);
    assert!(result.tables.is_empty());
    assert_eq!(result.start_function, None);
    assert!(result.elements.is_empty());
}

fn check_empty_module(wasm: &[u8]) {
    let result = WasmParser::parse(wasm).unwrap();
    assert_eq!(result.magic, "\0asm".as_bytes());
    assert_eq!(result.version, 1);
    assert!(result.customs.is_empty());
    assert!(result.types.is_empty());
    assert!(result.imports.is_empty());
    assert!(result.functions.is_empty());
    assert!(result.tables.is_empty());
    assert!(result.memories.is_empty());
    assert!(result.exports.is_empty());
    assert_eq!(result.start_function, None);
    assert!(result.codes.is_empty());
    assert!(result.data.is_empty());
}

fn check_empty_function(wasm: &[u8]) {
    let result = WasmParser::parse(wasm).unwrap();
    assert_empty_but(&result);
    assert!(result.customs.is_empty());
    assert_eq!(result.types, [WasmFunc::default()]);
    assert!(result.imports.is_empty());
    assert_eq!(result.functions, [0]);
    assert!(result.memories.is_empty());
    assert!(result.exports.is_empty());
    assert_eq!(
        result.codes,
        [WasmFunctionBody { locals: vec![], code: vec![WasmInstruction::End] }]
    );
    assert!(result.data.is_empty());
}

fn check_func_with_params(wasm: &[u8]) {
    let result = WasmParser::parse(wasm).unwrap();
    assert_empty_but(&result);
    assert!(result.customs.is_empty());
    assert_eq!(
        result.types,
        [WasmFunc { params: vec![WasmValueType::I32, WasmValueType::I64], returns: vec![] }]
    );
    assert!(result.imports.is_empty());
    assert_eq!(result.functions, [0]);
    assert!(result.memories.is_empty());
    assert!(result.exports.is_empty());
    assert_eq!(
        result.codes,
        [WasmFunctionBody { locals: vec![], code: vec![WasmInstruction::End] }]
    );
    assert!(result.data.is_empty());
}

fn check_func_with_locals(wasm: &[u8]) {
    let result = WasmParser::parse(wasm).unwrap();
    assert_empty_but(&result);
    assert!(result.customs.is_empty());
    assert_eq!(result.types, [WasmFunc::default()]);
    assert!(result.imports.is_empty());
    assert_eq!(result.functions, [0]);
    assert!(result.memories.is_empty());
    assert!(result.exports.is_empty());
    assert!(result.exports.is_empty());
    assert_eq!(
        result.codes,
        [WasmFunctionBody {
            locals: vec![(1, WasmValueType::I32), (2, WasmValueType::I64)],
            code: vec![WasmInstruction::End],
        }]
    );
    assert!(result.data.is_empty());
}

fn check_add(wasm: &[u8]) {
    let result = WasmParser::parse(wasm).unwrap();
    assert_empty_but(&result);
    assert!(result.customs.is_empty());
    assert_eq!(
        result.types,
        [WasmFunc {
            params: vec![WasmValueType::I32, WasmValueType::I32],
            returns: vec![WasmValueType::I32]
        }]
    );
    assert!(result.imports.is_empty());
    assert_eq!(result.functions, [0]);
    assert!(result.memories.is_empty());
    assert_eq!(
        result.exports,
        [WasmExport { name: Vec::from("add".as_bytes()), desc: WasmExportDescriptor::Func(0) }]
    );
    assert_eq!(
        result.codes,
        [WasmFunctionBody {
            locals: vec![],
            code: vec![
                WasmInstruction::LocalGet(0),
                WasmInstruction::LocalGet(1),
                WasmInstruction::I32Add,
                WasmInstruction::End,
            ],
        }]
    );
    assert!(result.data.is_empty());
}

fn check_func_call(wasm: &[u8], customs: &[WasmCustom]) {
    let result = WasmParser::parse(wasm).unwrap();
    assert_empty_but(&result);
    assert_eq!(result.customs, customs);
    assert_eq!(
        result.types,
        [WasmFunc { params: vec![WasmValueType::I32], returns: vec![WasmValueType::I32] }]
    );
    assert!(result.imports.is_empty());
    assert_eq!(result.functions, [0, 0]);
    assert!(result.memories.is_empty());
    assert_eq!(
        result.exports,
        [WasmExport {
            name: Vec::from("call_doubler".as_bytes()),
            desc: WasmExportDescriptor::Func(0),
        }]
    );
    assert_eq!(
        result.codes,
        [
            WasmFunctionBody {
                locals: vec![],
                code: vec![
                    WasmInstruction::LocalGet(0),
                    WasmInstruction::Call(1),
                    WasmInstruction::End,
                ],
            },
            WasmFunctionBody {
                locals: vec![],
                code: vec![
                    WasmInstruction::LocalGet(0),
                    WasmInstruction::LocalGet(0),
                    WasmInstruction::I32Add,
                    WasmInstruction::End,
                ],
            }
        ]
    );
    assert!(result.data.is_empty());
}

fn check_import(wasm: &[u8], customs: &[WasmCustom]) {
    let result = WasmParser::parse(wasm).unwrap();
    assert_empty_but(&result);
    assert_eq!(result.customs, customs);
    assert_eq!(
        result.types,
        [WasmFunc { params: vec![WasmValueType::I32], returns: vec![WasmValueType::I32] }]
    );
    assert_eq!(
        result.imports,
        [WasmImport {
            module: Vec::from("env".as_bytes()),
            name: Vec::from("add".as_bytes()),
            desc: WasmImportDescriptor::Func(0),
        }]
    );
    assert_eq!(result.functions, [0]);
    assert!(result.memories.is_empty());
    assert_eq!(
        result.exports,
        [WasmExport { name: Vec::from("call_add".as_bytes()), desc: WasmExportDescriptor::Func(1) }]
    );
    assert_eq!(
        result.codes,
        [WasmFunctionBody {
            locals: vec![],
            code: vec![
                WasmInstruction::LocalGet(0),
                WasmInstruction::Call(0),
                WasmInstruction::End,
            ],
        }]
    );
    assert!(result.data.is_empty());
}

fn check_store(wasm: &[u8], customs: &[WasmCustom]) {
    let result = WasmParser::parse(wasm).unwrap();
    assert_empty_but(&result);
    assert_eq!(result.customs, customs);
    assert_eq!(result.types, [WasmFunc { params: vec![], returns: vec![] }]);
    assert!(result.imports.is_empty());
    assert_eq!(result.functions, [0]);
    assert_eq!(
        result.memories,
        [WasmMemory { limits: WasmResizableLimit { min: 1, max: None } }]
    );
    assert_eq!(
        result.exports,
        [WasmExport { name: Vec::from("i32_store".as_bytes()), desc: WasmExportDescriptor::Func(0) }]
    );
    assert_eq!(
        result.codes,
        [WasmFunctionBody {
            locals: vec![],
            code: vec![
                WasmInstruction::I32Const(0),
                WasmInstruction::I32Const(42),
                WasmInstruction::I32Store { flag: 2, offset: 0 },
                WasmInstruction::End,
            ],
        }]
    );
    assert!(result.data.is_empty());
}

fn check_data(wasm: &[u8]) {
    let result = WasmParser::parse(wasm).unwrap();
    assert_empty_but(&result);
    assert!(result.customs.is_empty());
    assert!(result.types.is_empty());
    assert!(result.imports.is_empty());
    assert!(result.functions.is_empty());
    assert_eq!(
        result.memories,
        [WasmMemory { limits: WasmResizableLimit { min: 1, max: None } }]
    );
    assert!(result.exports.is_empty());
    assert!(result.codes.is_empty());
    assert_eq!(
        result.data,
        [
            WasmData { memory_index: 0, offset: 0, data: Vec::from("hello".as_bytes()) },
            WasmData { memory_index: 0, offset: 5, data: Vec::from("world".as_bytes()) },
        ]
    );
}

const FUNC_LOCALS: &str = r#"
        (module
          (func
            (local i32)
            (local i64 i64)
          )
        )
        "#;

const ADD: &str = r#"
        (module
          (func (export "add") (param i32 i32) (result i32)
            (local.get 0)
            (local.get 1)
            i32.add
          )
        )
        "#;

const FUNC_CALL: &str = r#"
        (module
          (func (export "call_doubler") (param i32) (result i32)
            (local.get 0)
            (call $double)
          )
          (func $double (param i32) (result i32)
            (local.get 0)
            (local.get 0)
            i32.add
          )
        )

        "#;

const IMPORT: &str = r#"
        (module
          (func $add (import "env" "add") (param i32) (result i32))
          (func (export "call_add") (param i32) (result i32)
            (local.get 0)
            (call $add)
          )
        )
        "#;

const STORE: &str = r#"
        (module
          (memory 1)
          (func $i32_store
            (i32.const 0)
            (i32.const 42)
            (i32.store)
          )
          (export "i32_store" (func $i32_store))
        )
        "#;

const DATA: &str = r#"
        (module (memory 1) (data (i32.const 0) "hello") (data (i32.const 5) "world"))
        "#;

#[test]
fn parser_parse_empty_module() {
    check_empty_module(&wasm(r#"(module)"#));
}

#[test]
fn parser_parse_empty_function() {
    check_empty_function(&wasm("(module (func))"));
}

#[test]
fn parser_parse_func_with_params() {
    check_func_with_params(&wasm("(module (func (param i32 i64)))"));
}

#[test]
fn parser_parse_func_with_locals() {
    check_func_with_locals(&wasm(FUNC_LOCALS));
}

#[test]
fn parser_parse_add() {
    check_add(&wasm(ADD));
}

#[test]
fn parser_parse_func_call() {
    check_func_call(
        &wasm(FUNC_CALL),
        &names(&[0x01, 0x01, 0x06, 0x64, 0x6F, 0x75, 0x62, 0x6C, 0x65]),
    );
}

#[test]
fn parser_parse_import() {
    check_import(&wasm(IMPORT), &names(&[0x01, 0x00, 0x03, 0x61, 0x64, 0x64]));
}

#[test]
fn parser_parse_store() {
    check_store(
        &wasm(STORE),
        &names(&[0x01, 0x00, 0x09, 0x69, 0x33, 0x32, 0x5F, 0x73, 0x74, 0x6F, 0x72, 0x65]),
    );
}

#[test]
fn parser_parse_data() {
    check_data(&wasm(DATA));
}

#[test]
fn mod_parse_empty_module() {
    check_empty_module(&[0x00, 0x61, 0x73, 0x6D, 0x01, 0x00, 0x00, 0x00]);
}

#[test]
fn mod_parse_empty_function() {
    check_empty_function(&[
        0x00, 0x61, 0x73, 0x6D, 0x01, 0x00, 0x00, 0x00, 0x01, 0x04, 0x01, 0x60, 0x00, 0x00, 0x03,
        0x02, 0x01, 0x00, 0x0A, 0x04, 0x01, 0x02, 0x00, 0x0B,
    ]);
}

#[test]
fn mod_parse_func_with_params() {
    check_func_with_params(&[
        0x00, 0x61, 0x73, 0x6D, 0x01, 0x00, 0x00, 0x00, 0x01, 0x06, 0x01, 0x60, 0x02, 0x7F, 0x7E,
        0x00, 0x03, 0x02, 0x01, 0x00, 0x0A, 0x04, 0x01, 0x02, 0x00, 0x0B,
    ]);
}

#[test]
fn mod_parse_func_with_locals() {
    check_func_with_locals(&[
        0x00, 0x61, 0x73, 0x6D, 0x01, 0x00, 0x00, 0x00, 0x01, 0x04, 0x01, 0x60, 0x00, 0x00, 0x03,
        0x02, 0x01, 0x00, 0x0A, 0x08, 0x01, 0x06, 0x02, 0x01, 0x7F, 0x02, 0x7E, 0x0B,
    ]);
}

#[test]
fn mod_parse_add() {
    check_add(&[
        0x00, 0x61, 0x73, 0x6D, 0x01, 0x00, 0x00, 0x00, 0x01, 0x07, 0x01, 0x60, 0x02, 0x7F, 0x7F,
        0x01, 0x7F, 0x03, 0x02, 0x01, 0x00, 0x07, 0x07, 0x01, 0x03, 0x61, 0x64, 0x64, 0x00, 0x00,
        0x0A, 0x09, 0x01, 0x07, 0x00, 0x20, 0x00, 0x20, 0x01, 0x6A, 0x0B,
    ]);
}

#[test]
fn mod_parse_func_call() {
    check_func_call(&[
        0x00, 0x61, 0x73, 0x6D, 0x01, 0x00, 0x00, 0x00, 0x01, 0x06, 0x01, 0x60, 0x01, 0x7F, 0x01,
        0x7F, 0x03, 0x03, 0x02, 0x00, 0x00, 0x07, 0x10, 0x01, 0x0C, 0x63, 0x61, 0x6C, 0x6C, 0x5F,
        0x64, 0x6F, 0x75, 0x62, 0x6C, 0x65, 0x72, 0x00, 0x00, 0x0A, 0x10, 0x02, 0x06, 0x00, 0x20,
        0x00, 0x10, 0x01, 0x0B, 0x07, 0x00, 0x20, 0x00, 0x20, 0x00, 0x6A, 0x0B, 0x00, 0x04, 0x01,
        0x02, 0x03, 0x04,
    ], &[WasmCustom { name: String::new(), data: vec![0x01, 0x02, 0x03, 0x04] }]);
}

#[test]
fn mod_parse_import() {
    check_import(&[
        0x00, 0x61, 0x73, 0x6D, 0x01, 0x00, 0x00, 0x00, 0x01, 0x06, 0x01, 0x60, 0x01, 0x7F, 0x01,
        0x7F, 0x02, 0x0B, 0x01, 0x03, 0x65, 0x6E, 0x76, 0x03, 0x61, 0x64, 0x64, 0x00, 0x00, 0x03,
        0x02, 0x01, 0x00, 0x07, 0x0C, 0x01, 0x08, 0x63, 0x61, 0x6C, 0x6C, 0x5F, 0x61, 0x64, 0x64,
        0x00, 0x01, 0x0A, 0x08, 0x01, 0x06, 0x00, 0x20, 0x00, 0x10, 0x00, 0x0B,
    ], &[]);
}

#[test]
fn mod_parse_store() {
    check_store(&[
        0x00, 0x61, 0x73, 0x6D, 0x01, 0x00, 0x00, 0x00, 0x01, 0x04, 0x01, 0x60, 0x00, 0x00, 0x03,
        0x02, 0x01, 0x00, 0x05, 0x03, 0x01, 0x00, 0x01, 0x07, 0x0D, 0x01, 0x09, 0x69, 0x33, 0x32,
        0x5F, 0x73, 0x74, 0x6F, 0x72, 0x65, 0x00, 0x00, 0x0A, 0x0B, 0x01, 0x09, 0x00, 0x41, 0x00,
        0x41, 0x2A, 0x36, 0x02, 0x00, 0x0B,
    ], &[]);
}

#[test]
fn mod_parse_data() {
    check_data(&[
        0x00, 0x61, 0x73, 0x6D, 0x01, 0x00, 0x00, 0x00, 0x05, 0x03, 0x01, 0x00, 0x01, 0x0B, 0x15,
        0x02, 0x00, 0x41, 0x00, 0x0B, 0x05, 0x68, 0x65, 0x6C, 0x6C, 0x6F, 0x00, 0x41, 0x05, 0x0B,
        0x05, 0x77, 0x6F, 0x72, 0x6C, 0x64,
    ]);
}

#[test]
fn parse_i32_store() {
    let wasm = WatParser::parse_str("(module (func (i32.store offset=4 (i32.const 4))))").unwrap();
    let result = WasmParser::parse(&wasm).unwrap();
    assert_eq!(
        result.codes,
        [WasmFunctionBody {
            locals: vec![],
            code: vec![
                WasmInstruction::I32Const(4),
                WasmInstruction::I32Store { flag: 2, offset: 4 },
                WasmInstruction::End,
            ],
        }]
    );
}

#[test]
fn parse_memory_no_max() {
    let wasm = WatParser::parse_str("(module (memory 1))").unwrap();
    let result = WasmParser::parse(&wasm).unwrap();
    assert_eq!(result.memories, [WasmMemory { limits: WasmResizableLimit { min: 1, max: None } }])
}

#[test]
fn parse_memory() {
    let wasm = WatParser::parse_str("(module (memory 1 2))").unwrap();
    let result = WasmParser::parse(&wasm).unwrap();
    assert_eq!(
        result.memories,
        [WasmMemory { limits: WasmResizableLimit { min: 1, max: Some(2) } }]
    )
}

#[test]
fn text_is_turned_into_a_binary() {
    assert_eq!(WatParser::parse_str("(module)"), Ok(vec![0x00, 0x61, 0x73, 0x6D, 0x01, 0, 0, 0]));
    let refused = WatParser::parse_str("(module").err().unwrap();
    assert_eq!(
        refused.to_string(),
        "expected `)`\n     --> <anon>:1:8\n      |\n    1 | (module\n      |        ^"
    );
}

#[test]
fn decoding_is_a_function_of_the_bytes() {
    for text in [FUNC_LOCALS, ADD, FUNC_CALL, IMPORT, STORE, DATA] {
        let bytes = wasm(text);
        assert_eq!(WasmParser::parse(&bytes), WasmParser::parse(&bytes.clone()));
    }
}

fn header(rest: &[u8]) -> Vec<u8> {
    let mut bytes = vec![0x00, 0x61, 0x73, 0x6D, 0x01, 0x00, 0x00, 0x00];
    bytes.extend_from_slice(rest);
    bytes
}

#[test]
fn section_errors() {
    assert_eq!(WasmParser::parse(&header(&[0x0C, 0x00])), Err(WasmParseError::InvalidSectionCode(0x0C)));
    assert_eq!(WasmParser::parse(&header(&[0x04, 0x00])), Err(WasmParseError::InvalidSectionCode(0x04)));
    assert_eq!(WasmParser::parse(&header(&[0x01])), Err(WasmParseError::UnexpectedEndOfFile));
    assert_eq!(
        WasmParser::parse(&header(&[0x01, 0x80, 0x00])),
        Err(WasmParseError::InvalidLEB128Encoding)
    );
    assert_eq!(
        WasmParser::parse(&header(&[0x01, 0x04, 0x01, 0x60, 0x01, 0x7D])),
        Err(WasmParseError::InvalidValueType(0x7D))
    );
    assert_eq!(
        WasmParser::parse(&header(&[0x02, 0x05, 0x01, 0x00, 0x00, 0x01, 0x00])),
        Err(WasmParseError::InvalidImportDescriptor(0x01))
    );
    assert_eq!(
        WasmParser::parse(&header(&[0x07, 0x04, 0x01, 0x00, 0x02, 0x00])),
        Err(WasmParseError::InvalidExportDescriptor(0x02))
    );
    assert_eq!(
        WasmParser::parse(&header(&[0x0A, 0x04, 0x01, 0x02, 0x00, 0x06])),
        Err(WasmParseError::InvalidOpcode(0x06))
    );
    assert_eq!(
        WasmParser::parse(&header(&[0x03, 0x03, 0x01, 0x00])),
        Err(WasmParseError::OutOfBounds)
    );
    assert_eq!(
        WasmParser::parse(&header(&[0x0A, 0x05, 0x01, 0x02, 0x00, 0x20, 0x00])),
        Err(WasmParseError::OutOfBounds)
    );
    assert_eq!(WasmParser::parse(&header(&[0x00, 0x05, 0x01])), Err(WasmParseError::UnexpectedEndOfFile));
}

#[test]
fn a_later_section_takes_the_place_of_an_earlier_one() {
    let module = WasmParser::parse(&header(&[0x03, 0x02, 0x01, 0x05, 0x03, 0x03, 0x02, 0x07, 0x08]))
        .unwrap();
    assert_eq!(module.functions, [7, 8]);
}

#[test]
fn custom_sections_are_kept() {
    let module = WasmParser::parse(&header(&[
        0x00, 0x03, 0x01, 0x61, 0xFF, 0x03, 0x02, 0x01, 0x00, 0x00, 0x00, 0x00, 0x01, 0x07,
    ]))
    .unwrap();
    assert_eq!(
        module.customs,
        [
            WasmCustom { name: String::new(), data: vec![0x01, 0x61, 0xFF] },
            WasmCustom { name: String::new(), data: vec![] },
            WasmCustom { name: String::new(), data: vec![0x07] },
        ]
    );
    assert_eq!(module.functions, [0]);
}

fn decode(bytes: &[u8]) -> Result<WasmInstruction, WasmParseError> {
    let mut reader = ByteReader::new(bytes);
    parse_instruction(&mut reader)
}

#[test]
fn instructions_are_decoded_with_their_operands() {
    assert_eq!(decode(&[0x6A]), Ok(WasmInstruction::I32Add));
    assert_eq!(decode(&[0x7C]), Ok(WasmInstruction::I64Add));
    assert_eq!(decode(&[0x6D]), Ok(WasmInstruction::I32DivS));
    assert_eq!(decode(&[0x8A]), Ok(WasmInstruction::I64Rotr));
    assert_eq!(decode(&[0xC4]), Ok(WasmInstruction::I64Extend32S));
    assert_eq!(decode(&[0x92]), Ok(WasmInstruction::F32Add));
    assert_eq!(decode(&[0x10, 0x80, 0x01]), Ok(WasmInstruction::Call(128)));
    assert_eq!(decode(&[0x20, 0x03]), Ok(WasmInstruction::LocalGet(3)));
    assert_eq!(decode(&[0x11, 0x01, 0x02]), Ok(WasmInstruction::CallIndirect(1, 2)));
    assert_eq!(decode(&[0x37, 0x03, 0x10]), Ok(WasmInstruction::I64Store { flag: 3, offset: 16 }));
    assert_eq!(decode(&[0x41, 0xC0, 0x00]), Ok(WasmInstruction::I32Const(64)));
    assert_eq!(decode(&[0x41, 0x7F]), Ok(WasmInstruction::I32Const(-1)));
    assert_eq!(
        decode(&[0x42, 0x80, 0x80, 0x80, 0x80, 0x80, 0x80, 0x80, 0x80, 0x80, 0x7F]),
        Ok(WasmInstruction::I64Const(i64::MIN))
    );
    assert_eq!(decode(&[0x43, 0x00, 0x00, 0x80, 0x3F]), Ok(WasmInstruction::F32Const(0x3F80_0000)));
    assert_eq!(
        decode(&[0x44, 0, 0, 0, 0, 0, 0, 0xF0, 0x3F]),
        Ok(WasmInstruction::F64Const(0x3FF0_0000_0000_0000))
    );
    assert_eq!(decode(&[0x0B]), Ok(WasmInstruction::End));
}

#[test]
fn bytes_that_are_no_opcode_are_refused() {
    for op in [0x01u8, 0x04, 0x0F, 0x1B, 0x28, 0x29, 0x3A, 0x8F, 0x95, 0xA8, 0xC5, 0xFC, 0xFF] {
        assert_eq!(decode(&[op, 0x00, 0x00]), Err(WasmParseError::InvalidOpcode(op)));
    }
    assert_eq!(decode(&[]), Err(WasmParseError::UnexpectedEndOfFile));
    assert_eq!(decode(&[0x10]), Err(WasmParseError::UnexpectedEndOfFile));
    assert_eq!(decode(&[0x10, 0x80, 0x00]), Err(WasmParseError::InvalidLEB128Encoding));
}

#[test]
fn instructions_are_lowered() {
    assert_eq!(WasmInstruction::I32Add.lower(), Instruction::AddI32);
    assert_eq!(WasmInstruction::LocalGet(2).lower(), Instruction::LocalGet32(2));
    assert_eq!(WasmInstruction::LocalSet(2).lower(), Instruction::LocalSet32(2));
    assert_eq!(
        WasmInstruction::I32Store { flag: 2, offset: 8 }.lower(),
        Instruction::StoreI32 { flags: 2, offset: 8 }
    );
    assert_eq!(WasmInstruction::I64Const(-5).lower(), Instruction::ConstI64(-5));
    assert_eq!(WasmInstruction::F64Lt.lower(), Instruction::LtF64);
    assert_eq!(WasmInstruction::Drop.lower(), Instruction::Drop32);
}

#[test]
fn limits_and_offsets() {
    let mut reader = ByteReader::new(&[0x00, 0x01, 0x01, 0x02, 0x03]);
    assert_eq!(parse_limits(&mut reader), Ok(WasmResizableLimit { min: 1, max: None }));
    assert_eq!(parse_limits(&mut reader), Ok(WasmResizableLimit { min: 2, max: Some(3) }));
    let mut reader = ByteReader::new(&[0x41, 0x7F, 0x0B, 0x23, 0x00, 0x0B, 0x41, 0x00, 0x1A]);
    assert_eq!(parse_expr(&mut reader), Ok(u32::MAX));
    assert_eq!(parse_expr(&mut reader), Err(WasmParseError::InvalidOpcode(0x23)));
    let mut reader = ByteReader::new(&[0x41, 0x00, 0x1A]);
    assert_eq!(parse_expr(&mut reader), Err(WasmParseError::InvalidOpcode(0x1A)));
    assert_eq!(SectionCode::from_u8(0x0A), Ok(SectionCode::Code));
    assert_eq!(SectionCode::from_u8(0x06), Err(WasmParseError::InvalidSectionCode(0x06)));
}

#[test]
fn parse_errors_have_messages() {
    assert_eq!(WasmParseError::InvalidMagicNumber.to_string(), "Invalid magic number");
    assert_eq!(WasmParseError::UnsupportedVersion(2).to_string(), "Unsupported version: 2");
    assert_eq!(WasmParseError::InvalidOpcode(255).to_string(), "Invalid opcode: 255");
    assert_eq!(WasmParseError::InvalidSectionCode(12).to_string(), "Invalid section code 12");
    assert_eq!(WasmParseError::UnexpectedEndOfFile.to_string(), "Unexpected end of file");
}
