use jump_jet::leb::ReadError;
use jump_jet::parse_tree::functions::FuncBody;
use jump_jet::parse_tree::functions::FuncSignature;
use jump_jet::parse_tree::globals::Global;
use jump_jet::parse_tree::language_types::BlockType;
use jump_jet::parse_tree::language_types::BranchTable;
use jump_jet::parse_tree::language_types::ExternalKind;
use jump_jet::parse_tree::language_types::GlobalType;
use jump_jet::parse_tree::language_types::InitExpression;
use jump_jet::parse_tree::language_types::LanguageType;
use jump_jet::parse_tree::language_types::MemoryImmediate;
use jump_jet::parse_tree::language_types::Operation;
use jump_jet::parse_tree::language_types::ResizableLimits;
use jump_jet::parse_tree::language_types::TableType;
use jump_jet::parse_tree::language_types::ValueType;
use jump_jet::parse_tree::memory::Memory;
use jump_jet::parse_tree::tables::Table;
use jump_jet::parse_tree::types::TypeDefinition;
use jump_jet::parser::utils::read_string;
use jump_jet::parser::utils::swallow_expr;
use jump_jet::parser::ModuleParser;
use jump_jet::parser::ParseError;
use jump_jet::parser::Violation;
use jump_jet::tree::Module;

const HEADER: [u8; 8] = [0x00, 0x61, 0x73, 0x6d, 0x01, 0x00, 0x00, 0x00];

fn module_bytes(sections: &[(u8, Vec<u8>)]) -> Vec<u8> {
    let mut bytes = HEADER.to_vec();
    for (id, payload) in sections {
        bytes.push(*id);
        assert!(payload.len() < 128);
        bytes.push(payload.len() as u8);
        bytes.extend_from_slice(payload);
    }
    bytes
}

fn parse(bytes: &[u8]) -> Result<Module, ParseError> {
    ModuleParser::default().parse_module(bytes)
}

fn add_module() -> Vec<u8> {
    module_bytes(&[
        (1, vec![1, 0x60, 2, 0x7f, 0x7f, 1, 0x7f]),
        (3, vec![1, 0]),
        (7, vec![1, 3, b'a', b'd', b'd', 0x00, 0]),
        (10, vec![1, 7, 0, 0x20, 0, 0x20, 1, 0x6a, 0x0b]),
    ])
}

#[test]
fn empty_module() {
    let m = parse(&HEADER).unwrap();
    assert_eq!(m, Module::new(1));
    assert_eq!(m.version, 1);
    assert!(m.types.is_empty());
    assert_eq!(m.start_function, None);
}

#[test]
fn wrong_magic_number() {
    let mut bytes = HEADER.to_vec();
    bytes[1] = 0x62;
    assert_eq!(parse(&bytes), Err(ParseError::WrongMagicNumber));
}

#[test]
fn unsupported_version() {
    let mut bytes = HEADER.to_vec();
    bytes[4] = 2;
    assert_eq!(parse(&bytes), Err(ParseError::UnsupportedModuleVersion));
}

#[test]
fn truncated_header() {
    assert_eq!(parse(&HEADER[..6]), Err(ParseError::Io(ReadError::UnexpectedEof)));
    assert_eq!(parse(&[]), Err(ParseError::Io(ReadError::UnexpectedEof)));
}

#[test]
fn unknown_section() {
    let bytes = module_bytes(&[(12, vec![0])]);
    assert_eq!(parse(&bytes), Err(ParseError::UnknownSectionId(12)));
    let bytes = module_bytes(&[(0, vec![0])]);
    assert_eq!(parse(&bytes), Err(ParseError::UnknownSectionId(0)));
}

#[test]
fn function_with_export_and_body() {
    let m = parse(&add_module()).unwrap();
    assert_eq!(
        m.types,
        vec![TypeDefinition::Func(FuncSignature {
            parameters: vec![ValueType::I32, ValueType::I32],
            returns: vec![ValueType::I32],
        })]
    );
    assert_eq!(m.function_signatures, vec![0]);
    assert_eq!(m.exports.len(), 1);
    assert_eq!(m.exports[0].field, "add");
    assert_eq!(m.exports[0].kind, ExternalKind::Function(0));
    assert_eq!(
        m.function_bodies,
        vec![FuncBody {
            locals: vec![],
            code: vec![Operation::GetLocal(0), Operation::GetLocal(1), Operation::I32Add, Operation::End],
        }]
    );
}

#[test]
fn type_form_must_be_func() {
    let bytes = module_bytes(&[(1, vec![1, 0x70, 0, 0])]);
    assert_eq!(parse(&bytes), Err(ParseError::CustomError(Violation::FuncTypeRequired)));
}

#[test]
fn locals_are_expanded() {
    let bytes = module_bytes(&[(10, vec![1, 6, 2, 2, 0x7f, 1, 0x7e, 0x0b])]);
    let m = parse(&bytes).unwrap();
    assert_eq!(m.function_bodies[0].locals, vec![ValueType::I32, ValueType::I32, ValueType::I64]);
    assert_eq!(m.function_bodies[0].code, vec![Operation::End]);
}

#[test]
fn nested_blocks_need_their_own_end() {
    // block (empty) i32.const 1 drop end end
    let bytes = module_bytes(&[(10, vec![1, 8, 0, 0x02, 0x40, 0x41, 1, 0x1a, 0x0b, 0x0b])]);
    let m = parse(&bytes).unwrap();
    assert_eq!(
        m.function_bodies[0].code,
        vec![Operation::Block(BlockType::Empty), Operation::I32Const(1), Operation::Drop, Operation::End, Operation::End]
    );
}

#[test]
fn branch_table_and_memory_immediates() {
    // br_table [0 1] default 2; i32.load align 2 offset 8; end
    let bytes = module_bytes(&[(10, vec![1, 10, 0, 0x0e, 2, 0, 1, 2, 0x28, 2, 8, 0x0b])]);
    let m = parse(&bytes).unwrap();
    assert_eq!(
        m.function_bodies[0].code,
        vec![
            Operation::BranchTable(BranchTable { targets: vec![0, 1], default: 2 }),
            Operation::I32Load(MemoryImmediate { flags: 2, offset: 8 }),
            Operation::End,
        ]
    );
}

#[test]
fn unknown_opcode() {
    let bytes = module_bytes(&[(10, vec![1, 2, 0, 0xff])]);
    assert_eq!(parse(&bytes), Err(ParseError::CustomError(Violation::UnknownOpcode)));
}

#[test]
fn body_without_end_runs_out() {
    let bytes = module_bytes(&[(10, vec![1, 2, 0, 0x01])]);
    assert_eq!(parse(&bytes), Err(ParseError::Io(ReadError::UnexpectedEof)));
}

#[test]
fn imports_and_duplicates() {
    let import = vec![1, 3, b'e', b'n', b'v', 1, b'f', 0x00, 0];
    let m = parse(&module_bytes(&[(2, import)])).unwrap();
    assert_eq!(m.imports.len(), 1);
    assert_eq!(m.imports[0].module, "env");
    assert_eq!(m.imports[0].field, "f");
    assert_eq!(m.imports[0].kind, ExternalKind::Function(0));
    let twice = vec![2, 3, b'e', b'n', b'v', 1, b'f', 0x00, 0, 3, b'e', b'n', b'v', 1, b'f', 0x00, 1];
    assert_eq!(parse(&module_bytes(&[(2, twice)])), Err(ParseError::CustomError(Violation::DuplicateImport)));
}

#[test]
fn later_export_replaces_earlier() {
    let exports = vec![2, 1, b'x', 0x00, 0, 1, b'x', 0x02, 0];
    let m = parse(&module_bytes(&[(7, exports)])).unwrap();
    assert_eq!(m.exports.len(), 1);
    assert_eq!(m.exports[0].kind, ExternalKind::Memory(0));
}

#[test]
fn tables_and_elements() {
    let table = vec![1, 0x70, 0, 3];
    let elements = vec![1, 0, 0x41, 1, 0x0b, 2, 7, 9];
    let m = parse(&module_bytes(&[(4, table), (9, elements)])).unwrap();
    assert_eq!(
        m.tables,
        vec![Table::AnyFunc { limits: ResizableLimits { initial: 3, maximum: None }, values: vec![0, 7, 9] }]
    );
}

#[test]
fn element_errors() {
    let table = vec![1, 0x70, 0, 3];
    let past_end = vec![1, 0, 0x41, 2, 0x0b, 2, 7, 9];
    assert_eq!(
        parse(&module_bytes(&[(4, table.clone()), (9, past_end)])),
        Err(ParseError::CustomError(Violation::ElementsOutOfRange))
    );
    let small_max = vec![1, 0x70, 1, 3, 2];
    let fits_table = vec![1, 0, 0x41, 1, 0x0b, 2, 7, 9];
    assert_eq!(
        parse(&module_bytes(&[(4, small_max), (9, fits_table.clone())])),
        Err(ParseError::CustomError(Violation::ElementsPastMaximum))
    );
    assert_eq!(parse(&module_bytes(&[(9, fits_table)])), Err(ParseError::CustomError(Violation::NoTable)));
    let second_table = vec![1, 1, 0x41, 1, 0x0b, 0];
    assert_eq!(
        parse(&module_bytes(&[(4, table.clone()), (9, second_table)])),
        Err(ParseError::CustomError(Violation::OnlyOneTable))
    );
    let not_i32 = vec![1, 0, 0x42, 1, 0x0b, 0];
    assert_eq!(
        parse(&module_bytes(&[(4, table.clone()), (9, not_i32)])),
        Err(ParseError::CustomError(Violation::ElementsInitNotI32))
    );
    let negative = vec![1, 0, 0x41, 0x7f, 0x0b, 0];
    assert_eq!(
        parse(&module_bytes(&[(4, table), (9, negative)])),
        Err(ParseError::CustomError(Violation::ElementsOutOfRange))
    );
}

#[test]
fn table_must_hold_functions() {
    let table = vec![1, 0x7f, 0, 1];
    assert_eq!(parse(&module_bytes(&[(4, table)])), Err(ParseError::CustomError(Violation::TableNotAnyfunc)));
}

#[test]
fn memory_is_zero_filled() {
    let m = parse(&module_bytes(&[(5, vec![1, 0, 1])])).unwrap();
    assert_eq!(m.memories.len(), 1);
    assert_eq!(m.memories[0].limits, ResizableLimits { initial: 1, maximum: None });
    assert_eq!(m.memories[0].values.len(), 65536);
    assert!(m.memories[0].values.iter().all(|b| *b == 0));
    let m = parse(&module_bytes(&[(5, vec![1, 1, 0, 1])])).unwrap();
    assert_eq!(m.memories[0].values.len(), 65536);
    assert_eq!(m.memories[0].limits, ResizableLimits { initial: 0, maximum: Some(1) });
}

#[test]
fn data_is_written_into_memory() {
    let memory = vec![1, 0, 1];
    let data = vec![1, 0, 0x41, 0, 0x0b, 3, 1, 2, 3];
    let m = parse(&module_bytes(&[(5, memory), (11, data)])).unwrap();
    let values = &m.memories[0].values;
    assert_eq!(&values[..4], &[1, 2, 3, 0]);
    // The segment replaces one byte fewer than it holds.
    assert_eq!(values.len(), 65537);
}

#[test]
fn data_errors() {
    let memory = vec![1, 0, 1];
    let not_zero = vec![1, 1, 0x41, 0, 0x0b, 1, 7];
    assert_eq!(
        parse(&module_bytes(&[(5, memory.clone()), (11, not_zero)])),
        Err(ParseError::CustomError(Violation::DataIndexNotZero))
    );
    let empty = vec![1, 0, 0x41, 0, 0x0b, 0];
    assert_eq!(
        parse(&module_bytes(&[(5, memory.clone()), (11, empty)])),
        Err(ParseError::CustomError(Violation::DataOutOfRange))
    );
    let some = vec![1, 0, 0x41, 0, 0x0b, 2, 7, 8];
    assert_eq!(parse(&module_bytes(&[(11, some.clone())])), Err(ParseError::CustomError(Violation::NoMemory)));
    let capped = vec![1, 1, 0, 1];
    assert_eq!(
        parse(&module_bytes(&[(5, capped), (11, some)])),
        Err(ParseError::CustomError(Violation::DataTooBig))
    );
}

#[test]
fn globals_and_init_expressions() {
    let globals = vec![2, 0x7f, 0, 0x41, 42, 0x0b, 0x7d, 1, 0x43, 0x00, 0x00, 0x80, 0x3f, 0x0b];
    let m = parse(&module_bytes(&[(6, globals)])).unwrap();
    assert_eq!(
        m.globals,
        vec![
            Global { constraints: GlobalType { content_type: ValueType::I32, mutability: false }, value: InitExpression::I32Const(42) },
            Global {
                constraints: GlobalType { content_type: ValueType::F32, mutability: true },
                value: InitExpression::F32Const((0x3f80_0000u32 as f32).to_bits()),
            },
        ]
    );
}

#[test]
fn f64_init_expression_bits() {
    let globals = vec![1, 0x7c, 0, 0x44, 0, 0, 0, 0, 0, 0, 0xf0, 0x3f, 0x0b];
    let m = parse(&module_bytes(&[(6, globals)])).unwrap();
    assert_eq!(m.globals[0].value, InitExpression::F64Const((0x3ff0_0000_0000_0000u64 as f64).to_bits()));
}

#[test]
fn global_errors() {
    let mismatch = vec![1, 0x7e, 0, 0x41, 1, 0x0b];
    assert_eq!(
        parse(&module_bytes(&[(6, mismatch)])),
        Err(ParseError::CustomError(Violation::GlobalTypeMismatch))
    );
    let missing_end = vec![1, 0x7f, 0, 0x41, 1, 0x01];
    assert_eq!(parse(&module_bytes(&[(6, missing_end)])), Err(ParseError::CustomError(Violation::BadI32Init)));
}

#[test]
fn start_function() {
    let m = parse(&module_bytes(&[(8, vec![5])])).unwrap();
    assert_eq!(m.start_function, Some(5));
}

#[test]
fn function_needs_existing_signature() {
    assert_eq!(
        parse(&module_bytes(&[(3, vec![1, 0])])),
        Err(ParseError::CustomError(Violation::NoSuchSignature))
    );
}

#[test]
fn section_payload_is_cut_at_its_length() {
    // The start section claims one byte but its index needs two.
    let mut bytes = HEADER.to_vec();
    bytes.extend_from_slice(&[8, 1, 0x80, 0x01]);
    assert_eq!(parse(&bytes), Err(ParseError::Io(ReadError::UnexpectedEof)));
}

#[test]
fn table_type_parse() {
    let (t, p) = TableType::parse(&[0x70, 1, 2, 5], 0).unwrap();
    assert_eq!(t, TableType { elem_type: LanguageType::Anyfunc, limits: ResizableLimits { initial: 2, maximum: Some(5) } });
    assert_eq!(p, 4);
}

#[test]
fn value_type_codes() {
    assert_eq!(ValueType::get(-1), Ok(ValueType::I32));
    assert_eq!(ValueType::get(-2), Ok(ValueType::I64));
    assert_eq!(ValueType::get(-3), Ok(ValueType::F32));
    assert_eq!(ValueType::get(-4), Ok(ValueType::F64));
    assert_eq!(ValueType::get(-5), Err(ParseError::InvalidValueType(-5)));
    assert_eq!(LanguageType::get(-0x40), Ok(LanguageType::EmptyBlock));
    assert_eq!(LanguageType::get(-0x20), Ok(LanguageType::Func));
    assert_eq!(LanguageType::get(-0x10), Ok(LanguageType::Anyfunc));
}

#[test]
fn strings_and_expressions() {
    assert_eq!(read_string(&[3, b'a', b'b', b'c', 9], 0), Ok(("abc".to_string(), 4)));
    assert_eq!(read_string(&[5, b'a', b'b'], 0), Ok(("ab".to_string(), 3)));
    assert_eq!(read_string(&[2, 0xff, 0xfe], 0), Err(ParseError::Io(ReadError::InvalidData)));
    assert_eq!(swallow_expr(&[1, 2, 0x0b, 4], 0), Ok((0, 3)));
    assert_eq!(swallow_expr(&[1, 2], 0), Err(ParseError::Io(ReadError::UnexpectedEof)));
}

#[test]
fn memory_grow_and_size() {
    let mut memory = Memory { limits: ResizableLimits { initial: 0, maximum: None }, values: vec![0; 3] };
    assert_eq!(memory.size(), 3);
    assert_eq!(memory.grow(), 3);
    assert_eq!(memory.values.len(), 65539);
    assert_eq!(memory.size(), 3);
}

#[test]
fn violation_descriptions() {
    assert_eq!(Violation::OnlyOneTable.describe(), "WASM 1.0 only allows 1 table");
    assert_eq!(Violation::DataIndexNotZero.describe(), "Data index must be 0 in wasm 1.0");
}

#[test]
fn failed_section_keeps_the_entries_before_the_failure() {
    // two signatures; the second has an invalid form byte
    let bytes = vec![2, 0x60, 1, 0x7f, 0, 0x40, 0, 0];
    let mut module = Module::new(1);
    assert_eq!(
        jump_jet::parser::types_section::parse(&bytes, 0, &mut module),
        Err(ParseError::CustomError(Violation::FuncTypeRequired))
    );
    assert_eq!(
        module.types,
        vec![TypeDefinition::Func(FuncSignature { parameters: vec![ValueType::I32], returns: vec![] })]
    );
    // a repeated import is refused and not added
    let bytes = vec![2, 1, b'a', 1, b'b', 0, 0, 1, b'a', 1, b'b', 0, 1];
    let mut module = Module::new(1);
    assert_eq!(
        jump_jet::parser::imports_section::parse(&bytes, 0, &mut module),
        Err(ParseError::CustomError(Violation::DuplicateImport))
    );
    assert_eq!(module.imports.len(), 1);
}

#[test]
fn float_immediates_are_converted_as_numbers() {
    for n in [0u32, 1, 2, 0x00ff_ffff, 0x0100_0001, 0x0100_0003, 0x7fff_ffbf, 0x7fff_ffc0, 0xffff_ff80, u32::MAX, 0x3f80_0000] {
        let globals = vec![1, 0x7d, 0, 0x43, n as u8, (n >> 8) as u8, (n >> 16) as u8, (n >> 24) as u8, 0x0b];
        let m = parse(&module_bytes(&[(6, globals)])).unwrap();
        assert_eq!(m.globals[0].value, InitExpression::F32Const((n as f32).to_bits()));
    }
    for n in [0u64, 5, (1 << 53) + 1, (1 << 53) + 3, u64::MAX, 0x3ff0_0000_0000_0000, 0x8000_0000_0000_0400] {
        let mut globals = vec![1, 0x7c, 0, 0x44];
        globals.extend_from_slice(&n.to_le_bytes());
        globals.push(0x0b);
        let m = parse(&module_bytes(&[(6, globals)])).unwrap();
        assert_eq!(m.globals[0].value, InitExpression::F64Const((n as f64).to_bits()));
    }
}
