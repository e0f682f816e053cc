use jump_jet::parse_tree::functions::FuncSignature;
use jump_jet::parse_tree::language_types::Block;
use jump_jet::parse_tree::language_types::BlockType;
use jump_jet::parse_tree::language_types::BranchTable;
use jump_jet::parse_tree::language_types::Instruction;
use jump_jet::parse_tree::language_types::MemoryImmediate;
use jump_jet::parse_tree::language_types::Operation;
use jump_jet::parse_tree::language_types::ResizableLimits;
use jump_jet::parse_tree::language_types::ValueType;
use jump_jet::parse_tree::memory::Memory;
use jump_jet::parse_tree::tables::Table;
use jump_jet::parse_tree::types::TypeDefinition;
use jump_jet::parser::ModuleParser;
use jump_jet::parser::ParseError;
use jump_jet::parser::Violation;
use jump_jet::runtime_tree::execute::call_export;
use jump_jet::runtime_tree::execute::call_fn;
use jump_jet::tree::exports::exported_function;
use jump_jet::tree::exports::ExportEntry;
use jump_jet::tree::imports::function_import_names;
use jump_jet::runtime_tree::execute::Execute;
use jump_jet::runtime_tree::functions::nest;
use jump_jet::runtime_tree::language_types::StackFrame;
use jump_jet::runtime_tree::language_types::Trap;
use jump_jet::runtime_tree::language_types::ValueTypeProvider;
use jump_jet::runtime_tree::host::no_host;
use jump_jet::runtime_tree::Func;
use jump_jet::runtime_tree::ModuleInstanceData;
use jump_jet::runtime_tree::ModuleTemplate;
use jump_jet::runtime_tree::exports::ExportObject;
use jump_jet::runtime_tree::ModuleTemplateBuilder;
use jump_jet::runtime::exports::ValueTypeProvider as HostValue;
use jump_jet::runtime::instantiate;
use jump_jet::parse_tree::language_types::ExternalKind;

const FUEL: u64 = 1000;

fn frame() -> StackFrame<'static> {
    let functions: &'static Vec<Func> = Box::leak(Box::new(Vec::new()));
    StackFrame::new(ModuleInstanceData::new(functions), vec![], vec![])
}

fn make_block(block_type: BlockType, operations: Vec<Instruction>) -> Block {
    Block { block_type, operations }
}

fn op(o: Operation) -> Instruction {
    Instruction::Op(o)
}

fn setup_memory(sf: &mut StackFrame, start: usize, bytes: Vec<u8>) {
    sf.data.memories.push(Memory { limits: ResizableLimits { initial: 1, maximum: None }, values: vec![0; 65536] });
    let end = bytes.len();
    sf.data.memories[0].values.splice(start..end, bytes);
}

#[test]
#[should_panic]
fn unreachable_panics() {
        let mut sf = frame();
        let block = make_block(BlockType::Empty, vec![op(Operation::Unreachable)]);
        block.execute(&mut sf, &no_host, FUEL).unwrap();
    }

#[test]
fn nop_does_nothing() {
        let mut sf = frame();
        let block = make_block(BlockType::Empty, vec![op(Operation::Nop)]);
        block.execute(&mut sf, &no_host, FUEL).unwrap();
        // TODO actually check that the sf hasn't changed?
    }

#[test]
fn block_executes() {
        let mut sf = frame();
        let block = make_block(BlockType::Value(ValueType::I32), vec![Instruction::Block(make_block(BlockType::Value(ValueType::I32), vec![op(Operation::I32Const(1))]))]);
        block.execute(&mut sf, &no_host, FUEL).unwrap();
        assert_eq!(sf.stack.pop(), Some(ValueTypeProvider::I32(1)));
    }

#[test]
fn loop_runs_multiple_times() {
        let mut sf = frame();
        let block = make_block(BlockType::Empty, vec![op(Operation::I32Const(42)), op(Operation::I32Const(0)), op(Operation::I32Const(1)), op(Operation::I32Const(2)), op(Operation::I32Const(3)), Instruction::Loop(make_block(BlockType::Value(ValueType::I32), vec![op(Operation::I32Eqz), op(Operation::BranchIf(1)), op(Operation::End)])), op(Operation::End)]);
        block.execute(&mut sf, &no_host, FUEL).unwrap();
        assert_eq!(sf.stack, vec![ValueTypeProvider::I32(42)]);
    }

#[test]
fn if_true_i32() {
        let mut sf = frame();
        let block = make_block(BlockType::Value(ValueType::I32), vec![op(Operation::I32Const(1)), Instruction::If(make_block(BlockType::Empty, vec![op(Operation::I32Const(3)), op(Operation::I32Const(3)), op(Operation::I32Add), op(Operation::Else), op(Operation::End)])), op(Operation::End)]);
        block.execute(&mut sf, &no_host, FUEL).unwrap();
        assert_eq!(sf.stack, vec![ValueTypeProvider::I32(6)]);
    }

#[test]
fn if_false_else_i32() {
        let mut sf = frame();
        let block = make_block(BlockType::Value(ValueType::I32), vec![op(Operation::I32Const(0)), Instruction::If(make_block(BlockType::Empty, vec![op(Operation::Else), op(Operation:: I32Const(42)), op(Operation::End)])), op(Operation::End)]);
        block.execute(&mut sf, &no_host, FUEL).unwrap();
        assert_eq!(sf.stack, vec![ValueTypeProvider::I32(42)]);
    }

#[test]
fn end_stops_execution() {
        let mut sf = frame();
        let block = make_block(BlockType::Value(ValueType::I32), vec![op(Operation::End), op(Operation::I32Const(0))]);
        block.execute(&mut sf, &no_host, FUEL).unwrap();
        assert_eq!(sf.stack, vec![]);
    }

#[test]
fn branch_leaves_block() {
        let mut sf = frame();
        let block = make_block(BlockType::Value(ValueType::I32), vec![Instruction::Block(make_block(BlockType::Empty, vec![op(Operation::I32Const(42)), op(Operation::Branch(1)), op(Operation::I32Const(13)), op(Operation::End)])), op(Operation::End)]);
        block.execute(&mut sf, &no_host, FUEL).unwrap();
        assert_eq!(sf.stack, vec![ValueTypeProvider::I32(42)]);
    }

#[test]
fn branch_if_true_leaves() {
        let mut sf = frame();
        let block = make_block(BlockType::Value(ValueType::I32), vec![Instruction::Block(make_block(BlockType::Empty, vec![op(Operation::I32Const(42)), op(Operation::I32Const(1)), op(Operation::BranchIf(1)), op(Operation::I32Const(13)), op(Operation::End)])), op(Operation::End)]);
        block.execute(&mut sf, &no_host, FUEL).unwrap();
        assert_eq!(sf.stack, vec![ValueTypeProvider::I32(42)]);
    }

#[test]
fn branch_if_false_continues() {
        let mut sf = frame();
        let block = make_block(BlockType::Value(ValueType::I32), vec![Instruction::Block(make_block(BlockType::Empty, vec![op(Operation::I32Const(0)), op(Operation::BranchIf(1)), op(Operation::I32Const(42)), op(Operation::End)])), op(Operation::End)]);
        block.execute(&mut sf, &no_host, FUEL).unwrap();
        assert_eq!(sf.stack, vec![ValueTypeProvider::I32(42)]);
    }

#[test]
fn branch_table_within_bounds_branches() {
        let mut sf = frame();
        let block = make_block(BlockType::Value(ValueType::I32), vec![Instruction::Block(make_block(BlockType::Empty, vec![Instruction::Block(make_block(BlockType::Empty, vec![op(Operation::I32Const(42)), op(Operation::I32Const(0)), op(Operation::BranchTable(BranchTable {
                        default: 0,
                        targets: vec![2]
                    })), op(Operation::I32Const(13)), op(Operation::End)])), op(Operation::I32Const(13)), op(Operation::End)])), op(Operation::I32Const(42)), op(Operation::End)]);
        block.execute(&mut sf, &no_host, FUEL).unwrap();
        assert_eq!(sf.stack, vec![ValueTypeProvider::I32(42), ValueTypeProvider::I32(42)]);
    }

#[test]
fn branch_table_outside_bounds_branches_default() {
        let mut sf = frame();
        let block = make_block(BlockType::Value(ValueType::I32), vec![Instruction::Block(make_block(BlockType::Empty, vec![Instruction::Block(make_block(BlockType::Empty, vec![op(Operation::I32Const(1)), op(Operation::BranchTable(BranchTable {
                        default: 0,
                        targets: vec![2]
                    })), op(Operation::I32Const(13)), op(Operation::End)])), op(Operation::I32Const(42)), op(Operation::End)])), op(Operation::I32Const(42)), op(Operation::End)]);
        block.execute(&mut sf, &no_host, FUEL).unwrap();
        assert_eq!(sf.stack, vec![ValueTypeProvider::I32(42), ValueTypeProvider::I32(42)]);
    }

#[test]
fn drop_value_from_stack() {
        let mut sf = frame();
        let block = make_block(BlockType::Value(ValueType::I32), vec![op(Operation::I32Const(0)), op(Operation::Drop), op(Operation::End)]);
        block.execute(&mut sf, &no_host, FUEL).unwrap();
        assert_eq!(sf.stack, vec![]);
    }

#[test]
fn select_value_true() {
        let mut sf = frame();
        let block = make_block(BlockType::Value(ValueType::I32), vec![op(Operation::I32Const(1)), op(Operation::I32Const(13)), op(Operation::I32Const(42)), op(Operation::Select), op(Operation::End)]);
        block.execute(&mut sf, &no_host, FUEL).unwrap();
        assert_eq!(sf.stack, vec![ValueTypeProvider::I32(42)]);
    }

#[test]
fn select_value_false() {
        let mut sf = frame();
        let block = make_block(BlockType::Value(ValueType::I32), vec![op(Operation::I32Const(0)), op(Operation::I32Const(42)), op(Operation::I32Const(13)), op(Operation::Select), op(Operation::End)]);
        block.execute(&mut sf, &no_host, FUEL).unwrap();
        assert_eq!(sf.stack, vec![ValueTypeProvider::I32(42)]);
    }

#[test]
fn get_local() {
        let mut sf = frame();
        sf.locals.push(ValueTypeProvider::I32(42));
        let block = make_block(BlockType::Value(ValueType::I32), vec![op(Operation::GetLocal(0)), op(Operation::End)]);
        block.execute(&mut sf, &no_host, FUEL).unwrap();
        assert_eq!(sf.stack, vec![ValueTypeProvider::I32(42)]);
    }

#[test]
fn set_local() {
        let mut sf = frame();
        sf.locals.push(ValueTypeProvider::I32(13));
        let block = make_block(BlockType::Value(ValueType::I32), vec![op(Operation::I32Const(42)), op(Operation::SetLocal(0)), op(Operation::End)]);
        block.execute(&mut sf, &no_host, FUEL).unwrap();
        assert_eq!(sf.locals, vec![ValueTypeProvider::I32(42)]);
        assert_eq!(sf.stack, vec![]);
    }

#[test]
fn tee_local() {
        let mut sf = frame();
        sf.locals.push(ValueTypeProvider::I32(13));
        let block = make_block(BlockType::Value(ValueType::I32), vec![op(Operation::I32Const(42)), op(Operation::TeeLocal(0)), op(Operation::End)]);
        block.execute(&mut sf, &no_host, FUEL).unwrap();
        assert_eq!(sf.locals, vec![ValueTypeProvider::I32(42)]);
        assert_eq!(sf.stack, vec![ValueTypeProvider::I32(42)]);
    }

#[test]
fn get_global() {
        let mut sf = frame();
        sf.data.globals.push(ValueTypeProvider::I32(42));
        let block = make_block(BlockType::Value(ValueType::I32), vec![op(Operation::GetGlobal(0)), op(Operation::End)]);
        block.execute(&mut sf, &no_host, FUEL).unwrap();
        assert_eq!(sf.stack, vec![ValueTypeProvider::I32(42)]);
    }

#[test]
fn set_global() {
        let mut sf = frame();
        sf.data.globals.push(ValueTypeProvider::I32(13));
        let block = make_block(BlockType::Value(ValueType::I32), vec![op(Operation::I32Const(42)), op(Operation::SetGlobal(0)), op(Operation::End)]);
        block.execute(&mut sf, &no_host, FUEL).unwrap();
        assert_eq!(sf.data.globals, vec![ValueTypeProvider::I32(42)]);
    }

#[test]
fn load_i32_from_memory() {
        {
            let mut sf = frame();
            setup_memory(&mut sf, 0, vec![42]);
            let block = make_block(BlockType::Value(ValueType::I32), vec![op(Operation::I32Load(MemoryImmediate {
                    flags: 0,
                    offset: 0
                })), op(Operation::End)]);
            block.execute(&mut sf, &no_host, FUEL).unwrap();
            assert_eq!(sf.stack, vec![ValueTypeProvider::I32(42)]);
        }
        {
            let mut sf = frame();
            setup_memory(&mut sf, 0, vec![0xef, 0xbe, 0xad, 0xde, 0xff]); // ff isn't read
            let block = make_block(BlockType::Value(ValueType::I32), vec![op(Operation::I32Load(MemoryImmediate {
                    flags: 0,
                    offset: 0
                })), op(Operation::End)]);
            block.execute(&mut sf, &no_host, FUEL).unwrap();
            assert_eq!(sf.stack, vec![ValueTypeProvider::I32(0xdeadbeefu32 as i32)]);
        }
        {
            let mut sf = frame();
            setup_memory(&mut sf, 3, vec![0xef, 0xbe, 0xad, 0xde, 0xff]); // ff isn't read
            let block = make_block(BlockType::Value(ValueType::I32), vec![op(Operation::I32Load(MemoryImmediate {
                    flags: 0,
                    offset: 3
                })), op(Operation::End)]);
            block.execute(&mut sf, &no_host, FUEL).unwrap();
            assert_eq!(sf.stack, vec![ValueTypeProvider::I32(0xdeadbeefu32 as i32)]);
        }
    }

#[test]
fn load_i64_from_memory() {
        {
            let mut sf = frame();
            setup_memory(&mut sf, 0, vec![42]);
            let block = make_block(BlockType::Value(ValueType::I32), vec![op(Operation::I64Load(MemoryImmediate {
                    flags: 0,
                    offset: 0
                })), op(Operation::End)]);
            block.execute(&mut sf, &no_host, FUEL).unwrap();
            assert_eq!(sf.stack, vec![ValueTypeProvider::I64(42)]);
        }
        {
            let mut sf = frame();
            setup_memory(&mut sf, 0, vec![0xef, 0xbe, 0xad, 0xde, 0xbe, 0xba, 0xfe, 0xca, 0xff]); // ff isn't read
            let block = make_block(BlockType::Value(ValueType::I64), vec![op(Operation::I64Load(MemoryImmediate {
                    flags: 0,
                    offset: 0
                })), op(Operation::End)]);
            block.execute(&mut sf, &no_host, FUEL).unwrap();
            assert_eq!(sf.stack, vec![ValueTypeProvider::I64(0xcafebabedeadbeefu64 as i64)]);
        }
    }

#[test]
fn load_f32_from_memory() {
        let mut sf = frame();
        setup_memory(&mut sf, 0, vec![0xc3, 0xf5, 0x48, 0x40]);
        let block = make_block(BlockType::Value(ValueType::I32), vec![op(Operation::F32Load(MemoryImmediate {
                flags: 0,
                offset: 0
            })), op(Operation::End)]);
        block.execute(&mut sf, &no_host, FUEL).unwrap();
        assert_eq!(sf.stack, vec![ValueTypeProvider::F32(3.14f32.to_bits())]);
    }

#[test]
fn load_f64_from_memory() {
        let mut sf = frame();
        setup_memory(&mut sf, 0, vec![0x81, 0xf6, 0x97, 0x9b, 0x77, 0xe3, 0xf9, 0x3f]);
        let block = make_block(BlockType::Value(ValueType::F64), vec![op(Operation::F64Load(MemoryImmediate {
                flags: 0,
                offset: 0
            })), op(Operation::End)]);
        block.execute(&mut sf, &no_host, FUEL).unwrap();
        assert_eq!(sf.stack, vec![ValueTypeProvider::F64(1.61803398875f64.to_bits())]);
    }

#[test]
fn i32_loaders() {
        { // I32Load8S
            let mut sf = frame();
            setup_memory(&mut sf, 0, vec![-42i8 as u8]);
            let block = make_block(BlockType::Value(ValueType::I32), vec![op(Operation::I32Load8S(MemoryImmediate {
                    flags: 0,
                    offset: 0
                })), op(Operation::End)]);
            block.execute(&mut sf, &no_host, FUEL).unwrap();
            assert_eq!(sf.stack, vec![ValueTypeProvider::I32(-42)]);
        }
        { // I32Load8U
            let mut sf = frame();
            setup_memory(&mut sf, 0, vec![42]);
            let block = make_block(BlockType::Value(ValueType::I32), vec![op(Operation::I32Load8U(MemoryImmediate {
                    flags: 0,
                    offset: 0
                })), op(Operation::End)]);
            block.execute(&mut sf, &no_host, FUEL).unwrap();
            assert_eq!(sf.stack, vec![ValueTypeProvider::I32(42)]);
        }
        { // I32Load16S
            let mut sf = frame();
            setup_memory(&mut sf, 0, vec![0x00, 0x83]);
            let block = make_block(BlockType::Value(ValueType::I32), vec![op(Operation::I32Load16S(MemoryImmediate {
                    flags: 0,
                    offset: 0
                })), op(Operation::End)]);
            block.execute(&mut sf, &no_host, FUEL).unwrap();
            assert_eq!(sf.stack, vec![ValueTypeProvider::I32(-32000)]);
        }
        { // I32Load16U
            let mut sf = frame();
            setup_memory(&mut sf, 0, vec![0x00, 0x7d]);
            let block = make_block(BlockType::Value(ValueType::I32), vec![op(Operation::I32Load16U(MemoryImmediate {
                    flags: 0,
                    offset: 0
                })), op(Operation::End)]);
            block.execute(&mut sf, &no_host, FUEL).unwrap();
            assert_eq!(sf.stack, vec![ValueTypeProvider::I32(32000)]);
        }
    }

#[test]
fn i64_loaders() {
        { // I64Load8S
            let mut sf = frame();
            setup_memory(&mut sf, 0, vec![-42i8 as u8]);
            let block = make_block(BlockType::Value(ValueType::I32), vec![op(Operation::I64Load8S(MemoryImmediate {
                    flags: 0,
                    offset: 0
                })), op(Operation::End)]);
            block.execute(&mut sf, &no_host, FUEL).unwrap();
            assert_eq!(sf.stack, vec![ValueTypeProvider::I64(-42)]);
        }
        { // I64Load8U
            let mut sf = frame();
            setup_memory(&mut sf, 0, vec![42]);
            let block = make_block(BlockType::Value(ValueType::I32), vec![op(Operation::I64Load8U(MemoryImmediate {
                    flags: 0,
                    offset: 0
                })), op(Operation::End)]);
            block.execute(&mut sf, &no_host, FUEL).unwrap();
            assert_eq!(sf.stack, vec![ValueTypeProvider::I64(42)]);
        }
        { // I64Load16S
            let mut sf = frame();
            setup_memory(&mut sf, 0, vec![0x00, 0x83]);
            let block = make_block(BlockType::Value(ValueType::I32), vec![op(Operation::I64Load16S(MemoryImmediate {
                    flags: 0,
                    offset: 0
                })), op(Operation::End)]);
            block.execute(&mut sf, &no_host, FUEL).unwrap();
            assert_eq!(sf.stack, vec![ValueTypeProvider::I64(-32000)]);
        }
        { // I64Load16U
            let mut sf = frame();
            setup_memory(&mut sf, 0, vec![0x00, 0x7d]);
            let block = make_block(BlockType::Value(ValueType::I32), vec![op(Operation::I64Load16U(MemoryImmediate {
                    flags: 0,
                    offset: 0
                })), op(Operation::End)]);
            block.execute(&mut sf, &no_host, FUEL).unwrap();
            assert_eq!(sf.stack, vec![ValueTypeProvider::I64(32000)]);
        }
        { // I64Load32S
            let mut sf = frame();
            setup_memory(&mut sf, 0, vec![0x2e, 0xfd, 0x69, 0xb6]);
            let block = make_block(BlockType::Value(ValueType::I32), vec![op(Operation::I64Load32S(MemoryImmediate {
                    flags: 0,
                    offset: 0
                })), op(Operation::End)]);
            block.execute(&mut sf, &no_host, FUEL).unwrap();
            assert_eq!(sf.stack, vec![ValueTypeProvider::I64(-1234567890)]);
        }
        { // I64Load32U
            let mut sf = frame();
            setup_memory(&mut sf, 0, vec![0xD2, 0x02, 0x96, 0x49]);
            let block = make_block(BlockType::Value(ValueType::I32), vec![op(Operation::I64Load32U(MemoryImmediate {
                    flags: 0,
                    offset: 0
                })), op(Operation::End)]);
            block.execute(&mut sf, &no_host, FUEL).unwrap();
            assert_eq!(sf.stack, vec![ValueTypeProvider::I64(1234567890)]);
        }
    }

#[test]
fn basic_number_store_ops() {
        { // I32Store
            let mut sf = frame();
            setup_memory(&mut sf, 0, vec![]);
            let block = make_block(BlockType::Value(ValueType::I32), vec![op(Operation::I32Const(1234567890)), op(Operation::I32Store(MemoryImmediate {
                    flags: 0,
                    offset: 0
                })), op(Operation::End)]);
            block.execute(&mut sf, &no_host, FUEL).unwrap();
            assert_eq!(sf.data.memories[0].values[0..5], [0xD2, 0x02, 0x96, 0x49, 0x00]);
        }
        { // I64Store
            let mut sf = frame();
            setup_memory(&mut sf, 0, vec![]);
            let block = make_block(BlockType::Value(ValueType::I32), vec![op(Operation::I64Const(0x123456789abcdef0)), op(Operation::I64Store(MemoryImmediate {
                    flags: 0,
                    offset: 0
                })), op(Operation::End)]);
            block.execute(&mut sf, &no_host, FUEL).unwrap();
            assert_eq!(sf.data.memories[0].values[0..9], [0xf0, 0xde, 0xbc, 0x9a, 0x78, 0x56, 0x34, 0x12, 0x00]);
        }
        { // F32Store
            let mut sf = frame();
            setup_memory(&mut sf, 0, vec![]);
            let block = make_block(BlockType::Value(ValueType::I32), vec![op(Operation::F32Const(3.1415f32.to_bits())), op(Operation::F32Store(MemoryImmediate {
                    flags: 0,
                    offset: 0
                })), op(Operation::End)]);
            block.execute(&mut sf, &no_host, FUEL).unwrap();
            assert_eq!(sf.data.memories[0].values[0..5], [0x56, 0x0e, 0x49, 0x40, 0x00]);
        }
        { // F64Store
            let mut sf = frame();
            setup_memory(&mut sf, 0, vec![]);
            let block = make_block(BlockType::Value(ValueType::I32), vec![op(Operation::F64Const(1.61803398875f64.to_bits())), op(Operation::F64Store(MemoryImmediate {
                    flags: 0,
                    offset: 0
                })), op(Operation::End)]);
            block.execute(&mut sf, &no_host, FUEL).unwrap();
            assert_eq!(sf.data.memories[0].values[0..9], [0x81, 0xf6, 0x97, 0x9b, 0x77, 0xe3, 0xf9, 0x3f, 0x00]);
        }
    }

#[test]
fn int_store_ops() {
        { // I32Store8

            let mut sf = frame();
            setup_memory(&mut sf, 0, vec![]);
            let block = make_block(BlockType::Value(ValueType::I32), vec![op(Operation::I32Const(42)), op(Operation::I32Store8(MemoryImmediate {
                    flags: 0,
                    offset: 0
                })), op(Operation::End)]);
            block.execute(&mut sf, &no_host, FUEL).unwrap();
            assert_eq!(sf.data.memories[0].values[0..2], [42, 0x00]);
        }
        { // I32Store8
            let mut sf = frame();
            setup_memory(&mut sf, 0, vec![]);
            let block = make_block(BlockType::Value(ValueType::I32), vec![op(Operation::I32Const(0xff42)), op(Operation::I32Store8(MemoryImmediate {
                    flags: 0,
                    offset: 0
                })), op(Operation::End)]);
            block.execute(&mut sf, &no_host, FUEL).unwrap();
            assert_eq!(sf.data.memories[0].values[0..2], [0x42, 0x00]);
        }
        { // I32Store16
            let mut sf = frame();
            setup_memory(&mut sf, 0, vec![]);
            let block = make_block(BlockType::Value(ValueType::I32), vec![op(Operation::I32Const(0xbeef)), op(Operation::I32Store(MemoryImmediate {
                    flags: 0,
                    offset: 0
                })), op(Operation::End)]);
            block.execute(&mut sf, &no_host, FUEL).unwrap();
            assert_eq!(sf.data.memories[0].values[0..3], [0xef, 0xbe, 0x00]);
        }
        { // I64Store8
            let mut sf = frame();
            setup_memory(&mut sf, 0, vec![]);
            let block = make_block(BlockType::Value(ValueType::I32), vec![op(Operation::I64Const(42)), op(Operation::I64Store(MemoryImmediate {
                    flags: 0,
                    offset: 0
                })), op(Operation::End)]);
            block.execute(&mut sf, &no_host, FUEL).unwrap();
            assert_eq!(sf.data.memories[0].values[0..2], [42, 0x00]);
        }
        { // I64Store16
            let mut sf = frame();
            setup_memory(&mut sf, 0, vec![]);
            let block = make_block(BlockType::Value(ValueType::I32), vec![op(Operation::I64Const(0xbeef)), op(Operation::I64Store(MemoryImmediate {
                    flags: 0,
                    offset: 0
                })), op(Operation::End)]);
            block.execute(&mut sf, &no_host, FUEL).unwrap();
            assert_eq!(sf.data.memories[0].values[0..3], [0xef, 0xbe, 0x00]);
        }
        { // I64Store32
            let mut sf = frame();
            setup_memory(&mut sf, 0, vec![]);
            let block = make_block(BlockType::Value(ValueType::I32), vec![op(Operation::I64Const(1234567890)), op(Operation::I64Store(MemoryImmediate {
                    flags: 0,
                    offset: 0
                })), op(Operation::End)]);
            block.execute(&mut sf, &no_host, FUEL).unwrap();
            assert_eq!(sf.data.memories[0].values[0..5], [0xD2, 0x02, 0x96, 0x49, 0x00]);
        }
    }

#[test]
fn const_ops() {
        {
            let mut sf = frame();
            let block = make_block(BlockType::Value(ValueType::I32), vec![Instruction::Block(make_block(BlockType::Value(ValueType::I32), vec![op(Operation::I32Const(1))]))]);
            block.execute(&mut sf, &no_host, FUEL).unwrap();
            assert_eq!(sf.stack.pop(), Some(ValueTypeProvider::I32(1)));
        }
        {
            let mut sf = frame();
            let block = make_block(BlockType::Value(ValueType::I64), vec![Instruction::Block(make_block(BlockType::Value(ValueType::I64), vec![op(Operation::I64Const(1))]))]);
            block.execute(&mut sf, &no_host, FUEL).unwrap();
            assert_eq!(sf.stack.pop(), Some(ValueTypeProvider::I64(1)));
        }
        {
            let mut sf = frame();
            let block = make_block(BlockType::Value(ValueType::F32), vec![Instruction::Block(make_block(BlockType::Value(ValueType::F32), vec![op(Operation::F32Const(3.14f32.to_bits()))]))]);
            block.execute(&mut sf, &no_host, FUEL).unwrap();
            assert_eq!(sf.stack.pop(), Some(ValueTypeProvider::F32(3.14f32.to_bits())));
        }
        {
            let mut sf = frame();
            let block = make_block(BlockType::Value(ValueType::F64), vec![Instruction::Block(make_block(BlockType::Value(ValueType::F64), vec![op(Operation::F64Const(3.14f64.to_bits()))]))]);
            block.execute(&mut sf, &no_host, FUEL).unwrap();
            assert_eq!(sf.stack.pop(), Some(ValueTypeProvider::F64(3.14f64.to_bits())));
        }
    }

#[test]
fn i32_comparison_ops() {
        { // I32Eqz
            let mut sf = frame();
            let block = make_block(BlockType::Value(ValueType::I32), vec![Instruction::Block(make_block(BlockType::Value(ValueType::I32), vec![op(Operation::I32Const(0)), op(Operation::I32Eqz), Instruction::If(make_block(BlockType::Empty, vec![op(Operation::I32Const(42)), op(Operation::End)])), op(Operation::End)]))]);
            block.execute(&mut sf, &no_host, FUEL).unwrap();
            assert_eq!(sf.stack, vec![ValueTypeProvider::I32(42)]);
        }
        {
            let mut sf = frame();
            let block = make_block(BlockType::Value(ValueType::I32), vec![Instruction::Block(make_block(BlockType::Value(ValueType::I32), vec![op(Operation::I32Const(13)), op(Operation::I32Eqz), Instruction::If(make_block(BlockType::Empty, vec![op(Operation::I32Const(13)), op(Operation::End)])), op(Operation::I32Const(42)), op(Operation::End)]))]);
            block.execute(&mut sf, &no_host, FUEL).unwrap();
            assert_eq!(sf.stack, vec![ValueTypeProvider::I32(42)]);
        }
        { // I32Eq
            let mut sf = frame();
            let block = make_block(BlockType::Value(ValueType::I32), vec![Instruction::Block(make_block(BlockType::Value(ValueType::I32), vec![op(Operation::I32Const(123)), op(Operation::I32Const(122 + 1)), op(Operation::I32Eq), Instruction::If(make_block(BlockType::Empty, vec![op(Operation::I32Const(42)), op(Operation::End)])), op(Operation::End)]))]);
            block.execute(&mut sf, &no_host, FUEL).unwrap();
            assert_eq!(sf.stack, vec![ValueTypeProvider::I32(42)]);
        }
        {
            let mut sf = frame();
            let block = make_block(BlockType::Value(ValueType::I32), vec![Instruction::Block(make_block(BlockType::Value(ValueType::I32), vec![op(Operation::I32Const(123)), op(Operation::I32Const(999)), op(Operation::I32Eq), Instruction::If(make_block(BlockType::Empty, vec![op(Operation::I32Const(13)), op(Operation::End)])), op(Operation::I32Const(42)), op(Operation::End)]))]);
            block.execute(&mut sf, &no_host, FUEL).unwrap();
            assert_eq!(sf.stack, vec![ValueTypeProvider::I32(42)]);
        }
        { // I32Ne
            let mut sf = frame();
            let block = make_block(BlockType::Value(ValueType::I32), vec![Instruction::Block(make_block(BlockType::Value(ValueType::I32), vec![op(Operation::I32Const(123)), op(Operation::I32Const(999)), op(Operation::I32Ne), Instruction::If(make_block(BlockType::Empty, vec![op(Operation::I32Const(42)), op(Operation::End)])), op(Operation::End)]))]);
            block.execute(&mut sf, &no_host, FUEL).unwrap();
            assert_eq!(sf.stack, vec![ValueTypeProvider::I32(42)]);
        }
        {
            let mut sf = frame();
            let block = make_block(BlockType::Value(ValueType::I32), vec![Instruction::Block(make_block(BlockType::Value(ValueType::I32), vec![op(Operation::I32Const(999)), op(Operation::I32Const(999)), op(Operation::I32Ne), Instruction::If(make_block(BlockType::Empty, vec![op(Operation::I32Const(13)), op(Operation::End)])), op(Operation::I32Const(42)), op(Operation::End)]))]);
            block.execute(&mut sf, &no_host, FUEL).unwrap();
            assert_eq!(sf.stack, vec![ValueTypeProvider::I32(42)]);
        }
        { // I32LtS
            let mut sf = frame();
            let block = make_block(BlockType::Value(ValueType::I32), vec![Instruction::Block(make_block(BlockType::Value(ValueType::I32), vec![op(Operation::I32Const(999)), op(Operation::I32Const(-400)), op(Operation::I32LtS), Instruction::If(make_block(BlockType::Empty, vec![op(Operation::I32Const(42)), op(Operation::End)])), op(Operation::End)]))]);
            block.execute(&mut sf, &no_host, FUEL).unwrap();
            assert_eq!(sf.stack, vec![ValueTypeProvider::I32(42)]);
        }
        {
            let mut sf = frame();
            let block = make_block(BlockType::Value(ValueType::I32), vec![Instruction::Block(make_block(BlockType::Value(ValueType::I32), vec![op(Operation::I32Const(-100)), op(Operation::I32Const(-400)), op(Operation::I32LtS), Instruction::If(make_block(BlockType::Empty, vec![op(Operation::I32Const(42)), op(Operation::End)])), op(Operation::End)]))]);
            block.execute(&mut sf, &no_host, FUEL).unwrap();
            assert_eq!(sf.stack, vec![ValueTypeProvider::I32(42)]);
        }
        { // I32LtU
            let mut sf = frame();
            let block = make_block(BlockType::Value(ValueType::I32), vec![Instruction::Block(make_block(BlockType::Value(ValueType::I32), vec![op(Operation::I32Const(100)), op(Operation::I32Const(50)), op(Operation::I32LtU), Instruction::If(make_block(BlockType::Empty, vec![op(Operation::I32Const(42)), op(Operation::End)])), op(Operation::End)]))]);
            block.execute(&mut sf, &no_host, FUEL).unwrap();
            assert_eq!(sf.stack, vec![ValueTypeProvider::I32(42)]);
        }
        { // I32GtS
            let mut sf = frame();
            let block = make_block(BlockType::Value(ValueType::I32), vec![Instruction::Block(make_block(BlockType::Value(ValueType::I32), vec![op(Operation::I32Const(-400)), op(Operation::I32Const(999)), op(Operation::I32GtS), Instruction::If(make_block(BlockType::Empty, vec![op(Operation::I32Const(42)), op(Operation::End)])), op(Operation::End)]))]);
            block.execute(&mut sf, &no_host, FUEL).unwrap();
            assert_eq!(sf.stack, vec![ValueTypeProvider::I32(42)]);
        }
        {
            let mut sf = frame();
            let block = make_block(BlockType::Value(ValueType::I32), vec![Instruction::Block(make_block(BlockType::Value(ValueType::I32), vec![op(Operation::I32Const(-400)), op(Operation::I32Const(-100)), op(Operation::I32GtS), Instruction::If(make_block(BlockType::Empty, vec![op(Operation::I32Const(42)), op(Operation::End)])), op(Operation::End)]))]);
            block.execute(&mut sf, &no_host, FUEL).unwrap();
            assert_eq!(sf.stack, vec![ValueTypeProvider::I32(42)]);
        }
        { // I32GtU
            let mut sf = frame();
            let block = make_block(BlockType::Value(ValueType::I32), vec![Instruction::Block(make_block(BlockType::Value(ValueType::I32), vec![op(Operation::I32Const(10)), op(Operation::I32Const(50)), op(Operation::I32GtU), Instruction::If(make_block(BlockType::Empty, vec![op(Operation::I32Const(42)), op(Operation::End)])), op(Operation::End)]))]);
            block.execute(&mut sf, &no_host, FUEL).unwrap();
            assert_eq!(sf.stack, vec![ValueTypeProvider::I32(42)]);
        }
        { // I32LeS
            let mut sf = frame();
            let block = make_block(BlockType::Value(ValueType::I32), vec![Instruction::Block(make_block(BlockType::Value(ValueType::I32), vec![op(Operation::I32Const(999)), op(Operation::I32Const(-400)), op(Operation::I32LeS), Instruction::If(make_block(BlockType::Empty, vec![op(Operation::I32Const(42)), op(Operation::End)])), op(Operation::End)]))]);
            block.execute(&mut sf, &no_host, FUEL).unwrap();
            assert_eq!(sf.stack, vec![ValueTypeProvider::I32(42)]);
        }
        {
            let mut sf = frame();
            let block = make_block(BlockType::Value(ValueType::I32), vec![Instruction::Block(make_block(BlockType::Value(ValueType::I32), vec![op(Operation::I32Const(-400)), op(Operation::I32Const(-400)), op(Operation::I32LeS), Instruction::If(make_block(BlockType::Empty, vec![op(Operation::I32Const(42)), op(Operation::End)])), op(Operation::End)]))]);
            block.execute(&mut sf, &no_host, FUEL).unwrap();
            assert_eq!(sf.stack, vec![ValueTypeProvider::I32(42)]);
        }
        { // I32LeU
            let mut sf = frame();
            let block = make_block(BlockType::Value(ValueType::I32), vec![Instruction::Block(make_block(BlockType::Value(ValueType::I32), vec![op(Operation::I32Const(50)), op(Operation::I32Const(50)), op(Operation::I32LeU), Instruction::If(make_block(BlockType::Empty, vec![op(Operation::I32Const(42)), op(Operation::End)])), op(Operation::End)]))]);
            block.execute(&mut sf, &no_host, FUEL).unwrap();
            assert_eq!(sf.stack, vec![ValueTypeProvider::I32(42)]);
        }
        {
            let mut sf = frame();
            let block = make_block(BlockType::Value(ValueType::I32), vec![Instruction::Block(make_block(BlockType::Value(ValueType::I32), vec![op(Operation::I32Const(50)), op(Operation::I32Const(25)), op(Operation::I32LeU), Instruction::If(make_block(BlockType::Empty, vec![op(Operation::I32Const(42)), op(Operation::End)])), op(Operation::End)]))]);
            block.execute(&mut sf, &no_host, FUEL).unwrap();
            assert_eq!(sf.stack, vec![ValueTypeProvider::I32(42)]);
        }
        { // I32GeS
            let mut sf = frame();
            let block = make_block(BlockType::Value(ValueType::I32), vec![Instruction::Block(make_block(BlockType::Value(ValueType::I32), vec![op(Operation::I32Const(999)), op(Operation::I32Const(1000)), op(Operation::I32GeS), Instruction::If(make_block(BlockType::Empty, vec![op(Operation::I32Const(42)), op(Operation::End)])), op(Operation::End)]))]);
            block.execute(&mut sf, &no_host, FUEL).unwrap();
            assert_eq!(sf.stack, vec![ValueTypeProvider::I32(42)]);
        }
        {
            let mut sf = frame();
            let block = make_block(BlockType::Value(ValueType::I32), vec![Instruction::Block(make_block(BlockType::Value(ValueType::I32), vec![op(Operation::I32Const(-400)), op(Operation::I32Const(-400)), op(Operation::I32GeS), Instruction::If(make_block(BlockType::Empty, vec![op(Operation::I32Const(42)), op(Operation::End)])), op(Operation::End)]))]);
            block.execute(&mut sf, &no_host, FUEL).unwrap();
            assert_eq!(sf.stack, vec![ValueTypeProvider::I32(42)]);
        }
        { // I32GeU
            let mut sf = frame();
            let block = make_block(BlockType::Value(ValueType::I32), vec![Instruction::Block(make_block(BlockType::Value(ValueType::I32), vec![op(Operation::I32Const(999)), op(Operation::I32Const(1000)), op(Operation::I32GeU), Instruction::If(make_block(BlockType::Empty, vec![op(Operation::I32Const(42)), op(Operation::End)])), op(Operation::End)]))]);
            block.execute(&mut sf, &no_host, FUEL).unwrap();
            assert_eq!(sf.stack, vec![ValueTypeProvider::I32(42)]);
        }
        {
            let mut sf = frame();
            let block = make_block(BlockType::Value(ValueType::I32), vec![Instruction::Block(make_block(BlockType::Value(ValueType::I32), vec![op(Operation::I32Const(400)), op(Operation::I32Const(400)), op(Operation::I32GeU), Instruction::If(make_block(BlockType::Empty, vec![op(Operation::I32Const(42)), op(Operation::End)])), op(Operation::End)]))]);
            block.execute(&mut sf, &no_host, FUEL).unwrap();
            assert_eq!(sf.stack, vec![ValueTypeProvider::I32(42)]);
        }
    }

#[test]
fn i64_comparison_ops() {
        { // I64Eqz
            let mut sf = frame();
            let block = make_block(BlockType::Value(ValueType::I64), vec![Instruction::Block(make_block(BlockType::Value(ValueType::I64), vec![op(Operation::I64Const(0)), op(Operation::I64Eqz), Instruction::If(make_block(BlockType::Empty, vec![op(Operation::I32Const(42)), op(Operation::End)])), op(Operation::End)]))]);
            block.execute(&mut sf, &no_host, FUEL).unwrap();
            assert_eq!(sf.stack, vec![ValueTypeProvider::I32(42)]);
        }
        {
            let mut sf = frame();
            let block = make_block(BlockType::Value(ValueType::I64), vec![Instruction::Block(make_block(BlockType::Value(ValueType::I32), vec![op(Operation::I64Const(13)), op(Operation::I64Eqz), Instruction::If(make_block(BlockType::Empty, vec![op(Operation::I32Const(13)), op(Operation::End)])), op(Operation::I32Const(42)), op(Operation::End)]))]);
            block.execute(&mut sf, &no_host, FUEL).unwrap();
            assert_eq!(sf.stack, vec![ValueTypeProvider::I32(42)]);
        }
        { // I64Eq
            let mut sf = frame();
            let block = make_block(BlockType::Value(ValueType::I32), vec![Instruction::Block(make_block(BlockType::Value(ValueType::I32), vec![op(Operation::I64Const(123)), op(Operation::I64Const(122 + 1)), op(Operation::I64Eq), Instruction::If(make_block(BlockType::Empty, vec![op(Operation::I32Const(42)), op(Operation::End)])), op(Operation::End)]))]);
            block.execute(&mut sf, &no_host, FUEL).unwrap();
            assert_eq!(sf.stack, vec![ValueTypeProvider::I32(42)]);
        }
        {
            let mut sf = frame();
            let block = make_block(BlockType::Value(ValueType::I32), vec![Instruction::Block(make_block(BlockType::Value(ValueType::I32), vec![op(Operation::I64Const(123)), op(Operation::I64Const(999)), op(Operation::I64Eq), Instruction::If(make_block(BlockType::Empty, vec![op(Operation::I32Const(13)), op(Operation::End)])), op(Operation::I32Const(42)), op(Operation::End)]))]);
            block.execute(&mut sf, &no_host, FUEL).unwrap();
            assert_eq!(sf.stack, vec![ValueTypeProvider::I32(42)]);
        }
        { // I64Ne
            let mut sf = frame();
            let block = make_block(BlockType::Value(ValueType::I32), vec![Instruction::Block(make_block(BlockType::Value(ValueType::I32), vec![op(Operation::I64Const(123)), op(Operation::I64Const(999)), op(Operation::I64Ne), Instruction::If(make_block(BlockType::Empty, vec![op(Operation::I32Const(42)), op(Operation::End)])), op(Operation::End)]))]);
            block.execute(&mut sf, &no_host, FUEL).unwrap();
            assert_eq!(sf.stack, vec![ValueTypeProvider::I32(42)]);
        }
        {
            let mut sf = frame();
            let block = make_block(BlockType::Value(ValueType::I32), vec![Instruction::Block(make_block(BlockType::Value(ValueType::I32), vec![op(Operation::I64Const(999)), op(Operation::I64Const(999)), op(Operation::I64Ne), Instruction::If(make_block(BlockType::Empty, vec![op(Operation::I32Const(13)), op(Operation::End)])), op(Operation::I32Const(42)), op(Operation::End)]))]);
            block.execute(&mut sf, &no_host, FUEL).unwrap();
            assert_eq!(sf.stack, vec![ValueTypeProvider::I32(42)]);
        }
        { // I64LtS
            let mut sf = frame();
            let block = make_block(BlockType::Value(ValueType::I32), vec![Instruction::Block(make_block(BlockType::Value(ValueType::I32), vec![op(Operation::I64Const(999)), op(Operation::I64Const(-400)), op(Operation::I64LtS), Instruction::If(make_block(BlockType::Empty, vec![op(Operation::I32Const(42)), op(Operation::End)])), op(Operation::End)]))]);
            block.execute(&mut sf, &no_host, FUEL).unwrap();
            assert_eq!(sf.stack, vec![ValueTypeProvider::I32(42)]);
        }
        {
            let mut sf = frame();
            let block = make_block(BlockType::Value(ValueType::I32), vec![Instruction::Block(make_block(BlockType::Value(ValueType::I32), vec![op(Operation::I64Const(-100)), op(Operation::I64Const(-400)), op(Operation::I64LtS), Instruction::If(make_block(BlockType::Empty, vec![op(Operation::I32Const(42)), op(Operation::End)])), op(Operation::End)]))]);
            block.execute(&mut sf, &no_host, FUEL).unwrap();
            assert_eq!(sf.stack, vec![ValueTypeProvider::I32(42)]);
        }
        { // I64LtU
            let mut sf = frame();
            let block = make_block(BlockType::Value(ValueType::I32), vec![Instruction::Block(make_block(BlockType::Value(ValueType::I32), vec![op(Operation::I64Const(100)), op(Operation::I64Const(50)), op(Operation::I64LtU), Instruction::If(make_block(BlockType::Empty, vec![op(Operation::I32Const(42)), op(Operation::End)])), op(Operation::End)]))]);
            block.execute(&mut sf, &no_host, FUEL).unwrap();
            assert_eq!(sf.stack, vec![ValueTypeProvider::I32(42)]);
        }
        { // I64GtS
            let mut sf = frame();
            let block = make_block(BlockType::Value(ValueType::I32), vec![Instruction::Block(make_block(BlockType::Value(ValueType::I32), vec![op(Operation::I64Const(-400)), op(Operation::I64Const(999)), op(Operation::I64GtS), Instruction::If(make_block(BlockType::Empty, vec![op(Operation::I32Const(42)), op(Operation::End)])), op(Operation::End)]))]);
            block.execute(&mut sf, &no_host, FUEL).unwrap();
            assert_eq!(sf.stack, vec![ValueTypeProvider::I32(42)]);
        }
        {
            let mut sf = frame();
            let block = make_block(BlockType::Value(ValueType::I32), vec![Instruction::Block(make_block(BlockType::Value(ValueType::I32), vec![op(Operation::I32Const(-400)), op(Operation::I32Const(-100)), op(Operation::I32GtS), Instruction::If(make_block(BlockType::Empty, vec![op(Operation::I32Const(42)), op(Operation::End)])), op(Operation::End)]))]);
            block.execute(&mut sf, &no_host, FUEL).unwrap();
            assert_eq!(sf.stack, vec![ValueTypeProvider::I32(42)]);
        }
        { // I64GtU
            let mut sf = frame();
            let block = make_block(BlockType::Value(ValueType::I32), vec![Instruction::Block(make_block(BlockType::Value(ValueType::I32), vec![op(Operation::I64Const(10)), op(Operation::I64Const(50)), op(Operation::I64GtU), Instruction::If(make_block(BlockType::Empty, vec![op(Operation::I32Const(42)), op(Operation::End)])), op(Operation::End)]))]);
            block.execute(&mut sf, &no_host, FUEL).unwrap();
            assert_eq!(sf.stack, vec![ValueTypeProvider::I32(42)]);
        }
        { // I64LeS
            let mut sf = frame();
            let block = make_block(BlockType::Value(ValueType::I32), vec![Instruction::Block(make_block(BlockType::Value(ValueType::I32), vec![op(Operation::I64Const(999)), op(Operation::I64Const(-400)), op(Operation::I64LeS), Instruction::If(make_block(BlockType::Empty, vec![op(Operation::I32Const(42)), op(Operation::End)])), op(Operation::End)]))]);
            block.execute(&mut sf, &no_host, FUEL).unwrap();
            assert_eq!(sf.stack, vec![ValueTypeProvider::I32(42)]);
        }
        {
            let mut sf = frame();
            let block = make_block(BlockType::Value(ValueType::I32), vec![Instruction::Block(make_block(BlockType::Value(ValueType::I32), vec![op(Operation::I64Const(-400)), op(Operation::I64Const(-400)), op(Operation::I64LeS), Instruction::If(make_block(BlockType::Empty, vec![op(Operation::I32Const(42)), op(Operation::End)])), op(Operation::End)]))]);
            block.execute(&mut sf, &no_host, FUEL).unwrap();
            assert_eq!(sf.stack, vec![ValueTypeProvider::I32(42)]);
        }
        { // I64LeU
            let mut sf = frame();
            let block = make_block(BlockType::Value(ValueType::I32), vec![Instruction::Block(make_block(BlockType::Value(ValueType::I32), vec![op(Operation::I64Const(50)), op(Operation::I64Const(50)), op(Operation::I64LeU), Instruction::If(make_block(BlockType::Empty, vec![op(Operation::I32Const(42)), op(Operation::End)])), op(Operation::End)]))]);
            block.execute(&mut sf, &no_host, FUEL).unwrap();
            assert_eq!(sf.stack, vec![ValueTypeProvider::I32(42)]);
        }
        {
            let mut sf = frame();
            let block = make_block(BlockType::Value(ValueType::I32), vec![Instruction::Block(make_block(BlockType::Value(ValueType::I32), vec![op(Operation::I64Const(50)), op(Operation::I64Const(25)), op(Operation::I64LeU), Instruction::If(make_block(BlockType::Empty, vec![op(Operation::I32Const(42)), op(Operation::End)])), op(Operation::End)]))]);
            block.execute(&mut sf, &no_host, FUEL).unwrap();
            assert_eq!(sf.stack, vec![ValueTypeProvider::I32(42)]);
        }
        { // I64GeS
            let mut sf = frame();
            let block = make_block(BlockType::Value(ValueType::I32), vec![Instruction::Block(make_block(BlockType::Value(ValueType::I32), vec![op(Operation::I64Const(999)), op(Operation::I64Const(1000)), op(Operation::I64GeS), Instruction::If(make_block(BlockType::Empty, vec![op(Operation::I32Const(42)), op(Operation::End)])), op(Operation::End)]))]);
            block.execute(&mut sf, &no_host, FUEL).unwrap();
            assert_eq!(sf.stack, vec![ValueTypeProvider::I32(42)]);
        }
        {
            let mut sf = frame();
            let block = make_block(BlockType::Value(ValueType::I32), vec![Instruction::Block(make_block(BlockType::Value(ValueType::I32), vec![op(Operation::I64Const(-400)), op(Operation::I64Const(-400)), op(Operation::I64GeS), Instruction::If(make_block(BlockType::Empty, vec![op(Operation::I32Const(42)), op(Operation::End)])), op(Operation::End)]))]);
            block.execute(&mut sf, &no_host, FUEL).unwrap();
            assert_eq!(sf.stack, vec![ValueTypeProvider::I32(42)]);
        }
        { // I64GeU
            let mut sf = frame();
            let block = make_block(BlockType::Value(ValueType::I32), vec![Instruction::Block(make_block(BlockType::Value(ValueType::I32), vec![op(Operation::I64Const(999)), op(Operation::I64Const(1000)), op(Operation::I64GeU), Instruction::If(make_block(BlockType::Empty, vec![op(Operation::I32Const(42)), op(Operation::End)])), op(Operation::End)]))]);
            block.execute(&mut sf, &no_host, FUEL).unwrap();
            assert_eq!(sf.stack, vec![ValueTypeProvider::I32(42)]);
        }
        {
            let mut sf = frame();
            let block = make_block(BlockType::Value(ValueType::I32), vec![Instruction::Block(make_block(BlockType::Value(ValueType::I32), vec![op(Operation::I64Const(400)), op(Operation::I64Const(400)), op(Operation::I64GeU), Instruction::If(make_block(BlockType::Empty, vec![op(Operation::I32Const(42)), op(Operation::End)])), op(Operation::End)]))]);
            block.execute(&mut sf, &no_host, FUEL).unwrap();
            assert_eq!(sf.stack, vec![ValueTypeProvider::I32(42)]);
        }
    }

#[test]
fn i32_ops() {
        { // I32Clz
            let mut sf = frame();
            let block = make_block(BlockType::Value(ValueType::I32), vec![op(Operation::I32Const(0x0000ffff)), op(Operation::I32Clz), op(Operation::End)]);
            block.execute(&mut sf, &no_host, FUEL).unwrap();
            assert_eq!(sf.stack, vec![ValueTypeProvider::I32(16)]);
        }
        { // I32Ctz
            let mut sf = frame();
            let block = make_block(BlockType::Value(ValueType::I32), vec![op(Operation::I32Const(0xffff0000u32 as i32)), op(Operation::I32Ctz), op(Operation::End)]);
            block.execute(&mut sf, &no_host, FUEL).unwrap();
            assert_eq!(sf.stack, vec![ValueTypeProvider::I32(16)]);
        }
        { // I32Popcnt
            let mut sf = frame();
            let block = make_block(BlockType::Value(ValueType::I32), vec![op(Operation::I32Const(0x0000fff0)), op(Operation::I32Popcnt), op(Operation::End)]);
            block.execute(&mut sf, &no_host, FUEL).unwrap();
            assert_eq!(sf.stack, vec![ValueTypeProvider::I32(12)]);
        }
        { // I32Add
            let mut sf = frame();
            let block = make_block(BlockType::Value(ValueType::I32), vec![op(Operation::I32Const(36)), op(Operation::I32Const(6)), op(Operation::I32Add), op(Operation::End)]);
            block.execute(&mut sf, &no_host, FUEL).unwrap();
            assert_eq!(sf.stack, vec![ValueTypeProvider::I32(42)]);
        }
        { // I32Sub
            let mut sf = frame();
            let block = make_block(BlockType::Value(ValueType::I32), vec![op(Operation::I32Const(10)), op(Operation::I32Const(52)), op(Operation::I32Sub), op(Operation::End)]);
            block.execute(&mut sf, &no_host, FUEL).unwrap();
            assert_eq!(sf.stack, vec![ValueTypeProvider::I32(42)]);
        }
        { // I32Mul
            let mut sf = frame();
            let block = make_block(BlockType::Value(ValueType::I32), vec![op(Operation::I32Const(2)), op(Operation::I32Const(21)), op(Operation::I32Mul), op(Operation::End)]);
            block.execute(&mut sf, &no_host, FUEL).unwrap();
            assert_eq!(sf.stack, vec![ValueTypeProvider::I32(42)]);
        }
        { // I32DivS
            let mut sf = frame();
            let block = make_block(BlockType::Value(ValueType::I32), vec![op(Operation::I32Const(-2)), op(Operation::I32Const(80)), op(Operation::I32DivS), op(Operation::End)]);
            block.execute(&mut sf, &no_host, FUEL).unwrap();
            assert_eq!(sf.stack, vec![ValueTypeProvider::I32(-40)]);
        }
        { // I32DivU
            let mut sf = frame();
            let block = make_block(BlockType::Value(ValueType::I32), vec![op(Operation::I32Const(2)), op(Operation::I32Const(60000)), op(Operation::I32DivU), op(Operation::End)]);
            block.execute(&mut sf, &no_host, FUEL).unwrap();
            assert_eq!(sf.stack, vec![ValueTypeProvider::I32(30000)]);
        }
        { // I32RemS
            let mut sf = frame();
            let block = make_block(BlockType::Value(ValueType::I32), vec![op(Operation::I32Const(3)), op(Operation::I32Const(-8)), op(Operation::I32RemS), op(Operation::End)]);
            block.execute(&mut sf, &no_host, FUEL).unwrap();
            assert_eq!(sf.stack, vec![ValueTypeProvider::I32(-2)]);
        }
        { // I32RemU
            let mut sf = frame();
            let block = make_block(BlockType::Value(ValueType::I32), vec![op(Operation::I32Const(3)), op(Operation::I32Const(8)), op(Operation::I32RemS), op(Operation::End)]);
            block.execute(&mut sf, &no_host, FUEL).unwrap();
            assert_eq!(sf.stack, vec![ValueTypeProvider::I32(2)]);
        }
        { // I32And
            let mut sf = frame();
            let block = make_block(BlockType::Value(ValueType::I32), vec![op(Operation::I32Const(1)), op(Operation::I32Const(1)), op(Operation::I32And), op(Operation::End)]);
            block.execute(&mut sf, &no_host, FUEL).unwrap();
            assert_eq!(sf.stack, vec![ValueTypeProvider::I32(1)]);
        }
        {
            let mut sf = frame();
            let block = make_block(BlockType::Value(ValueType::I32), vec![op(Operation::I32Const(1)), op(Operation::I32Const(0)), op(Operation::I32And), op(Operation::End)]);
            block.execute(&mut sf, &no_host, FUEL).unwrap();
            assert_eq!(sf.stack, vec![ValueTypeProvider::I32(0)]);
        }
        { // I32Or
            let mut sf = frame();
            let block = make_block(BlockType::Value(ValueType::I32), vec![op(Operation::I32Const(1)), op(Operation::I32Const(0)), op(Operation::I32Or), op(Operation::End)]);
            block.execute(&mut sf, &no_host, FUEL).unwrap();
            assert_eq!(sf.stack, vec![ValueTypeProvider::I32(1)]);
        }
        { // I32Xor
            let mut sf = frame();
            let block = make_block(BlockType::Value(ValueType::I32), vec![op(Operation::I32Const(1)), op(Operation::I32Const(0)), op(Operation::I32Xor), op(Operation::End)]);
            block.execute(&mut sf, &no_host, FUEL).unwrap();
            assert_eq!(sf.stack, vec![ValueTypeProvider::I32(1)]);
        }
        {
            let mut sf = frame();
            let block = make_block(BlockType::Value(ValueType::I32), vec![op(Operation::I32Const(1)), op(Operation::I32Const(1)), op(Operation::I32Xor), op(Operation::End)]);
            block.execute(&mut sf, &no_host, FUEL).unwrap();
            assert_eq!(sf.stack, vec![ValueTypeProvider::I32(0)]);
        }
        { // I32Shl
            let mut sf = frame();
            let block = make_block(BlockType::Value(ValueType::I32), vec![op(Operation::I32Const(3)), op(// shift by three places
                Operation::I32Const(1)), op(Operation::I32Shl), op(Operation::End)]);
            block.execute(&mut sf, &no_host, FUEL).unwrap();
            assert_eq!(sf.stack, vec![ValueTypeProvider::I32(8)]);
        }
        { // I32ShrS
            let mut sf = frame();
            let block = make_block(BlockType::Value(ValueType::I32), vec![op(Operation::I32Const(3)), op(// shift by three places
                Operation::I32Const(8)), op(Operation::I32ShrS), op(Operation::End)]);
            block.execute(&mut sf, &no_host, FUEL).unwrap();
            assert_eq!(sf.stack, vec![ValueTypeProvider::I32(1)]);
        }
        {
            let mut sf = frame();
            let block = make_block(BlockType::Value(ValueType::I32), vec![op(Operation::I32Const(4)), op(// shift by four places
                Operation::I32Const(0xffffffffu32 as i32)), op(Operation::I32ShrS), op(Operation::End)]);
            block.execute(&mut sf, &no_host, FUEL).unwrap();
            assert_eq!(sf.stack, vec![ValueTypeProvider::I32(0xffffffffu32 as i32)]); // sign is preserved, therefore it doesn't change
        }
        { // I32ShrU
            let mut sf = frame();
            let block = make_block(BlockType::Value(ValueType::I32), vec![op(Operation::I32Const(4)), op(// shift by four places
                Operation::I32Const(0xffffffffu32 as i32)), op(Operation::I32ShrU), op(Operation::End)]);
            block.execute(&mut sf, &no_host, FUEL).unwrap();
            assert_eq!(sf.stack, vec![ValueTypeProvider::I32(0x0fffffff)]);
        }
        { // I32Rotl
            let mut sf = frame();
            let block = make_block(BlockType::Value(ValueType::I32), vec![op(Operation::I32Const(4)), op(// shift by four places
                Operation::I32Const(0xc0ffffffu32 as i32)), op(Operation::I32Rotl), op(Operation::End)]);
            block.execute(&mut sf, &no_host, FUEL).unwrap();
            assert_eq!(sf.stack, vec![ValueTypeProvider::I32(0x0ffffffc)]);
        }
        { // I32Rotr
            let mut sf = frame();
            let block = make_block(BlockType::Value(ValueType::I32), vec![op(Operation::I32Const(4)), op(// shift by four places
                Operation::I32Const(0xdeadbeefu32 as i32)), op(Operation::I32Rotr), op(Operation::End)]);
            block.execute(&mut sf, &no_host, FUEL).unwrap();
            assert_eq!(sf.stack, vec![ValueTypeProvider::I32(0xfdeadbeeu32 as i32)]);
        }
    }

#[test]
fn i64_ops() {
        { // I64Clz
            let mut sf = frame();
            let block = make_block(BlockType::Value(ValueType::I32), vec![op(Operation::I64Const(0x00000000_0000ffff)), op(Operation::I64Clz), op(Operation::End)]);
            block.execute(&mut sf, &no_host, FUEL).unwrap();
            assert_eq!(sf.stack, vec![ValueTypeProvider::I32(48)]);
        }
        { // I64Ctz
            let mut sf = frame();
            let block = make_block(BlockType::Value(ValueType::I32), vec![op(Operation::I64Const(0xffff0000)), op(Operation::I64Ctz), op(Operation::End)]);
            block.execute(&mut sf, &no_host, FUEL).unwrap();
            assert_eq!(sf.stack, vec![ValueTypeProvider::I32(16)]);
        }
        { // I64Popcnt
            let mut sf = frame();
            let block = make_block(BlockType::Value(ValueType::I32), vec![op(Operation::I64Const(0x0000fff0)), op(Operation::I64Popcnt), op(Operation::End)]);
            block.execute(&mut sf, &no_host, FUEL).unwrap();
            assert_eq!(sf.stack, vec![ValueTypeProvider::I32(12)]);
        }
        { // I64Add
            let mut sf = frame();
            let block = make_block(BlockType::Value(ValueType::I64), vec![op(Operation::I64Const(36)), op(Operation::I64Const(6)), op(Operation::I64Add), op(Operation::End)]);
            block.execute(&mut sf, &no_host, FUEL).unwrap();
            assert_eq!(sf.stack, vec![ValueTypeProvider::I64(42)]);
        }
        { // I64Sub
            let mut sf = frame();
            let block = make_block(BlockType::Value(ValueType::I64), vec![op(Operation::I64Const(10)), op(Operation::I64Const(52)), op(Operation::I64Sub), op(Operation::End)]);
            block.execute(&mut sf, &no_host, FUEL).unwrap();
            assert_eq!(sf.stack, vec![ValueTypeProvider::I64(42)]);
        }
        { // I64Mul
            let mut sf = frame();
            let block = make_block(BlockType::Value(ValueType::I32), vec![op(Operation::I64Const(2)), op(Operation::I64Const(21)), op(Operation::I64Mul), op(Operation::End)]);
            block.execute(&mut sf, &no_host, FUEL).unwrap();
            assert_eq!(sf.stack, vec![ValueTypeProvider::I64(42)]);
        }
        { // I64DivS
            let mut sf = frame();
            let block = make_block(BlockType::Value(ValueType::I32), vec![op(Operation::I64Const(-2)), op(Operation::I64Const(80)), op(Operation::I64DivS), op(Operation::End)]);
            block.execute(&mut sf, &no_host, FUEL).unwrap();
            assert_eq!(sf.stack, vec![ValueTypeProvider::I64(-40)]);
        }
        { // I64DivU
            let mut sf = frame();
            let block = make_block(BlockType::Value(ValueType::I32), vec![op(Operation::I64Const(2)), op(Operation::I64Const(60000)), op(Operation::I64DivU), op(Operation::End)]);
            block.execute(&mut sf, &no_host, FUEL).unwrap();
            assert_eq!(sf.stack, vec![ValueTypeProvider::I64(30000)]);
        }
        { // I64RemS
            let mut sf = frame();
            let block = make_block(BlockType::Value(ValueType::I32), vec![op(Operation::I64Const(3)), op(Operation::I64Const(-8)), op(Operation::I64RemS), op(Operation::End)]);
            block.execute(&mut sf, &no_host, FUEL).unwrap();
            assert_eq!(sf.stack, vec![ValueTypeProvider::I64(-2)]);
        }
        { // I64RemU
            let mut sf = frame();
            let block = make_block(BlockType::Value(ValueType::I32), vec![op(Operation::I64Const(3)), op(Operation::I64Const(8)), op(Operation::I64RemS), op(Operation::End)]);
            block.execute(&mut sf, &no_host, FUEL).unwrap();
            assert_eq!(sf.stack, vec![ValueTypeProvider::I64(2)]);
        }
        { // I64And
            let mut sf = frame();
            let block = make_block(BlockType::Value(ValueType::I32), vec![op(Operation::I64Const(1)), op(Operation::I64Const(1)), op(Operation::I64And), op(Operation::End)]);
            block.execute(&mut sf, &no_host, FUEL).unwrap();
            assert_eq!(sf.stack, vec![ValueTypeProvider::I64(1)]);
        }
        {
            let mut sf = frame();
            let block = make_block(BlockType::Value(ValueType::I32), vec![op(Operation::I64Const(1)), op(Operation::I64Const(0)), op(Operation::I64And), op(Operation::End)]);
            block.execute(&mut sf, &no_host, FUEL).unwrap();
            assert_eq!(sf.stack, vec![ValueTypeProvider::I64(0)]);
        }
        { // I64Or
            let mut sf = frame();
            let block = make_block(BlockType::Value(ValueType::I32), vec![op(Operation::I64Const(1)), op(Operation::I64Const(0)), op(Operation::I64Or), op(Operation::End)]);
            block.execute(&mut sf, &no_host, FUEL).unwrap();
            assert_eq!(sf.stack, vec![ValueTypeProvider::I64(1)]);
        }
        { // I64Xor
            let mut sf = frame();
            let block = make_block(BlockType::Value(ValueType::I32), vec![op(Operation::I64Const(1)), op(Operation::I64Const(0)), op(Operation::I64Xor), op(Operation::End)]);
            block.execute(&mut sf, &no_host, FUEL).unwrap();
            assert_eq!(sf.stack, vec![ValueTypeProvider::I64(1)]);
        }
        {
            let mut sf = frame();
            let block = make_block(BlockType::Value(ValueType::I32), vec![op(Operation::I64Const(1)), op(Operation::I64Const(1)), op(Operation::I64Xor), op(Operation::End)]);
            block.execute(&mut sf, &no_host, FUEL).unwrap();
            assert_eq!(sf.stack, vec![ValueTypeProvider::I64(0)]);
        }
        { // I64Shl
            let mut sf = frame();
            let block = make_block(BlockType::Value(ValueType::I32), vec![op(Operation::I64Const(3)), op(// shift by three places
                Operation::I64Const(1)), op(Operation::I64Shl), op(Operation::End)]);
            block.execute(&mut sf, &no_host, FUEL).unwrap();
            assert_eq!(sf.stack, vec![ValueTypeProvider::I64(8)]);
        }
        { // I64ShrS
            let mut sf = frame();
            let block = make_block(BlockType::Value(ValueType::I32), vec![op(Operation::I64Const(3)), op(// shift by three places
                Operation::I64Const(8)), op(Operation::I64ShrS), op(Operation::End)]);
            block.execute(&mut sf, &no_host, FUEL).unwrap();
            assert_eq!(sf.stack, vec![ValueTypeProvider::I64(1)]);
        }
        {
            let mut sf = frame();
            let block = make_block(BlockType::Value(ValueType::I32), vec![op(Operation::I64Const(4)), op(// shift by four places
                Operation::I64Const(0xf0ffffff_ffffffffu64 as i64)), op(Operation::I64ShrS), op(Operation::End)]);
            block.execute(&mut sf, &no_host, FUEL).unwrap();
            assert_eq!(sf.stack, vec![ValueTypeProvider::I64(0xff0fffff_ffffffffu64 as i64)]); // sign is preserved, therefore it doesn't change
        }
        { // I64ShrU
            let mut sf = frame();
            let block = make_block(BlockType::Value(ValueType::I32), vec![op(Operation::I64Const(4)), op(// shift by four places
                Operation::I64Const(0xf0ffffff_ffffffffu64 as i64)), op(Operation::I64ShrU), op(Operation::End)]);
            block.execute(&mut sf, &no_host, FUEL).unwrap();
            assert_eq!(sf.stack, vec![ValueTypeProvider::I64(0x0f0fffff_ffffffff)]);
        }
        { // I64Rotl
            let mut sf = frame();
            let block = make_block(BlockType::Value(ValueType::I32), vec![op(Operation::I64Const(4)), op(// shift by four places
                Operation::I64Const(0xc0ffffff_ffffffffu64 as i64)), op(Operation::I64Rotl), op(Operation::End)]);
            block.execute(&mut sf, &no_host, FUEL).unwrap();
            assert_eq!(sf.stack, vec![ValueTypeProvider::I64(0x0fffffff_fffffffc)]);
        }
        { // I64Rotr
            let mut sf = frame();
            let block = make_block(BlockType::Value(ValueType::I32), vec![op(Operation::I64Const(4)), op(// shift by four places
                Operation::I64Const(0xdeadbeef_cafebabeu64 as i64)), op(Operation::I64Rotr), op(Operation::End)]);
            block.execute(&mut sf, &no_host, FUEL).unwrap();
            assert_eq!(sf.stack, vec![ValueTypeProvider::I64(0xedeadbee_fcafebabu64 as i64)]);
        }
    }

#[test]
fn numeric_reinterpretations() {
        { // I32ReinterpretF32
            let mut sf = frame();
            let block = make_block(BlockType::Value(ValueType::I32), vec![op(Operation::F32Const(1.40129846432481707092372958329E-45f32.to_bits())), op(Operation::I32ReinterpretF32), op(Operation::End)]);
            block.execute(&mut sf, &no_host, FUEL).unwrap();
            assert_eq!(sf.stack, vec![ValueTypeProvider::I32(1)]);
        }
        { // I64ReinterpretF64
            let mut sf = frame();
            let block = make_block(BlockType::Value(ValueType::I32), vec![op(Operation::F64Const(3.14f64.to_bits())), op(Operation::I64ReinterpretF64), op(Operation::End)]);
            block.execute(&mut sf, &no_host, FUEL).unwrap();
            assert_eq!(sf.stack, vec![ValueTypeProvider::I64(0x40091EB851EB851F)]);
        }
        { // F32ReinterpretI32
            let mut sf = frame();
            let block = make_block(BlockType::Value(ValueType::I32), vec![op(Operation::I32Const(1)), op(Operation::F32ReinterpretI32), op(Operation::End)]);
            block.execute(&mut sf, &no_host, FUEL).unwrap();
            assert_eq!(sf.stack, vec![ValueTypeProvider::F32(1.40129846432481707092372958329E-45f32.to_bits())]);
        }
        { // F64ReinterpretI64
            let mut sf = frame();
            let block = make_block(BlockType::Value(ValueType::I32), vec![op(Operation::I64Const(0x40091EB851EB851F)), op(Operation::F64ReinterpretI64), op(Operation::End)]);
            block.execute(&mut sf, &no_host, FUEL).unwrap();
            assert_eq!(sf.stack, vec![ValueTypeProvider::F64(3.14f64.to_bits())]);
        }
    }


fn run(ops: Vec<Instruction>, sf: &mut StackFrame) -> Result<i32, Trap> {
    make_block(BlockType::Empty, ops).execute(sf, &no_host, FUEL)
}

#[test]
fn traps_name_their_cause() {
    let mut sf = frame();
    assert_eq!(run(vec![op(Operation::Unreachable)], &mut sf), Err(Trap::Unreachable));
    let mut sf = frame();
    assert_eq!(run(vec![op(Operation::BranchIf(0))], &mut sf), Err(Trap::StackEmpty));
    let mut sf = frame();
    assert_eq!(
        run(vec![op(Operation::I32Const(0)), op(Operation::I32Const(1)), op(Operation::I32DivS)], &mut sf),
        Err(Trap::DivisionByZero)
    );
    let mut sf = frame();
    assert_eq!(
        run(vec![op(Operation::I32Const(1)), op(Operation::I32Const(i32::MAX)), op(Operation::I32Add)], &mut sf),
        Err(Trap::IntegerOverflow)
    );
    let mut sf = frame();
    assert_eq!(
        run(vec![op(Operation::I32Const(32)), op(Operation::I32Const(1)), op(Operation::I32Shl)], &mut sf),
        Err(Trap::ShiftOutOfRange)
    );
    let mut sf = frame();
    assert_eq!(
        run(vec![op(Operation::F32Const(0)), op(Operation::F32Const(0)), op(Operation::F32Add)], &mut sf),
        Err(Trap::FloatArithmetic)
    );
    let mut sf = frame();
    assert_eq!(run(vec![op(Operation::Call(0))], &mut sf), Err(Trap::NoSuchFunction));
    let mut sf = frame();
    assert_eq!(run(vec![op(Operation::GetLocal(0))], &mut sf), Err(Trap::NoSuchLocal));
    let mut sf = frame();
    let load = Operation::I32Load(MemoryImmediate { flags: 0, offset: 0 });
    assert_eq!(run(vec![op(load.clone())], &mut sf), Err(Trap::NoMemory));
    let mut sf = frame();
    sf.data.memories.push(Memory { limits: ResizableLimits { initial: 0, maximum: None }, values: vec![0; 7] });
    assert_eq!(run(vec![op(load)], &mut sf), Err(Trap::MemoryOutOfBounds));
    let mut sf = frame();
    assert_eq!(run(vec![op(Operation::Block(BlockType::Empty))], &mut sf), Err(Trap::Unstructured));
}

#[test]
fn endless_loop_runs_out_of_fuel() {
    let mut sf = frame();
    let body = make_block(BlockType::Empty, vec![op(Operation::Nop)]);
    assert_eq!(make_block(BlockType::Empty, vec![Instruction::Loop(body)]).execute(&mut sf, &no_host, 5), Err(Trap::OutOfFuel));
}

#[test]
fn operands_of_another_type_are_dropped() {
    let mut sf = frame();
    run(vec![op(Operation::I32Const(7)), op(Operation::I64Const(1)), op(Operation::I32Add)], &mut sf).unwrap();
    assert_eq!(sf.stack, vec![ValueTypeProvider::I32(7)]);
    let mut sf = frame();
    run(vec![op(Operation::I64Const(7)), op(Operation::I32Const(1)), op(Operation::I32Add)], &mut sf).unwrap();
    assert!(sf.stack.is_empty());
}

#[test]
fn operand_order_puts_the_top_first() {
    let mut sf = frame();
    run(vec![op(Operation::I32Const(2)), op(Operation::I32Const(7)), op(Operation::I32Sub)], &mut sf).unwrap();
    assert_eq!(sf.stack, vec![ValueTypeProvider::I32(5)]);
    let mut sf = frame();
    run(vec![op(Operation::I32Const(-7)), op(Operation::I32Const(2)), op(Operation::I32RemS)], &mut sf).unwrap();
    assert_eq!(sf.stack, vec![ValueTypeProvider::I32(2)]);
    let mut sf = frame();
    run(vec![op(Operation::I32Const(2)), op(Operation::I32Const(-7)), op(Operation::I32DivS)], &mut sf).unwrap();
    assert_eq!(sf.stack, vec![ValueTypeProvider::I32(-3)]);
}

#[test]
fn bit_counting_and_rotation() {
    let mut sf = frame();
    run(
        vec![
            op(Operation::I64Const(-1)),
            op(Operation::I64Popcnt),
            op(Operation::I32Const(4)),
            op(Operation::I32Const(0x1000_0001)),
            op(Operation::I32Rotl),
            op(Operation::I64Const(1)),
            op(Operation::I64Const(1)),
            op(Operation::I64Rotr),
        ],
        &mut sf,
    )
    .unwrap();
    assert_eq!(
        sf.stack,
        vec![ValueTypeProvider::I32(64), ValueTypeProvider::I32(0x0000_0011), ValueTypeProvider::I64(i64::MIN)]
    );
}

#[test]
fn float_bits_abs_and_neg() {
    let mut sf = frame();
    run(
        vec![op(Operation::F32Const((-2.5f32).to_bits())), op(Operation::F32Abs), op(Operation::F64Const(1.5f64.to_bits())), op(Operation::F64Neg)],
        &mut sf,
    )
    .unwrap();
    assert_eq!(sf.stack, vec![ValueTypeProvider::F32(2.5f32.to_bits()), ValueTypeProvider::F64((-1.5f64).to_bits())]);
}

#[test]
fn memory_size_and_grow() {
    let mut sf = frame();
    sf.data.memories.push(Memory { limits: ResizableLimits { initial: 0, maximum: None }, values: vec![0; 10] });
    run(vec![op(Operation::CurrentMemory(false)), op(Operation::GrowMemory(false))], &mut sf).unwrap();
    assert_eq!(sf.stack, vec![ValueTypeProvider::I32(10), ValueTypeProvider::I32(10)]);
    assert_eq!(sf.data.memories[0].values.len(), 65546);
}

#[test]
fn return_and_branch_results() {
    let mut sf = frame();
    assert_eq!(run(vec![op(Operation::Return), op(Operation::I32Const(1))], &mut sf), Ok(-1));
    assert!(sf.stack.is_empty());
    let mut sf = frame();
    let inner = make_block(BlockType::Empty, vec![op(Operation::Branch(3))]);
    assert_eq!(run(vec![Instruction::Block(inner)], &mut sf), Ok(2));
}

fn functions(list: Vec<Func>) -> &'static Vec<Func> {
    Box::leak(Box::new(list))
}

fn add_function() -> Func {
    Func {
        signature: FuncSignature { parameters: vec![ValueType::I32, ValueType::I32], returns: vec![ValueType::I32] },
        locals: vec![ValueType::I64],
        body: Some(make_block(
            BlockType::Value(ValueType::I32),
            vec![op(Operation::GetLocal(0)), op(Operation::GetLocal(1)), op(Operation::I32Add), op(Operation::End)],
        )),
    }
}

#[test]
fn call_runs_the_body_on_its_own_frame() {
    let funcs = functions(vec![add_function()]);
    let mut sf = StackFrame::new(ModuleInstanceData::new(funcs), vec![ValueTypeProvider::I32(5)], vec![]);
    run(
        vec![op(Operation::I32Const(99)), op(Operation::I32Const(2)), op(Operation::I32Const(40)), op(Operation::Call(0))],
        &mut sf,
    )
    .unwrap();
    assert_eq!(sf.stack, vec![ValueTypeProvider::I32(99), ValueTypeProvider::I32(42)]);
    assert_eq!(sf.locals, vec![ValueTypeProvider::I32(5)]);
}

#[test]
fn call_errors() {
    let host = Func { signature: FuncSignature { parameters: vec![], returns: vec![] }, locals: vec![], body: None };
    let funcs = functions(vec![add_function(), host]);
    let mut sf = StackFrame::new(ModuleInstanceData::new(funcs), vec![], vec![]);
    assert_eq!(run(vec![op(Operation::Call(1))], &mut sf), Err(Trap::HostFunction));
    let mut sf = StackFrame::new(ModuleInstanceData::new(funcs), vec![], vec![]);
    assert_eq!(run(vec![op(Operation::I32Const(1)), op(Operation::Call(0))], &mut sf), Err(Trap::StackEmpty));
    let mut sf = StackFrame::new(ModuleInstanceData::new(funcs), vec![], vec![]);
    assert_eq!(
        run(vec![op(Operation::I64Const(1)), op(Operation::I32Const(1)), op(Operation::Call(0))], &mut sf),
        Err(Trap::TypeMismatch)
    );
}

#[test]
fn recursion_runs_out_of_fuel() {
    let looping = Func {
        signature: FuncSignature { parameters: vec![], returns: vec![] },
        locals: vec![],
        body: Some(make_block(BlockType::Empty, vec![op(Operation::Call(0))])),
    };
    let funcs = functions(vec![looping]);
    let mut sf = StackFrame::new(ModuleInstanceData::new(funcs), vec![], vec![]);
    assert_eq!(run(vec![op(Operation::Call(0))], &mut sf), Err(Trap::OutOfFuel));
}

#[test]
fn indirect_call_goes_through_table_zero() {
    let funcs = functions(vec![add_function()]);
    let mut data = ModuleInstanceData::new(funcs);
    data.types.push(TypeDefinition::Func(FuncSignature {
        parameters: vec![ValueType::I32, ValueType::I32],
        returns: vec![ValueType::I32],
    }));
    data.tables.push(Table::AnyFunc { limits: ResizableLimits { initial: 1, maximum: None }, values: vec![0] });
    let mut sf = StackFrame::new(data, vec![], vec![]);
    run(
        vec![op(Operation::I32Const(0)), op(Operation::I32Const(3)), op(Operation::I32Const(4)), op(Operation::CallIndirect(0, false))],
        &mut sf,
    )
    .unwrap();
    assert_eq!(sf.stack, vec![ValueTypeProvider::I32(7)]);
    let mut sf = StackFrame::new(ModuleInstanceData::new(funcs), vec![], vec![]);
    assert_eq!(run(vec![op(Operation::CallIndirect(0, false))], &mut sf), Err(Trap::NoSuchType));
}

/// The host functions that the tests supply: `env.f`.
fn env_f() -> Vec<(String, String)> {
    vec![("env".to_string(), "f".to_string())]
}

fn add_module_bytes() -> Vec<u8> {
    vec![
        0x00, 0x61, 0x73, 0x6d, 0x01, 0x00, 0x00, 0x00, //
        1, 7, 1, 0x60, 2, 0x7f, 0x7f, 1, 0x7f, //
        2, 9, 1, 3, b'e', b'n', b'v', 1, b'f', 0x00, 0, //
        3, 2, 1, 0, //
        7, 7, 1, 3, b'a', b'd', b'd', 0x00, 1, //
        10, 9, 1, 7, 0, 0x20, 0, 0x20, 1, 0x6a, 0x0b,
    ]
}

#[test]
fn decoded_function_runs() {
    let module = ModuleParser::default().parse_module(&add_module_bytes()).unwrap();
    let funcs = functions(module.build_functions(&env_f()).unwrap());
    assert_eq!(funcs.len(), 2);
    assert!(funcs[0].body.is_none());
    assert_eq!(funcs[1].locals, vec![]);
    assert_eq!(
        funcs[1].body,
        Some(make_block(
            BlockType::Value(ValueType::I32),
            vec![op(Operation::GetLocal(0)), op(Operation::GetLocal(1)), op(Operation::I32Add), op(Operation::End)]
        ))
    );
    let mut sf = StackFrame::new(ModuleInstanceData::new(funcs), vec![], vec![]);
    assert_eq!(
        call_fn(&mut sf, &no_host, 1, vec![ValueTypeProvider::I32(1), ValueTypeProvider::I32(-10)], FUEL),
        Ok(vec![ValueTypeProvider::I32(-9)])
    );
    assert_eq!(call_fn(&mut sf, &no_host, 0, vec![], FUEL), Err(Trap::HostFunction));
    assert_eq!(call_fn(&mut sf, &no_host, 2, vec![], FUEL), Err(Trap::NoSuchFunction));
    assert_eq!(call_fn(&mut sf, &no_host, 1, vec![ValueTypeProvider::I32(1)], FUEL), Err(Trap::WrongArguments));
}

#[test]
fn flat_code_is_nested_at_each_construct() {
    let code = vec![
        Operation::Block(BlockType::Empty),
        Operation::I32Const(1),
        Operation::End,
        Operation::If(BlockType::Value(ValueType::I32)),
        Operation::Nop,
        Operation::Else,
        Operation::Drop,
        Operation::End,
        Operation::End,
    ];
    assert_eq!(
        nest(&code),
        vec![
            Instruction::Block(make_block(BlockType::Empty, vec![op(Operation::I32Const(1)), op(Operation::End)])),
            Instruction::If(make_block(
                BlockType::Value(ValueType::I32),
                vec![op(Operation::Nop), op(Operation::Else), op(Operation::Drop), op(Operation::End)]
            )),
            op(Operation::End),
        ]
    );
    let unclosed = vec![Operation::Loop(BlockType::Empty), Operation::Nop];
    assert_eq!(nest(&unclosed), vec![Instruction::Loop(make_block(BlockType::Empty, vec![op(Operation::Nop)]))]);
}

#[test]
fn missing_signature_is_refused() {
    let mut module = ModuleParser::default().parse_module(&add_module_bytes()).unwrap();
    module.function_signatures[0] = 5;
    assert_eq!(module.build_functions(&env_f()).err(), Some(ParseError::CustomError(Violation::NoSuchSignature)));
}

fn template_of(res: Result<ModuleTemplate, ParseError>) -> ModuleTemplate {
    match res {
        Ok(t) => t,
        Err(e) => panic!("no template: {:?}", e),
    }
}

#[test]
fn template_keeps_exports_types_and_functions() {
    let module = ModuleParser::default().parse_module(&add_module_bytes()).unwrap();
    let t = template_of(module.clone().build(env_f()));
    assert_eq!(t.exports.len(), 1);
    assert_eq!(t.exports[0].field, "add".to_string());
    assert_eq!(t.exports[0].kind, ExternalKind::Function(1));
    assert_eq!(t.types, module.types);
    assert_eq!(t.memories, module.memories);
    assert!(t.globals.is_empty());
    assert!(t.tables.is_empty());
    assert_eq!(t.start_function, None);
    assert_eq!(t.functions.len(), 2);
    assert!(t.functions[0].body.is_none());
    assert!(t.functions[1].body.is_some());
}

#[test]
fn instance_runs_the_exported_function() {
    let t = template_of(instantiate(&add_module_bytes(), env_f()));
    let instance = t.instantiate();
    assert_eq!(instance.exports, t.exports);
    let data = instance.get_frame();
    assert_eq!(data.types, t.types);
    assert!(data.globals.is_empty());
    assert!(data.memories.is_empty());
    assert!(data.tables.is_empty());
    assert_eq!(data.functions.len(), 2);
    let mut sf = StackFrame::new(data, vec![], vec![]);
    assert_eq!(
        call_fn(&mut sf, &no_host, 1, vec![ValueTypeProvider::I32(1), ValueTypeProvider::I32(-10)], FUEL),
        Ok(vec![ValueTypeProvider::I32(-9)])
    );
}

#[test]
fn instantiate_reports_decoding_errors() {
    let mut bytes = add_module_bytes();
    bytes[0] = 0x01;
    assert_eq!(instantiate(&bytes, env_f()).err(), Some(ParseError::WrongMagicNumber));
    let mut bytes = add_module_bytes();
    bytes[4] = 0x02;
    assert_eq!(instantiate(&bytes, env_f()).err(), Some(ParseError::UnsupportedModuleVersion));
}

#[test]
fn instantiate_reports_a_missing_signature() {
    let mut bytes = add_module_bytes();
    // the defined function names signature 3, which the module lacks
    let pos = 28;
    assert_eq!(bytes[pos..pos + 4], [3, 2, 1, 0]);
    bytes[pos + 3] = 3;
    assert_eq!(instantiate(&bytes, env_f()).err(), Some(ParseError::CustomError(Violation::NoSuchSignature)));
}

#[test]
fn exports_are_found_by_name() {
    let entries = vec![
        ExportEntry { field: "add".to_string(), kind: ExternalKind::Function(1) },
        ExportEntry { field: "mem".to_string(), kind: ExternalKind::Memory(0) },
        ExportEntry { field: "add".to_string(), kind: ExternalKind::Function(4) },
    ];
    assert_eq!(exported_function(&entries, &"add".to_string()), Some(4));
    assert_eq!(exported_function(&entries, &"mem".to_string()), None);
    assert_eq!(exported_function(&entries, &"sub".to_string()), None);
    assert_eq!(exported_function(&vec![], &"add".to_string()), None);
}

#[test]
fn exported_function_is_called_by_name() {
    let t = template_of(instantiate(&add_module_bytes(), env_f()));
    let mut sf = StackFrame::new(t.instantiate().get_frame(), vec![], vec![]);
    assert_eq!(
        call_export(&mut sf, &no_host, &t.exports, &"add".to_string(), vec![ValueTypeProvider::I32(1), ValueTypeProvider::I32(-10)], FUEL),
        Ok(vec![ValueTypeProvider::I32(-9)])
    );
    assert_eq!(
        call_export(&mut sf, &no_host, &t.exports, &"sub".to_string(), vec![], FUEL),
        Err(Trap::NoSuchFunction)
    );
}

#[test]
fn instance_exports_are_called_through_the_export_object() {
    let t = template_of(instantiate(&add_module_bytes(), env_f()));
    let instance = t.instantiate();
    let mut exports = instance.exports(no_host);
    assert!(exports.frame.locals.is_empty());
    assert!(exports.frame.stack.is_empty());
    let args = vec![ValueTypeProvider::I32(1), ValueTypeProvider::I32(-10)];
    assert_eq!(exports.call_fn(&"add".to_string(), args, FUEL), Ok(vec![ValueTypeProvider::I32(-9)]));
    assert_eq!(exports.call_fn(&"add".to_string(), vec![], FUEL), Err(Trap::WrongArguments));
    assert_eq!(exports.call_fn(&"f".to_string(), vec![], FUEL), Err(Trap::NoSuchFunction));
}

#[test]
fn instance_records_other_exports_as_memory_zero() {
    let mut t = template_of(instantiate(&add_module_bytes(), env_f()));
    t.exports.push(ExportEntry { field: "table".to_string(), kind: ExternalKind::Table(3) });
    t.exports.push(ExportEntry { field: "glob".to_string(), kind: ExternalKind::Global(2) });
    let instance = t.instantiate();
    assert_eq!(
        instance.exports,
        vec![
            ExportEntry { field: "add".to_string(), kind: ExternalKind::Function(1) },
            ExportEntry { field: "table".to_string(), kind: ExternalKind::Memory(0) },
            ExportEntry { field: "glob".to_string(), kind: ExternalKind::Memory(0) },
        ]
    );
}

#[test]
fn frame_copies_the_instance_state() {
    let t = template_of(instantiate(&add_module_bytes(), env_f()));
    let mut instance = t.instantiate();
    instance.globals.push(ValueTypeProvider::I64(7));
    instance.memories.push(Memory { limits: ResizableLimits { initial: 1, maximum: None }, values: vec![1, 2, 3] });
    instance.tables.push(Table::AnyFunc { limits: ResizableLimits { initial: 0, maximum: Some(4) }, values: vec![1, 0] });
    let data = instance.get_frame();
    assert_eq!(data.globals, instance.globals);
    assert_eq!(data.memories, instance.memories);
    assert_eq!(data.tables, instance.tables);
    assert_eq!(data.types, instance.types);
}

#[test]
fn host_integers_become_run_time_values() {
    assert_eq!(HostValue::get_value(&5i32), ValueTypeProvider::I32(5));
    assert_eq!((-3i64).get_value(), ValueTypeProvider::I64(-3));
    let args = vec![1i32.get_value(), (-10i32).get_value()];
    let t = template_of(instantiate(&add_module_bytes(), env_f()));
    assert_eq!(t.instantiate().exports(no_host).call_fn(&"add".to_string(), args, FUEL), Ok(vec![ValueTypeProvider::I32(-9)]));
}

#[test]
fn loads_read_back_what_stores_wrote() {
    let m = MemoryImmediate { flags: 0, offset: 16 };
    let mut sf = frame();
    setup_memory(&mut sf, 0, vec![]);
    run(
        vec![
            op(Operation::I64Const(-5)),
            op(Operation::I64Store32(m)),
            op(Operation::I64Load32S(m)),
            op(Operation::I32Const(0x1ff)),
            op(Operation::I32Store8(m)),
            op(Operation::I32Load8S(m)),
            op(Operation::F64Const(0x4009_21fb_5444_2d18)),
            op(Operation::F64Store(m)),
            op(Operation::F64Load(m)),
            op(Operation::I32Const(i32::MIN)),
            op(Operation::I32Store(m)),
            op(Operation::I32Load(m)),
        ],
        &mut sf,
    )
    .unwrap();
    assert_eq!(
        sf.stack,
        vec![
            ValueTypeProvider::I64(-5),
            ValueTypeProvider::I32(-1),
            ValueTypeProvider::F64(0x4009_21fb_5444_2d18),
            ValueTypeProvider::I32(i32::MIN),
        ]
    );
    assert_eq!(sf.data.memories[0].values[16..20], [0x00, 0x00, 0x00, 0x80]);
}
#[test]
fn f32_comparison_ops() {
        { // F32Eq
            let mut sf = frame();
            let block = make_block(BlockType::Value(ValueType::I32), vec![Instruction::Block(make_block(BlockType::Value(ValueType::I32), vec![op(Operation::F32Const(3.14f32.to_bits())), op(Operation::F32Const(3.14f32.to_bits())), op(Operation::F32Eq), Instruction::If(make_block(BlockType::Empty, vec![op(Operation::I32Const(42)), op(Operation::End)])), op(Operation::End)]))]);
            block.execute(&mut sf, &no_host, FUEL).unwrap();
            assert_eq!(sf.stack, vec![ValueTypeProvider::I32(42)]);
        }
        {
            let mut sf = frame();
            let block = make_block(BlockType::Value(ValueType::I32), vec![Instruction::Block(make_block(BlockType::Value(ValueType::I32), vec![op(Operation::F32Const(3.14f32.to_bits())), op(Operation::F32Const(5.00f32.to_bits())), op(Operation::F32Eq), Instruction::If(make_block(BlockType::Empty, vec![op(Operation::I32Const(13)), op(Operation::End)])), op(Operation::I32Const(42)), op(Operation::End)]))]);
            block.execute(&mut sf, &no_host, FUEL).unwrap();
            assert_eq!(sf.stack, vec![ValueTypeProvider::I32(42)]);
        }
        { // F32Ne
            let mut sf = frame();
            let block = make_block(BlockType::Value(ValueType::I32), vec![Instruction::Block(make_block(BlockType::Value(ValueType::I32), vec![op(Operation::F32Const(3.14f32.to_bits())), op(Operation::F32Const(5.00f32.to_bits())), op(Operation::F32Ne), Instruction::If(make_block(BlockType::Empty, vec![op(Operation::I32Const(42)), op(Operation::End)])), op(Operation::End)]))]);
            block.execute(&mut sf, &no_host, FUEL).unwrap();
            assert_eq!(sf.stack, vec![ValueTypeProvider::I32(42)]);
        }
        {
            let mut sf = frame();
            let block = make_block(BlockType::Value(ValueType::I32), vec![Instruction::Block(make_block(BlockType::Value(ValueType::I32), vec![op(Operation::F32Const(3.14f32.to_bits())), op(Operation::F32Const(3.14f32.to_bits())), op(Operation::F32Ne), Instruction::If(make_block(BlockType::Empty, vec![op(Operation::I32Const(13)), op(Operation::End)])), op(Operation::I32Const(42)), op(Operation::End)]))]);
            block.execute(&mut sf, &no_host, FUEL).unwrap();
            assert_eq!(sf.stack, vec![ValueTypeProvider::I32(42)]);
        }
        { // F32Lt
            let mut sf = frame();
            let block = make_block(BlockType::Value(ValueType::I32), vec![Instruction::Block(make_block(BlockType::Value(ValueType::I32), vec![op(Operation::F32Const(5.00f32.to_bits())), op(Operation::F32Const(3.14f32.to_bits())), op(Operation::F32Lt), Instruction::If(make_block(BlockType::Empty, vec![op(Operation::I32Const(42)), op(Operation::End)])), op(Operation::End)]))]);
            block.execute(&mut sf, &no_host, FUEL).unwrap();
            assert_eq!(sf.stack, vec![ValueTypeProvider::I32(42)]);
        }
        {
            let mut sf = frame();
            let block = make_block(BlockType::Value(ValueType::I32), vec![Instruction::Block(make_block(BlockType::Value(ValueType::I32), vec![op(Operation::F32Const(5.00f32.to_bits())), op(Operation::F32Const(6.00f32.to_bits())), op(Operation::F32Lt), Instruction::If(make_block(BlockType::Empty, vec![op(Operation::I32Const(13)), op(Operation::End)])), op(Operation::I32Const(42)), op(Operation::End)]))]);
            block.execute(&mut sf, &no_host, FUEL).unwrap();
            assert_eq!(sf.stack, vec![ValueTypeProvider::I32(42)]);
        }
        { // F32Gt
            let mut sf = frame();
            let block = make_block(BlockType::Value(ValueType::I32), vec![Instruction::Block(make_block(BlockType::Value(ValueType::I32), vec![op(Operation::F32Const(5.00f32.to_bits())), op(Operation::F32Const(3.14f32.to_bits())), op(Operation::F32Gt), Instruction::If(make_block(BlockType::Empty, vec![op(Operation::I32Const(13)), op(Operation::End)])), op(Operation::I32Const(42)), op(Operation::End)]))]);
            block.execute(&mut sf, &no_host, FUEL).unwrap();
            assert_eq!(sf.stack, vec![ValueTypeProvider::I32(42)]);
        }
        {
            let mut sf = frame();
            let block = make_block(BlockType::Value(ValueType::I32), vec![Instruction::Block(make_block(BlockType::Value(ValueType::I32), vec![op(Operation::F32Const(5.00f32.to_bits())), op(Operation::F32Const(6.00f32.to_bits())), op(Operation::F32Gt), Instruction::If(make_block(BlockType::Empty, vec![op(Operation::I32Const(42)), op(Operation::End)])), op(Operation::End)]))]);
            block.execute(&mut sf, &no_host, FUEL).unwrap();
            assert_eq!(sf.stack, vec![ValueTypeProvider::I32(42)]);
        }
        { // F32Le
            let mut sf = frame();
            let block = make_block(BlockType::Value(ValueType::I32), vec![Instruction::Block(make_block(BlockType::Value(ValueType::I32), vec![op(Operation::F32Const(5.00f32.to_bits())), op(Operation::F32Const(3.14f32.to_bits())), op(Operation::F32Le), Instruction::If(make_block(BlockType::Empty, vec![op(Operation::I32Const(42)), op(Operation::End)])), op(Operation::End)]))]);
            block.execute(&mut sf, &no_host, FUEL).unwrap();
            assert_eq!(sf.stack, vec![ValueTypeProvider::I32(42)]);
        }
        {
            let mut sf = frame();
            let block = make_block(BlockType::Value(ValueType::I32), vec![Instruction::Block(make_block(BlockType::Value(ValueType::I32), vec![op(Operation::F32Const(5.00f32.to_bits())), op(Operation::F32Const(6.00f32.to_bits())), op(Operation::F32Le), Instruction::If(make_block(BlockType::Empty, vec![op(Operation::I32Const(13)), op(Operation::End)])), op(Operation::I32Const(42)), op(Operation::End)]))]);
            block.execute(&mut sf, &no_host, FUEL).unwrap();
            assert_eq!(sf.stack, vec![ValueTypeProvider::I32(42)]);
        }
        {
            let mut sf = frame();
            let block = make_block(BlockType::Value(ValueType::I32), vec![Instruction::Block(make_block(BlockType::Value(ValueType::I32), vec![op(Operation::F32Const(6.00f32.to_bits())), op(Operation::F32Const(6.00f32.to_bits())), op(Operation::F32Le), Instruction::If(make_block(BlockType::Empty, vec![op(Operation::I32Const(42)), op(Operation::End)])), op(Operation::End)]))]);
            block.execute(&mut sf, &no_host, FUEL).unwrap();
            assert_eq!(sf.stack, vec![ValueTypeProvider::I32(42)]);
        }
        { // F32Ge
            let mut sf = frame();
            let block = make_block(BlockType::Value(ValueType::I32), vec![Instruction::Block(make_block(BlockType::Value(ValueType::I32), vec![op(Operation::F32Const(5.00f32.to_bits())), op(Operation::F32Const(3.14f32.to_bits())), op(Operation::F32Ge), Instruction::If(make_block(BlockType::Empty, vec![op(Operation::I32Const(13)), op(Operation::End)])), op(Operation::I32Const(42)), op(Operation::End)]))]);
            block.execute(&mut sf, &no_host, FUEL).unwrap();
            assert_eq!(sf.stack, vec![ValueTypeProvider::I32(42)]);
        }
        {
            let mut sf = frame();
            let block = make_block(BlockType::Value(ValueType::I32), vec![Instruction::Block(make_block(BlockType::Value(ValueType::I32), vec![op(Operation::F32Const(5.00f32.to_bits())), op(Operation::F32Const(6.00f32.to_bits())), op(Operation::F32Ge), Instruction::If(make_block(BlockType::Empty, vec![op(Operation::I32Const(42)), op(Operation::End)])), op(Operation::End)]))]);
            block.execute(&mut sf, &no_host, FUEL).unwrap();
            assert_eq!(sf.stack, vec![ValueTypeProvider::I32(42)]);
        }
        {
            let mut sf = frame();
            let block = make_block(BlockType::Value(ValueType::I32), vec![Instruction::Block(make_block(BlockType::Value(ValueType::I32), vec![op(Operation::F32Const(6.00f32.to_bits())), op(Operation::F32Const(6.00f32.to_bits())), op(Operation::F32Ge), Instruction::If(make_block(BlockType::Empty, vec![op(Operation::I32Const(42)), op(Operation::End)])), op(Operation::End)]))]);
            block.execute(&mut sf, &no_host, FUEL).unwrap();
            assert_eq!(sf.stack, vec![ValueTypeProvider::I32(42)]);
        }
    }

#[test]
fn f64_comparison_ops() {
        { // F64Eq
            let mut sf = frame();
            let block = make_block(BlockType::Value(ValueType::I32), vec![Instruction::Block(make_block(BlockType::Value(ValueType::I32), vec![op(Operation::F64Const(3.14f64.to_bits())), op(Operation::F64Const(3.14f64.to_bits())), op(Operation::F64Eq), Instruction::If(make_block(BlockType::Empty, vec![op(Operation::I32Const(42)), op(Operation::End)])), op(Operation::End)]))]);
            block.execute(&mut sf, &no_host, FUEL).unwrap();
            assert_eq!(sf.stack, vec![ValueTypeProvider::I32(42)]);
        }
        {
            let mut sf = frame();
            let block = make_block(BlockType::Value(ValueType::I32), vec![Instruction::Block(make_block(BlockType::Value(ValueType::I32), vec![op(Operation::F64Const(3.14f64.to_bits())), op(Operation::F64Const(5.00f64.to_bits())), op(Operation::F64Eq), Instruction::If(make_block(BlockType::Empty, vec![op(Operation::I32Const(13)), op(Operation::End)])), op(Operation::I32Const(42)), op(Operation::End)]))]);
            block.execute(&mut sf, &no_host, FUEL).unwrap();
            assert_eq!(sf.stack, vec![ValueTypeProvider::I32(42)]);
        }
        { // F64Ne
            let mut sf = frame();
            let block = make_block(BlockType::Value(ValueType::I32), vec![Instruction::Block(make_block(BlockType::Value(ValueType::I32), vec![op(Operation::F64Const(3.14f64.to_bits())), op(Operation::F64Const(5.00f64.to_bits())), op(Operation::F64Ne), Instruction::If(make_block(BlockType::Empty, vec![op(Operation::I32Const(42)), op(Operation::End)])), op(Operation::End)]))]);
            block.execute(&mut sf, &no_host, FUEL).unwrap();
            assert_eq!(sf.stack, vec![ValueTypeProvider::I32(42)]);
        }
        {
            let mut sf = frame();
            let block = make_block(BlockType::Value(ValueType::I32), vec![Instruction::Block(make_block(BlockType::Value(ValueType::I32), vec![op(Operation::F64Const(3.14f64.to_bits())), op(Operation::F64Const(3.14f64.to_bits())), op(Operation::F64Ne), Instruction::If(make_block(BlockType::Empty, vec![op(Operation::I32Const(13)), op(Operation::End)])), op(Operation::I32Const(42)), op(Operation::End)]))]);
            block.execute(&mut sf, &no_host, FUEL).unwrap();
            assert_eq!(sf.stack, vec![ValueTypeProvider::I32(42)]);
        }
        { // F64Lt
            let mut sf = frame();
            let block = make_block(BlockType::Value(ValueType::I32), vec![Instruction::Block(make_block(BlockType::Value(ValueType::I32), vec![op(Operation::F64Const(5.00f64.to_bits())), op(Operation::F64Const(3.14f64.to_bits())), op(Operation::F64Lt), Instruction::If(make_block(BlockType::Empty, vec![op(Operation::I32Const(42)), op(Operation::End)])), op(Operation::End)]))]);
            block.execute(&mut sf, &no_host, FUEL).unwrap();
            assert_eq!(sf.stack, vec![ValueTypeProvider::I32(42)]);
        }
        {
            let mut sf = frame();
            let block = make_block(BlockType::Value(ValueType::I32), vec![Instruction::Block(make_block(BlockType::Value(ValueType::I32), vec![op(Operation::F64Const(5.00f64.to_bits())), op(Operation::F64Const(6.00f64.to_bits())), op(Operation::F64Lt), Instruction::If(make_block(BlockType::Empty, vec![op(Operation::I32Const(13)), op(Operation::End)])), op(Operation::I32Const(42)), op(Operation::End)]))]);
            block.execute(&mut sf, &no_host, FUEL).unwrap();
            assert_eq!(sf.stack, vec![ValueTypeProvider::I32(42)]);
        }
        { // F64Gt
            let mut sf = frame();
            let block = make_block(BlockType::Value(ValueType::I32), vec![Instruction::Block(make_block(BlockType::Value(ValueType::I32), vec![op(Operation::F64Const(5.00f64.to_bits())), op(Operation::F64Const(3.14f64.to_bits())), op(Operation::F64Gt), Instruction::If(make_block(BlockType::Empty, vec![op(Operation::I32Const(13)), op(Operation::End)])), op(Operation::I32Const(42)), op(Operation::End)]))]);
            block.execute(&mut sf, &no_host, FUEL).unwrap();
            assert_eq!(sf.stack, vec![ValueTypeProvider::I32(42)]);
        }
        {
            let mut sf = frame();
            let block = make_block(BlockType::Value(ValueType::I32), vec![Instruction::Block(make_block(BlockType::Value(ValueType::I32), vec![op(Operation::F64Const(5.00f64.to_bits())), op(Operation::F64Const(6.00f64.to_bits())), op(Operation::F64Gt), Instruction::If(make_block(BlockType::Empty, vec![op(Operation::I32Const(42)), op(Operation::End)])), op(Operation::End)]))]);
            block.execute(&mut sf, &no_host, FUEL).unwrap();
            assert_eq!(sf.stack, vec![ValueTypeProvider::I32(42)]);
        }
        { // F64Le
            let mut sf = frame();
            let block = make_block(BlockType::Value(ValueType::I32), vec![Instruction::Block(make_block(BlockType::Value(ValueType::I32), vec![op(Operation::F64Const(5.00f64.to_bits())), op(Operation::F64Const(3.14f64.to_bits())), op(Operation::F64Le), Instruction::If(make_block(BlockType::Empty, vec![op(Operation::I32Const(42)), op(Operation::End)])), op(Operation::End)]))]);
            block.execute(&mut sf, &no_host, FUEL).unwrap();
            assert_eq!(sf.stack, vec![ValueTypeProvider::I32(42)]);
        }
        {
            let mut sf = frame();
            let block = make_block(BlockType::Value(ValueType::I32), vec![Instruction::Block(make_block(BlockType::Value(ValueType::I32), vec![op(Operation::F64Const(5.00f64.to_bits())), op(Operation::F64Const(6.00f64.to_bits())), op(Operation::F64Le), Instruction::If(make_block(BlockType::Empty, vec![op(Operation::I32Const(13)), op(Operation::End)])), op(Operation::I32Const(42)), op(Operation::End)]))]);
            block.execute(&mut sf, &no_host, FUEL).unwrap();
            assert_eq!(sf.stack, vec![ValueTypeProvider::I32(42)]);
        }
        {
            let mut sf = frame();
            let block = make_block(BlockType::Value(ValueType::I32), vec![Instruction::Block(make_block(BlockType::Value(ValueType::I32), vec![op(Operation::F64Const(6.00f64.to_bits())), op(Operation::F64Const(6.00f64.to_bits())), op(Operation::F64Le), Instruction::If(make_block(BlockType::Empty, vec![op(Operation::I32Const(42)), op(Operation::End)])), op(Operation::End)]))]);
            block.execute(&mut sf, &no_host, FUEL).unwrap();
            assert_eq!(sf.stack, vec![ValueTypeProvider::I32(42)]);
        }
        { // F64Ge
            let mut sf = frame();
            let block = make_block(BlockType::Value(ValueType::I32), vec![Instruction::Block(make_block(BlockType::Value(ValueType::I32), vec![op(Operation::F64Const(5.00f64.to_bits())), op(Operation::F64Const(3.14f64.to_bits())), op(Operation::F64Ge), Instruction::If(make_block(BlockType::Empty, vec![op(Operation::I32Const(13)), op(Operation::End)])), op(Operation::I32Const(42)), op(Operation::End)]))]);
            block.execute(&mut sf, &no_host, FUEL).unwrap();
            assert_eq!(sf.stack, vec![ValueTypeProvider::I32(42)]);
        }
        {
            let mut sf = frame();
            let block = make_block(BlockType::Value(ValueType::I32), vec![Instruction::Block(make_block(BlockType::Value(ValueType::I32), vec![op(Operation::F64Const(5.00f64.to_bits())), op(Operation::F64Const(6.00f64.to_bits())), op(Operation::F64Ge), Instruction::If(make_block(BlockType::Empty, vec![op(Operation::I32Const(42)), op(Operation::End)])), op(Operation::End)]))]);
            block.execute(&mut sf, &no_host, FUEL).unwrap();
            assert_eq!(sf.stack, vec![ValueTypeProvider::I32(42)]);
        }
        {
            let mut sf = frame();
            let block = make_block(BlockType::Value(ValueType::I32), vec![Instruction::Block(make_block(BlockType::Value(ValueType::I32), vec![op(Operation::F64Const(6.00f64.to_bits())), op(Operation::F64Const(6.00f64.to_bits())), op(Operation::F64Ge), Instruction::If(make_block(BlockType::Empty, vec![op(Operation::I32Const(42)), op(Operation::End)])), op(Operation::End)]))]);
            block.execute(&mut sf, &no_host, FUEL).unwrap();
            assert_eq!(sf.stack, vec![ValueTypeProvider::I32(42)]);
        }
    }

#[test]
fn numeric_conversions() {
        { // I32WrapI64
            let mut sf = frame();
            let block = make_block(BlockType::Value(ValueType::I32), vec![op(Operation::I64Const(0xdeadbeefcafebabeu64 as i64)), op(Operation::I32WrapI64), op(Operation::End)]);
            block.execute(&mut sf, &no_host, FUEL).unwrap();
            assert_eq!(sf.stack, vec![ValueTypeProvider::I32(0xcafebabeu32 as i32)]);
        }
        { // I32TruncSF32
            let mut sf = frame();
            let block = make_block(BlockType::Value(ValueType::I32), vec![op(Operation::F32Const(3.14f32.to_bits())), op(Operation::I32TruncSF32), op(Operation::End)]);
            block.execute(&mut sf, &no_host, FUEL).unwrap();
            assert_eq!(sf.stack, vec![ValueTypeProvider::I32(3)]);
        }
        { // I32TruncSF32
            let mut sf = frame();
            let block = make_block(BlockType::Value(ValueType::I32), vec![op(Operation::F32Const((-3.9f32).to_bits())), op(Operation::I32TruncSF32), op(Operation::End)]);
            block.execute(&mut sf, &no_host, FUEL).unwrap();
            assert_eq!(sf.stack, vec![ValueTypeProvider::I32(-3)]);
        }
        { // I32TruncUF32
            let mut sf = frame();
            let block = make_block(BlockType::Value(ValueType::I32), vec![op(Operation::F32Const((-3.14f32).to_bits())), op(Operation::I32TruncUF32), op(Operation::End)]);
            block.execute(&mut sf, &no_host, FUEL).unwrap();
            assert_eq!(sf.stack, vec![ValueTypeProvider::I32(-3)]);
        }
    }


fn single(o: Operation, operands: Vec<ValueTypeProvider>) -> Result<Vec<ValueTypeProvider>, Trap> {
    let mut sf = frame();
    sf.stack = operands;
    run(vec![op(o)], &mut sf).map(|_| sf.stack.clone())
}

fn f32v(x: f32) -> ValueTypeProvider {
    ValueTypeProvider::F32(x.to_bits())
}

fn f64v(x: f64) -> ValueTypeProvider {
    ValueTypeProvider::F64(x.to_bits())
}

#[test]
fn float_comparisons_follow_ieee() {
    let t = Ok(vec![ValueTypeProvider::I32(1)]);
    let f = Ok(vec![ValueTypeProvider::I32(0)]);
    // the value on top of the stack is the left operand
    assert_eq!(single(Operation::F32Eq, vec![f32v(0.0), f32v(-0.0)]), t);
    assert_eq!(single(Operation::F32Eq, vec![f32v(f32::NAN), f32v(f32::NAN)]), f);
    assert_eq!(single(Operation::F32Ne, vec![f32v(f32::NAN), f32v(f32::NAN)]), t);
    assert_eq!(single(Operation::F32Lt, vec![f32v(1.0), f32v(-2.5)]), t);
    assert_eq!(single(Operation::F32Lt, vec![f32v(f32::NAN), f32v(-2.5)]), f);
    assert_eq!(single(Operation::F32Ge, vec![f32v(-0.0), f32v(0.0)]), t);
    assert_eq!(single(Operation::F32Gt, vec![f32v(f32::MAX), f32v(f32::INFINITY)]), t);
    assert_eq!(single(Operation::F32Le, vec![f32v(f32::NEG_INFINITY), f32v(-1e30)]), f);
    assert_eq!(single(Operation::F64Lt, vec![f64v(-1.0), f64v(-2.0)]), t);
    assert_eq!(single(Operation::F64Eq, vec![f64v(-0.0), f64v(0.0)]), t);
    assert_eq!(single(Operation::F64Le, vec![f64v(f64::NAN), f64v(1.0)]), f);
    assert_eq!(single(Operation::F64Gt, vec![f64v(0.0), f64v(5e-324)]), t);
    // operands of another type are dropped
    assert_eq!(single(Operation::F64Eq, vec![ValueTypeProvider::F32(0), f64v(0.0)]), Ok(vec![]));
}

#[test]
fn float_truncation_saturates_like_as() {
    let cases32: Vec<f32> = vec![0.5, -0.99, 2.5e9, -2.5e9, 1e-45, 16777216.0, -2147483648.0, f32::INFINITY, f32::NEG_INFINITY, f32::NAN];
    for x in cases32 {
        assert_eq!(single(Operation::I32TruncSF32, vec![f32v(x)]), Ok(vec![ValueTypeProvider::I32(x as i32)]));
        assert_eq!(single(Operation::I64TruncUF32, vec![f32v(x)]), Ok(vec![ValueTypeProvider::I64(x as i64)]));
    }
    let cases64: Vec<f64> = vec![
        123456789.75,
        -9.5,
        1e19,
        -9.3e18,
        9007199254740993.0,
        -9223372036854775808.0,
        2147483647.9,
        5e-324,
        f64::INFINITY,
        f64::NAN,
    ];
    for x in cases64 {
        assert_eq!(single(Operation::I32TruncUF64, vec![f64v(x)]), Ok(vec![ValueTypeProvider::I32(x as i32)]));
        assert_eq!(single(Operation::I64TruncSF64, vec![f64v(x)]), Ok(vec![ValueTypeProvider::I64(x as i64)]));
    }
}

/// A host whose function 0 subtracts its second argument from its first.
fn env(index: usize, args: Vec<ValueTypeProvider>) -> Option<Vec<ValueTypeProvider>> {
    match (index, args.as_slice()) {
        (0, [ValueTypeProvider::I32(a), ValueTypeProvider::I32(b)]) => Some(vec![ValueTypeProvider::I32(a - b)]),
        _ => None,
    }
}

fn imported_function() -> Func {
    Func {
        signature: FuncSignature { parameters: vec![ValueType::I32, ValueType::I32], returns: vec![ValueType::I32] },
        locals: vec![],
        body: None,
    }
}

#[test]
fn imported_functions_run_on_the_host() {
    let funcs = functions(vec![imported_function()]);
    let mut sf = StackFrame::new(ModuleInstanceData::new(funcs), vec![], vec![]);
    let code = make_block(
        BlockType::Empty,
        vec![op(Operation::I32Const(5)), op(Operation::I32Const(6)), op(Operation::I32Const(7)), op(Operation::Call(0))],
    );
    assert_eq!(code.execute(&mut sf, &env, FUEL), Ok(0));
    // the arguments come in the order in which they were popped
    assert_eq!(sf.stack, vec![ValueTypeProvider::I32(5), ValueTypeProvider::I32(1)]);
    let mut sf = StackFrame::new(ModuleInstanceData::new(funcs), vec![], vec![]);
    assert_eq!(
        make_block(BlockType::Empty, vec![op(Operation::I32Const(6)), op(Operation::I32Const(7)), op(Operation::Call(0))])
            .execute(&mut sf, &no_host, FUEL),
        Err(Trap::HostFunction)
    );
}

#[test]
fn imported_function_of_a_decoded_module_is_called_on_the_host() {
    let t = template_of(instantiate(&add_module_bytes(), env_f()));
    let instance = t.instantiate();
    let mut sf = StackFrame::new(instance.get_frame(), vec![], vec![]);
    assert_eq!(
        call_fn(&mut sf, &env, 0, vec![ValueTypeProvider::I32(9), ValueTypeProvider::I32(4)], FUEL),
        Ok(vec![ValueTypeProvider::I32(5)])
    );
    assert_eq!(call_fn(&mut sf, &env, 0, vec![], FUEL), Err(Trap::HostFunction));
    let mut exports = instance.exports(env);
    assert_eq!(
        exports.call_fn(&"add".to_string(), vec![ValueTypeProvider::I32(2), ValueTypeProvider::I32(3)], FUEL),
        Ok(vec![ValueTypeProvider::I32(5)])
    );
}

#[test]
fn a_host_whose_answers_change_is_called_once_per_call() {
    let calls = std::cell::Cell::new(0u32);
    let counting = |_index: usize, _args: Vec<ValueTypeProvider>| {
        calls.set(calls.get() + 1);
        if calls.get() == 1 { Some(vec![ValueTypeProvider::I32(10)]) } else { None }
    };
    let funcs = functions(vec![imported_function()]);
    let mut sf = StackFrame::new(ModuleInstanceData::new(funcs), vec![], vec![]);
    let args = vec![ValueTypeProvider::I32(6), ValueTypeProvider::I32(7)];
    assert_eq!(call_fn(&mut sf, &counting, 0, args.clone(), FUEL), Ok(vec![ValueTypeProvider::I32(10)]));
    assert_eq!(call_fn(&mut sf, &counting, 0, args, FUEL), Err(Trap::HostFunction));
    assert_eq!(calls.get(), 2);
    assert_eq!(call_fn(&mut sf, &counting, 3, vec![], FUEL), Err(Trap::NoSuchFunction));
    assert_eq!(calls.get(), 2);
}

#[test]
fn function_imports_are_named_by_index() {
    let module = ModuleParser::default().parse_module(&add_module_bytes()).unwrap();
    assert_eq!(function_import_names(&module.imports, &env_f()), vec![("env".to_string(), "f".to_string())]);
}

#[test]
fn nothing_after_the_first_end_runs() {
    let before = || vec![op(Operation::I32Const(3)), Instruction::Block(make_block(BlockType::Empty, vec![op(Operation::End)]))];
    let mut with_end = before();
    with_end.push(op(Operation::End));
    with_end.push(op(Operation::I32Const(0)));
    with_end.push(op(Operation::Unreachable));
    let mut sf1 = frame();
    let mut sf2 = frame();
    assert_eq!(make_block(BlockType::Empty, with_end).execute(&mut sf1, &no_host, FUEL), Ok(0));
    assert_eq!(make_block(BlockType::Empty, before()).execute(&mut sf2, &no_host, FUEL), Ok(0));
    assert_eq!(sf1.stack, sf2.stack);
    assert_eq!(sf1.stack, vec![ValueTypeProvider::I32(3)]);
}

#[test]
fn unsigned_truncation_to_i32_wraps_through_u32() {
    for x in [3.0e9f32, 5.0e9, 2.5, f32::INFINITY, 0.0] {
        assert_eq!(single(Operation::I32TruncUF32, vec![f32v(x)]), Ok(vec![ValueTypeProvider::I32(x as u32 as i32)]));
    }
    assert_eq!(single(Operation::I32TruncUF32, vec![f32v(-3.14)]), Ok(vec![ValueTypeProvider::I32(-3)]));
    assert_eq!(single(Operation::I32TruncUF32, vec![f32v(-3.0e9)]), Ok(vec![ValueTypeProvider::I32(i32::MIN)]));
}

#[test]
fn integer_conversions_to_float_round_like_as() {
    for a in [0i32, 1, -1, 16777217, -16777219, i32::MAX, i32::MIN, 123456789] {
        assert_eq!(single(Operation::F32ConvertSI32, vec![ValueTypeProvider::I32(a)]), Ok(vec![f32v(a as f32)]));
        assert_eq!(single(Operation::F32ConvertUI32, vec![ValueTypeProvider::I32(a)]), Ok(vec![f32v((a as u32) as f32)]));
        assert_eq!(single(Operation::F64ConvertSI32, vec![ValueTypeProvider::I32(a)]), Ok(vec![f64v(a as f64)]));
        assert_eq!(single(Operation::F64ConvertUI32, vec![ValueTypeProvider::I32(a)]), Ok(vec![f64v((a as u32) as f64)]));
    }
    for a in [0i64, -7, (1 << 53) + 1, -(1 << 53) - 3, i64::MAX, i64::MIN, 0x0100_0000_8000_0000, -0x7fff_ffbf] {
        assert_eq!(single(Operation::F32ConvertSI64, vec![ValueTypeProvider::I64(a)]), Ok(vec![f32v(a as f32)]));
        assert_eq!(single(Operation::F32ConvertUI64, vec![ValueTypeProvider::I64(a)]), Ok(vec![f32v((a as u64) as f32)]));
        assert_eq!(single(Operation::F64ConvertSI64, vec![ValueTypeProvider::I64(a)]), Ok(vec![f64v(a as f64)]));
        assert_eq!(single(Operation::F64ConvertUI64, vec![ValueTypeProvider::I64(a)]), Ok(vec![f64v((a as u64) as f64)]));
    }
}

/// A module that imports `env.f`, `env.g` and `lib.h`, all of signature 0.
fn three_imports_bytes() -> Vec<u8> {
    vec![
        0x00, 0x61, 0x73, 0x6d, 0x01, 0x00, 0x00, 0x00, //
        1, 4, 1, 0x60, 0, 0, //
        2, 25, 3, 3, b'e', b'n', b'v', 1, b'f', 0x00, 0, 3, b'e', b'n', b'v', 1, b'g', 0x00, 0, 3, b'l', b'i', b'b', 1, b'h', 0x00, 0,
    ]
}

fn names(list: &[(&str, &str)]) -> Vec<(String, String)> {
    list.iter().map(|(m, f)| (m.to_string(), f.to_string())).collect()
}

#[test]
fn imports_get_functions_only_where_the_host_supplies_them() {
    let module = ModuleParser::default().parse_module(&three_imports_bytes()).unwrap();
    // nothing supplied: no imported functions
    assert_eq!(module.build_functions(&vec![]).unwrap().len(), 0);
    // env.f and lib.h supplied
    let supplied = names(&[("env", "f"), ("lib", "h")]);
    assert_eq!(module.build_functions(&supplied).unwrap().len(), 2);
    assert_eq!(function_import_names(&module.imports, &supplied), supplied);
    // only the first function import from a module gets one: env.g is not reached
    let supplied = names(&[("env", "g")]);
    assert_eq!(module.build_functions(&supplied).unwrap().len(), 0);
    assert_eq!(function_import_names(&module.imports, &supplied), vec![]);
    let supplied = names(&[("env", "f"), ("env", "g")]);
    assert_eq!(module.build_functions(&supplied).unwrap().len(), 1);
    assert_eq!(function_import_names(&module.imports, &supplied), names(&[("env", "f")]));
}

#[test]
fn f32_ops() {
    // abs and neg move bits and run; the arithmetic stops with FloatArithmetic
        { // F32Abs
            let mut sf = frame();
            let block = make_block(BlockType::Value(ValueType::F32), vec![op(Operation::F32Const((-1.5f32).to_bits())), op(Operation::F32Abs), op(Operation::End)]);
            block.execute(&mut sf, &no_host, FUEL).unwrap();
            assert_eq!(sf.stack, vec![ValueTypeProvider::F32(1.5f32.to_bits())]);
        }
        { // F32Negs
            let mut sf = frame();
            let block = make_block(BlockType::Value(ValueType::F32), vec![op(Operation::F32Const((-1.5f32).to_bits())), op(Operation::F32Neg), op(Operation::End)]);
            block.execute(&mut sf, &no_host, FUEL).unwrap();
            assert_eq!(sf.stack, vec![ValueTypeProvider::F32(1.5f32.to_bits())]);
        }
        { // F32Ceil
            let mut sf = frame();
            let block = make_block(BlockType::Value(ValueType::F32), vec![op(Operation::F32Const((-1.5f32).to_bits())), op(Operation::F32Ceil), op(Operation::End)]);
            assert_eq!(block.execute(&mut sf, &no_host, FUEL), Err(Trap::FloatArithmetic));
        }
        { // F32Floor
            let mut sf = frame();
            let block = make_block(BlockType::Value(ValueType::F32), vec![op(Operation::F32Const((-1.5f32).to_bits())), op(Operation::F32Floor), op(Operation::End)]);
            assert_eq!(block.execute(&mut sf, &no_host, FUEL), Err(Trap::FloatArithmetic));
        }
        { // F32Trunc
            let mut sf = frame();
            let block = make_block(BlockType::Value(ValueType::F32), vec![op(Operation::F32Const((-1.5f32).to_bits())), op(Operation::F32Trunc), op(Operation::End)]);
            assert_eq!(block.execute(&mut sf, &no_host, FUEL), Err(Trap::FloatArithmetic));
        }
        { // F32Nearest
            let mut sf = frame();
            let block = make_block(BlockType::Value(ValueType::F32), vec![op(Operation::F32Const(1.5f32.to_bits())), op(Operation::F32Nearest), op(Operation::End)]);
            assert_eq!(block.execute(&mut sf, &no_host, FUEL), Err(Trap::FloatArithmetic));
        }
        { // F32Sqrt
            let mut sf = frame();
            let block = make_block(BlockType::Value(ValueType::F32), vec![op(Operation::F32Const(4.0f32.to_bits())), op(Operation::F32Sqrt), op(Operation::End)]);
            assert_eq!(block.execute(&mut sf, &no_host, FUEL), Err(Trap::FloatArithmetic));
        }
        { // F32Add
            let mut sf = frame();
            let block = make_block(BlockType::Value(ValueType::F32), vec![op(Operation::F32Const(4.0f32.to_bits())), op(Operation::F32Const(1.5f32.to_bits())), op(Operation::F32Add), op(Operation::End)]);
            assert_eq!(block.execute(&mut sf, &no_host, FUEL), Err(Trap::FloatArithmetic));
        }
        { // F32Add
            let mut sf = frame();
            let block = make_block(BlockType::Value(ValueType::F32), vec![op(Operation::F32Const(4.0f32.to_bits())), op(Operation::F32Const(1.5f32.to_bits())), op(Operation::F32Sub), op(Operation::End)]);
            assert_eq!(block.execute(&mut sf, &no_host, FUEL), Err(Trap::FloatArithmetic));
        }
        { // F32Mul
            let mut sf = frame();
            let block = make_block(BlockType::Value(ValueType::F32), vec![op(Operation::F32Const(4.0f32.to_bits())), op(Operation::F32Const(1.5f32.to_bits())), op(Operation::F32Mul), op(Operation::End)]);
            assert_eq!(block.execute(&mut sf, &no_host, FUEL), Err(Trap::FloatArithmetic));
        }
        { // F32Div
            let mut sf = frame();
            let block = make_block(BlockType::Value(ValueType::F32), vec![op(Operation::F32Const(3.0f32.to_bits())), op(Operation::F32Const(6.0f32.to_bits())), op(Operation::F32Div), op(Operation::End)]);
            assert_eq!(block.execute(&mut sf, &no_host, FUEL), Err(Trap::FloatArithmetic));
        }
        { // F32Min
            let mut sf = frame();
            let block = make_block(BlockType::Value(ValueType::F32), vec![op(Operation::F32Const(4.0f32.to_bits())), op(Operation::F32Const(1.5f32.to_bits())), op(Operation::F32Min), op(Operation::End)]);
            assert_eq!(block.execute(&mut sf, &no_host, FUEL), Err(Trap::FloatArithmetic));
        }
        { // F32Max
            let mut sf = frame();
            let block = make_block(BlockType::Value(ValueType::F32), vec![op(Operation::F32Const(4.0f32.to_bits())), op(Operation::F32Const(1.5f32.to_bits())), op(Operation::F32Max), op(Operation::End)]);
            assert_eq!(block.execute(&mut sf, &no_host, FUEL), Err(Trap::FloatArithmetic));
        }
        { // F32Copysign
            let mut sf = frame();
            let block = make_block(BlockType::Value(ValueType::F32), vec![op(Operation::F32Const(3.14f32.to_bits())), op(Operation::F32Const((-100.0f32).to_bits())), op(Operation::F32Copysign), op(Operation::End)]);
            assert_eq!(block.execute(&mut sf, &no_host, FUEL), Err(Trap::FloatArithmetic));
        }
    }

#[test]
fn f64_ops() {
    // abs and neg move bits and run; the arithmetic stops with FloatArithmetic
        { // F64Abs
            let mut sf = frame();
            let block = make_block(BlockType::Value(ValueType::F32), vec![op(Operation::F64Const((-1.5f64).to_bits())), op(Operation::F64Abs), op(Operation::End)]);
            block.execute(&mut sf, &no_host, FUEL).unwrap();
            assert_eq!(sf.stack, vec![ValueTypeProvider::F64(1.5f64.to_bits())]);
        }
        { // F64Neg
            let mut sf = frame();
            let block = make_block(BlockType::Value(ValueType::F32), vec![op(Operation::F64Const((-1.5f64).to_bits())), op(Operation::F64Neg), op(Operation::End)]);
            block.execute(&mut sf, &no_host, FUEL).unwrap();
            assert_eq!(sf.stack, vec![ValueTypeProvider::F64(1.5f64.to_bits())]);
        }
        { // F64Ceil
            let mut sf = frame();
            let block = make_block(BlockType::Value(ValueType::F32), vec![op(Operation::F64Const((-1.5f64).to_bits())), op(Operation::F64Ceil), op(Operation::End)]);
            assert_eq!(block.execute(&mut sf, &no_host, FUEL), Err(Trap::FloatArithmetic));
        }
        { // F64Floor
            let mut sf = frame();
            let block = make_block(BlockType::Value(ValueType::F64), vec![op(Operation::F64Const((-1.5f64).to_bits())), op(Operation::F64Floor), op(Operation::End)]);
            assert_eq!(block.execute(&mut sf, &no_host, FUEL), Err(Trap::FloatArithmetic));
        }
        { // F64Trunc
            let mut sf = frame();
            let block = make_block(BlockType::Value(ValueType::F32), vec![op(Operation::F64Const((-1.5f64).to_bits())), op(Operation::F64Trunc), op(Operation::End)]);
            assert_eq!(block.execute(&mut sf, &no_host, FUEL), Err(Trap::FloatArithmetic));
        }
        { // F64Nearest
            let mut sf = frame();
            let block = make_block(BlockType::Value(ValueType::F32), vec![op(Operation::F64Const(1.5f64.to_bits())), op(Operation::F64Nearest), op(Operation::End)]);
            assert_eq!(block.execute(&mut sf, &no_host, FUEL), Err(Trap::FloatArithmetic));
        }
        { // F64Sqrt
            let mut sf = frame();
            let block = make_block(BlockType::Value(ValueType::F32), vec![op(Operation::F64Const(4.0f64.to_bits())), op(Operation::F64Sqrt), op(Operation::End)]);
            assert_eq!(block.execute(&mut sf, &no_host, FUEL), Err(Trap::FloatArithmetic));
        }
        { // F64Add
            let mut sf = frame();
            let block = make_block(BlockType::Value(ValueType::F32), vec![op(Operation::F64Const(4.0f64.to_bits())), op(Operation::F64Const(1.5f64.to_bits())), op(Operation::F64Add), op(Operation::End)]);
            assert_eq!(block.execute(&mut sf, &no_host, FUEL), Err(Trap::FloatArithmetic));
        }
        { // F64Add
            let mut sf = frame();
            let block = make_block(BlockType::Value(ValueType::F32), vec![op(Operation::F64Const(4.0f64.to_bits())), op(Operation::F64Const(1.5f64.to_bits())), op(Operation::F64Sub), op(Operation::End)]);
            assert_eq!(block.execute(&mut sf, &no_host, FUEL), Err(Trap::FloatArithmetic));
        }
        { // F64Mul
            let mut sf = frame();
            let block = make_block(BlockType::Value(ValueType::F32), vec![op(Operation::F64Const(4.0f64.to_bits())), op(Operation::F64Const(1.5f64.to_bits())), op(Operation::F64Mul), op(Operation::End)]);
            assert_eq!(block.execute(&mut sf, &no_host, FUEL), Err(Trap::FloatArithmetic));
        }
        { // F64Div
            let mut sf = frame();
            let block = make_block(BlockType::Value(ValueType::F64), vec![op(Operation::F64Const(3.0f64.to_bits())), op(Operation::F64Const(6.0f64.to_bits())), op(Operation::F64Div), op(Operation::End)]);
            assert_eq!(block.execute(&mut sf, &no_host, FUEL), Err(Trap::FloatArithmetic));
        }
        { // F64Min
            let mut sf = frame();
            let block = make_block(BlockType::Value(ValueType::F32), vec![op(Operation::F64Const(4.0f64.to_bits())), op(Operation::F64Const(1.5f64.to_bits())), op(Operation::F64Min), op(Operation::End)]);
            assert_eq!(block.execute(&mut sf, &no_host, FUEL), Err(Trap::FloatArithmetic));
        }
        { // F64Max
            let mut sf = frame();
            let block = make_block(BlockType::Value(ValueType::F32), vec![op(Operation::F64Const(4.0f64.to_bits())), op(Operation::F64Const(1.5f64.to_bits())), op(Operation::F64Max), op(Operation::End)]);
            assert_eq!(block.execute(&mut sf, &no_host, FUEL), Err(Trap::FloatArithmetic));
        }
        { // F64Copysign
            let mut sf = frame();
            let block = make_block(BlockType::Value(ValueType::F32), vec![op(Operation::F64Const(3.14f64.to_bits())), op(Operation::F64Const((-100.0f64).to_bits())), op(Operation::F64Copysign), op(Operation::End)]);
            assert_eq!(block.execute(&mut sf, &no_host, FUEL), Err(Trap::FloatArithmetic));
        }
    }

