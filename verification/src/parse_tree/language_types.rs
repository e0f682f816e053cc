//! The language types of the WebAssembly 1.0 binary format.
use vstd::prelude::*;

verus! {

/// A value type.
#[derive(Debug, Clone, Copy, PartialEq, Eq, Structural)]
pub enum ValueType {
    I32,
    I64,
    F32,
    F64,
}

/// A language type: a value type or one of the type constructors.
#[derive(Debug, Clone, Copy, PartialEq, Eq, Structural)]
pub enum LanguageType {
    Value(ValueType),
    /// Untyped function reference.
    Anyfunc,
    /// Function signature.
    Func,
    /// Block without a result.
    EmptyBlock,
}

/// An imported or exported entity and its index.
#[derive(Debug, Clone, Copy, PartialEq, Eq, Structural)]
pub enum ExternalKind {
    Function(usize),
    Table(usize),
    Memory(usize),
    Global(usize),
}

/// The element type and limits of a table.
#[derive(Debug, Clone, Copy, PartialEq, Eq)]
pub struct TableType {
    pub elem_type: LanguageType,
    pub limits: ResizableLimits,
}

/// Initial size and optional maximum of a table or a memory.
#[derive(Debug, Clone, Copy, PartialEq, Eq)]
pub struct ResizableLimits {
    pub initial: u64,
    pub maximum: Option<u64>,
}

/// Type and mutability of a global.
#[derive(Debug, Clone, Copy, PartialEq, Eq, Structural)]
pub struct GlobalType {
    pub content_type: ValueType,
    pub mutability: bool,
}

/// A constant expression. Float constants hold the bits of their immediate
/// bytes, read as a little-endian unsigned integer, converted to floating point
/// as that number (rounded to nearest, ties to even).
#[derive(Debug, Clone, Copy, PartialEq, Eq, Structural)]
pub enum InitExpression {
    I32Const(i32),
    I64Const(i64),
    F32Const(u32),
    F64Const(u64),
    GetGlobal(usize),
}

/// The immediate of a load or a store.
#[derive(Debug, Clone, Copy, PartialEq, Eq, Structural)]
pub struct MemoryImmediate {
    pub flags: u32,
    pub offset: u32,
}

/// The result type of a block.
#[derive(Debug, Clone, Copy, PartialEq, Eq, Structural)]
pub enum BlockType {
    Value(ValueType),
    Empty,
}

impl View for ValueType {
    type V = ValueType;

    open spec fn view(&self) -> ValueType {
        *self
    }
}

impl View for LanguageType {
    type V = LanguageType;

    open spec fn view(&self) -> LanguageType {
        *self
    }
}

impl View for ExternalKind {
    type V = ExternalKind;

    open spec fn view(&self) -> ExternalKind {
        *self
    }
}

impl View for TableType {
    type V = TableType;

    open spec fn view(&self) -> TableType {
        *self
    }
}

impl View for ResizableLimits {
    type V = ResizableLimits;

    open spec fn view(&self) -> ResizableLimits {
        *self
    }
}

impl View for GlobalType {
    type V = GlobalType;

    open spec fn view(&self) -> GlobalType {
        *self
    }
}

impl View for InitExpression {
    type V = InitExpression;

    open spec fn view(&self) -> InitExpression {
        *self
    }
}

impl View for MemoryImmediate {
    type V = MemoryImmediate;

    open spec fn view(&self) -> MemoryImmediate {
        *self
    }
}

impl View for BlockType {
    type V = BlockType;

    open spec fn view(&self) -> BlockType {
        *self
    }
}

/// The immediate of `br_table`: the target depths and the default depth.
#[derive(Debug, Clone, PartialEq, Eq)]
pub struct BranchTable {
    pub targets: Vec<u32>,
    pub default: usize,
}

/// A `br_table` immediate as values.
pub struct BranchTableView {
    pub targets: Seq<u32>,
    pub default: usize,
}

impl View for BranchTable {
    type V = BranchTableView;

    open spec fn view(&self) -> BranchTableView {
        BranchTableView { targets: self.targets@, default: self.default }
    }
}

/// An instruction of a function body.
#[derive(Debug, Clone, PartialEq, Eq)]
pub enum Operation {
    /// `unreachable`
    Unreachable,
    /// `nop`
    Nop,
    /// `block` with its result type
    Block(BlockType),
    /// `loop` with its result type
    Loop(BlockType),
    /// `if` with its result type
    If(BlockType),
    /// `else`
    Else,
    /// `end`
    End,
    /// `br` with a relative depth
    Branch(u32),
    /// `br_if` with a relative depth
    BranchIf(u32),
    /// `br_table`
    BranchTable(BranchTable),
    /// `return`
    Return,
    /// `call` with a function index
    Call(usize),
    /// `call_indirect` with a type index and the reserved flag
    CallIndirect(usize, bool),
    /// `drop`
    Drop,
    /// `select`
    Select,
    GetLocal(usize),
    SetLocal(usize),
    TeeLocal(usize),
    GetGlobal(usize),
    SetGlobal(usize),
    I32Load(MemoryImmediate),
    I64Load(MemoryImmediate),
    F32Load(MemoryImmediate),
    F64Load(MemoryImmediate),
    I32Load8S(MemoryImmediate),
    I32Load8U(MemoryImmediate),
    I32Load16S(MemoryImmediate),
    I32Load16U(MemoryImmediate),
    I64Load8S(MemoryImmediate),
    I64Load8U(MemoryImmediate),
    I64Load16S(MemoryImmediate),
    I64Load16U(MemoryImmediate),
    I64Load32S(MemoryImmediate),
    I64Load32U(MemoryImmediate),
    I32Store(MemoryImmediate),
    I64Store(MemoryImmediate),
    F32Store(MemoryImmediate),
    F64Store(MemoryImmediate),
    I32Store8(MemoryImmediate),
    I32Store16(MemoryImmediate),
    I64Store8(MemoryImmediate),
    I64Store16(MemoryImmediate),
    I64Store32(MemoryImmediate),
    /// `current_memory` with the reserved flag
    CurrentMemory(bool),
    /// `grow_memory` with the reserved flag
    GrowMemory(bool),
    I32Const(i32),
    I64Const(i64),
    /// `f32.const`: the bits of the four immediate bytes, read as a
    /// little-endian unsigned integer, converted to `f32` as that number
    F32Const(u32),
    /// `f64.const`: the bits of the eight immediate bytes, read as a
    /// little-endian unsigned integer, converted to `f64` as that number
    F64Const(u64),
    I32Eqz,
    I32Eq,
    I32Ne,
    I32LtS,
    I32LtU,
    I32GtS,
    I32GtU,
    I32LeS,
    I32LeU,
    I32GeS,
    I32GeU,
    I64Eqz,
    I64Eq,
    I64Ne,
    I64LtS,
    I64LtU,
    I64GtS,
    I64GtU,
    I64LeS,
    I64LeU,
    I64GeS,
    I64GeU,
    F32Eq,
    F32Ne,
    F32Lt,
    F32Gt,
    F32Le,
    F32Ge,
    F64Eq,
    F64Ne,
    F64Lt,
    F64Gt,
    F64Le,
    F64Ge,
    I32Clz,
    I32Ctz,
    I32Popcnt,
    I32Add,
    I32Sub,
    I32Mul,
    I32DivS,
    I32DivU,
    I32RemS,
    I32RemU,
    I32And,
    I32Or,
    I32Xor,
    I32Shl,
    I32ShrS,
    I32ShrU,
    I32Rotl,
    I32Rotr,
    I64Clz,
    I64Ctz,
    I64Popcnt,
    I64Add,
    I64Sub,
    I64Mul,
    I64DivS,
    I64DivU,
    I64RemS,
    I64RemU,
    I64And,
    I64Or,
    I64Xor,
    I64Shl,
    I64ShrS,
    I64ShrU,
    I64Rotl,
    I64Rotr,
    F32Abs,
    F32Neg,
    F32Ceil,
    F32Floor,
    F32Trunc,
    F32Nearest,
    F32Sqrt,
    F32Add,
    F32Sub,
    F32Mul,
    F32Div,
    F32Min,
    F32Max,
    F32Copysign,
    F64Abs,
    F64Neg,
    F64Ceil,
    F64Floor,
    F64Trunc,
    F64Nearest,
    F64Sqrt,
    F64Add,
    F64Sub,
    F64Mul,
    F64Div,
    F64Min,
    F64Max,
    F64Copysign,
    I32WrapI64,
    I32TruncSF32,
    I32TruncUF32,
    I32TruncSF64,
    I32TruncUF64,
    I64ExtendSI32,
    I64ExtendUI32,
    I64TruncSF32,
    I64TruncUF32,
    I64TruncSF64,
    I64TruncUF64,
    F32ConvertSI32,
    F32ConvertUI32,
    F32ConvertSI64,
    F32ConvertUI64,
    F32DemoteF64,
    F64ConvertSI32,
    F64ConvertUI32,
    F64ConvertSI64,
    F64ConvertUI64,
    F64PromoteF32,
    I32ReinterpretF32,
    I64ReinterpretF64,
    F32ReinterpretI32,
    F64ReinterpretI64,
}

/// An instruction as a value: every instruction but `br_table` is its own value.
pub enum OperationView {
    Plain(Operation),
    BranchTable(BranchTableView),
}

impl View for Operation {
    type V = OperationView;

    open spec fn view(&self) -> OperationView {
        match self {
            Operation::BranchTable(t) => OperationView::BranchTable(t@),
            _ => OperationView::Plain(*self),
        }
    }
}

/// The instruction that an opcode without immediates stands for.
pub open spec fn spec_simple_operation(b: u8) -> Option<Operation> {
    match b {
        0x00 => Some(Operation::Unreachable),
        0x01 => Some(Operation::Nop),
        0x05 => Some(Operation::Else),
        0x0b => Some(Operation::End),
        0x0f => Some(Operation::Return),
        0x1a => Some(Operation::Drop),
        0x1b => Some(Operation::Select),
        0x45 => Some(Operation::I32Eqz),
        0x46 => Some(Operation::I32Eq),
        0x47 => Some(Operation::I32Ne),
        0x48 => Some(Operation::I32LtS),
        0x49 => Some(Operation::I32LtU),
        0x4a => Some(Operation::I32GtS),
        0x4b => Some(Operation::I32GtU),
        0x4c => Some(Operation::I32LeS),
        0x4d => Some(Operation::I32LeU),
        0x4e => Some(Operation::I32GeS),
        0x4f => Some(Operation::I32GeU),
        0x50 => Some(Operation::I64Eqz),
        0x51 => Some(Operation::I64Eq),
        0x52 => Some(Operation::I64Ne),
        0x53 => Some(Operation::I64LtS),
        0x54 => Some(Operation::I64LtU),
        0x55 => Some(Operation::I64GtS),
        0x56 => Some(Operation::I64GtU),
        0x57 => Some(Operation::I64LeS),
        0x58 => Some(Operation::I64LeU),
        0x59 => Some(Operation::I64GeS),
        0x5a => Some(Operation::I64GeU),
        0x5b => Some(Operation::F32Eq),
        0x5c => Some(Operation::F32Ne),
        0x5d => Some(Operation::F32Lt),
        0x5e => Some(Operation::F32Gt),
        0x5f => Some(Operation::F32Le),
        0x60 => Some(Operation::F32Ge),
        0x61 => Some(Operation::F64Eq),
        0x62 => Some(Operation::F64Ne),
        0x63 => Some(Operation::F64Lt),
        0x64 => Some(Operation::F64Gt),
        0x65 => Some(Operation::F64Le),
        0x66 => Some(Operation::F64Ge),
        0x67 => Some(Operation::I32Clz),
        0x68 => Some(Operation::I32Ctz),
        0x69 => Some(Operation::I32Popcnt),
        0x6a => Some(Operation::I32Add),
        0x6b => Some(Operation::I32Sub),
        0x6c => Some(Operation::I32Mul),
        0x6d => Some(Operation::I32DivS),
        0x6e => Some(Operation::I32DivU),
        0x6f => Some(Operation::I32RemS),
        0x70 => Some(Operation::I32RemU),
        0x71 => Some(Operation::I32And),
        0x72 => Some(Operation::I32Or),
        0x73 => Some(Operation::I32Xor),
        0x74 => Some(Operation::I32Shl),
        0x75 => Some(Operation::I32ShrS),
        0x76 => Some(Operation::I32ShrU),
        0x77 => Some(Operation::I32Rotl),
        0x78 => Some(Operation::I32Rotr),
        0x79 => Some(Operation::I64Clz),
        0x7a => Some(Operation::I64Ctz),
        0x7b => Some(Operation::I64Popcnt),
        0x7c => Some(Operation::I64Add),
        0x7d => Some(Operation::I64Sub),
        0x7e => Some(Operation::I64Mul),
        0x7f => Some(Operation::I64DivS),
        0x80 => Some(Operation::I64DivU),
        0x81 => Some(Operation::I64RemS),
        0x82 => Some(Operation::I64RemU),
        0x83 => Some(Operation::I64And),
        0x84 => Some(Operation::I64Or),
        0x85 => Some(Operation::I64Xor),
        0x86 => Some(Operation::I64Shl),
        0x87 => Some(Operation::I64ShrS),
        0x88 => Some(Operation::I64ShrU),
        0x89 => Some(Operation::I64Rotl),
        0x8a => Some(Operation::I64Rotr),
        0x8b => Some(Operation::F32Abs),
        0x8c => Some(Operation::F32Neg),
        0x8d => Some(Operation::F32Ceil),
        0x8e => Some(Operation::F32Floor),
        0x8f => Some(Operation::F32Trunc),
        0x90 => Some(Operation::F32Nearest),
        0x91 => Some(Operation::F32Sqrt),
        0x92 => Some(Operation::F32Add),
        0x93 => Some(Operation::F32Sub),
        0x94 => Some(Operation::F32Mul),
        0x95 => Some(Operation::F32Div),
        0x96 => Some(Operation::F32Min),
        0x97 => Some(Operation::F32Max),
        0x98 => Some(Operation::F32Copysign),
        0x99 => Some(Operation::F64Abs),
        0x9a => Some(Operation::F64Neg),
        0x9b => Some(Operation::F64Ceil),
        0x9c => Some(Operation::F64Floor),
        0x9d => Some(Operation::F64Trunc),
        0x9e => Some(Operation::F64Nearest),
        0x9f => Some(Operation::F64Sqrt),
        0xa0 => Some(Operation::F64Add),
        0xa1 => Some(Operation::F64Sub),
        0xa2 => Some(Operation::F64Mul),
        0xa3 => Some(Operation::F64Div),
        0xa4 => Some(Operation::F64Min),
        0xa5 => Some(Operation::F64Max),
        0xa6 => Some(Operation::F64Copysign),
        0xa7 => Some(Operation::I32WrapI64),
        0xa8 => Some(Operation::I32TruncSF32),
        0xa9 => Some(Operation::I32TruncUF32),
        0xaa => Some(Operation::I32TruncSF64),
        0xab => Some(Operation::I32TruncUF64),
        0xac => Some(Operation::I64ExtendSI32),
        0xad => Some(Operation::I64ExtendUI32),
        0xae => Some(Operation::I64TruncSF32),
        0xaf => Some(Operation::I64TruncUF32),
        0xb0 => Some(Operation::I64TruncSF64),
        0xb1 => Some(Operation::I64TruncUF64),
        0xb2 => Some(Operation::F32ConvertSI32),
        0xb3 => Some(Operation::F32ConvertUI32),
        0xb4 => Some(Operation::F32ConvertSI64),
        0xb5 => Some(Operation::F32ConvertUI64),
        0xb6 => Some(Operation::F32DemoteF64),
        0xb7 => Some(Operation::F64ConvertSI32),
        0xb8 => Some(Operation::F64ConvertUI32),
        0xb9 => Some(Operation::F64ConvertSI64),
        0xba => Some(Operation::F64ConvertUI64),
        0xbb => Some(Operation::F64PromoteF32),
        0xbc => Some(Operation::I32ReinterpretF32),
        0xbd => Some(Operation::I64ReinterpretF64),
        0xbe => Some(Operation::F32ReinterpretI32),
        0xbf => Some(Operation::F64ReinterpretI64),
        _ => None,
    }
}

/// The load or store that an opcode stands for, with its immediate.
pub open spec fn spec_memory_operation(b: u8, m: MemoryImmediate) -> Option<Operation> {
    match b {
        0x28 => Some(Operation::I32Load(m)),
        0x29 => Some(Operation::I64Load(m)),
        0x2a => Some(Operation::F32Load(m)),
        0x2b => Some(Operation::F64Load(m)),
        0x2c => Some(Operation::I32Load8S(m)),
        0x2d => Some(Operation::I32Load8U(m)),
        0x2e => Some(Operation::I32Load16S(m)),
        0x2f => Some(Operation::I32Load16U(m)),
        0x30 => Some(Operation::I64Load8S(m)),
        0x31 => Some(Operation::I64Load8U(m)),
        0x32 => Some(Operation::I64Load16S(m)),
        0x33 => Some(Operation::I64Load16U(m)),
        0x34 => Some(Operation::I64Load32S(m)),
        0x35 => Some(Operation::I64Load32U(m)),
        0x36 => Some(Operation::I32Store(m)),
        0x37 => Some(Operation::I64Store(m)),
        0x38 => Some(Operation::F32Store(m)),
        0x39 => Some(Operation::F64Store(m)),
        0x3a => Some(Operation::I32Store8(m)),
        0x3b => Some(Operation::I32Store16(m)),
        0x3c => Some(Operation::I64Store8(m)),
        0x3d => Some(Operation::I64Store16(m)),
        0x3e => Some(Operation::I64Store32(m)),
        _ => None,
    }
}

/// The instruction that an opcode without immediates stands for.
pub fn simple_operation(b: u8) -> (r: Option<Operation>)
    ensures
        r == spec_simple_operation(b),
{
    match b {
        0x00 => Some(Operation::Unreachable),
        0x01 => Some(Operation::Nop),
        0x05 => Some(Operation::Else),
        0x0b => Some(Operation::End),
        0x0f => Some(Operation::Return),
        0x1a => Some(Operation::Drop),
        0x1b => Some(Operation::Select),
        0x45 => Some(Operation::I32Eqz),
        0x46 => Some(Operation::I32Eq),
        0x47 => Some(Operation::I32Ne),
        0x48 => Some(Operation::I32LtS),
        0x49 => Some(Operation::I32LtU),
        0x4a => Some(Operation::I32GtS),
        0x4b => Some(Operation::I32GtU),
        0x4c => Some(Operation::I32LeS),
        0x4d => Some(Operation::I32LeU),
        0x4e => Some(Operation::I32GeS),
        0x4f => Some(Operation::I32GeU),
        0x50 => Some(Operation::I64Eqz),
        0x51 => Some(Operation::I64Eq),
        0x52 => Some(Operation::I64Ne),
        0x53 => Some(Operation::I64LtS),
        0x54 => Some(Operation::I64LtU),
        0x55 => Some(Operation::I64GtS),
        0x56 => Some(Operation::I64GtU),
        0x57 => Some(Operation::I64LeS),
        0x58 => Some(Operation::I64LeU),
        0x59 => Some(Operation::I64GeS),
        0x5a => Some(Operation::I64GeU),
        0x5b => Some(Operation::F32Eq),
        0x5c => Some(Operation::F32Ne),
        0x5d => Some(Operation::F32Lt),
        0x5e => Some(Operation::F32Gt),
        0x5f => Some(Operation::F32Le),
        0x60 => Some(Operation::F32Ge),
        0x61 => Some(Operation::F64Eq),
        0x62 => Some(Operation::F64Ne),
        0x63 => Some(Operation::F64Lt),
        0x64 => Some(Operation::F64Gt),
        0x65 => Some(Operation::F64Le),
        0x66 => Some(Operation::F64Ge),
        0x67 => Some(Operation::I32Clz),
        0x68 => Some(Operation::I32Ctz),
        0x69 => Some(Operation::I32Popcnt),
        0x6a => Some(Operation::I32Add),
        0x6b => Some(Operation::I32Sub),
        0x6c => Some(Operation::I32Mul),
        0x6d => Some(Operation::I32DivS),
        0x6e => Some(Operation::I32DivU),
        0x6f => Some(Operation::I32RemS),
        0x70 => Some(Operation::I32RemU),
        0x71 => Some(Operation::I32And),
        0x72 => Some(Operation::I32Or),
        0x73 => Some(Operation::I32Xor),
        0x74 => Some(Operation::I32Shl),
        0x75 => Some(Operation::I32ShrS),
        0x76 => Some(Operation::I32ShrU),
        0x77 => Some(Operation::I32Rotl),
        0x78 => Some(Operation::I32Rotr),
        0x79 => Some(Operation::I64Clz),
        0x7a => Some(Operation::I64Ctz),
        0x7b => Some(Operation::I64Popcnt),
        0x7c => Some(Operation::I64Add),
        0x7d => Some(Operation::I64Sub),
        0x7e => Some(Operation::I64Mul),
        0x7f => Some(Operation::I64DivS),
        0x80 => Some(Operation::I64DivU),
        0x81 => Some(Operation::I64RemS),
        0x82 => Some(Operation::I64RemU),
        0x83 => Some(Operation::I64And),
        0x84 => Some(Operation::I64Or),
        0x85 => Some(Operation::I64Xor),
        0x86 => Some(Operation::I64Shl),
        0x87 => Some(Operation::I64ShrS),
        0x88 => Some(Operation::I64ShrU),
        0x89 => Some(Operation::I64Rotl),
        0x8a => Some(Operation::I64Rotr),
        0x8b => Some(Operation::F32Abs),
        0x8c => Some(Operation::F32Neg),
        0x8d => Some(Operation::F32Ceil),
        0x8e => Some(Operation::F32Floor),
        0x8f => Some(Operation::F32Trunc),
        0x90 => Some(Operation::F32Nearest),
        0x91 => Some(Operation::F32Sqrt),
        0x92 => Some(Operation::F32Add),
        0x93 => Some(Operation::F32Sub),
        0x94 => Some(Operation::F32Mul),
        0x95 => Some(Operation::F32Div),
        0x96 => Some(Operation::F32Min),
        0x97 => Some(Operation::F32Max),
        0x98 => Some(Operation::F32Copysign),
        0x99 => Some(Operation::F64Abs),
        0x9a => Some(Operation::F64Neg),
        0x9b => Some(Operation::F64Ceil),
        0x9c => Some(Operation::F64Floor),
        0x9d => Some(Operation::F64Trunc),
        0x9e => Some(Operation::F64Nearest),
        0x9f => Some(Operation::F64Sqrt),
        0xa0 => Some(Operation::F64Add),
        0xa1 => Some(Operation::F64Sub),
        0xa2 => Some(Operation::F64Mul),
        0xa3 => Some(Operation::F64Div),
        0xa4 => Some(Operation::F64Min),
        0xa5 => Some(Operation::F64Max),
        0xa6 => Some(Operation::F64Copysign),
        0xa7 => Some(Operation::I32WrapI64),
        0xa8 => Some(Operation::I32TruncSF32),
        0xa9 => Some(Operation::I32TruncUF32),
        0xaa => Some(Operation::I32TruncSF64),
        0xab => Some(Operation::I32TruncUF64),
        0xac => Some(Operation::I64ExtendSI32),
        0xad => Some(Operation::I64ExtendUI32),
        0xae => Some(Operation::I64TruncSF32),
        0xaf => Some(Operation::I64TruncUF32),
        0xb0 => Some(Operation::I64TruncSF64),
        0xb1 => Some(Operation::I64TruncUF64),
        0xb2 => Some(Operation::F32ConvertSI32),
        0xb3 => Some(Operation::F32ConvertUI32),
        0xb4 => Some(Operation::F32ConvertSI64),
        0xb5 => Some(Operation::F32ConvertUI64),
        0xb6 => Some(Operation::F32DemoteF64),
        0xb7 => Some(Operation::F64ConvertSI32),
        0xb8 => Some(Operation::F64ConvertUI32),
        0xb9 => Some(Operation::F64ConvertSI64),
        0xba => Some(Operation::F64ConvertUI64),
        0xbb => Some(Operation::F64PromoteF32),
        0xbc => Some(Operation::I32ReinterpretF32),
        0xbd => Some(Operation::I64ReinterpretF64),
        0xbe => Some(Operation::F32ReinterpretI32),
        0xbf => Some(Operation::F64ReinterpretI64),
        _ => None,
    }
}

/// The load or store that an opcode stands for, with its immediate.
pub fn memory_operation(b: u8, m: MemoryImmediate) -> (r: Option<Operation>)
    ensures
        r == spec_memory_operation(b, m),
{
    match b {
        0x28 => Some(Operation::I32Load(m)),
        0x29 => Some(Operation::I64Load(m)),
        0x2a => Some(Operation::F32Load(m)),
        0x2b => Some(Operation::F64Load(m)),
        0x2c => Some(Operation::I32Load8S(m)),
        0x2d => Some(Operation::I32Load8U(m)),
        0x2e => Some(Operation::I32Load16S(m)),
        0x2f => Some(Operation::I32Load16U(m)),
        0x30 => Some(Operation::I64Load8S(m)),
        0x31 => Some(Operation::I64Load8U(m)),
        0x32 => Some(Operation::I64Load16S(m)),
        0x33 => Some(Operation::I64Load16U(m)),
        0x34 => Some(Operation::I64Load32S(m)),
        0x35 => Some(Operation::I64Load32U(m)),
        0x36 => Some(Operation::I32Store(m)),
        0x37 => Some(Operation::I64Store(m)),
        0x38 => Some(Operation::F32Store(m)),
        0x39 => Some(Operation::F64Store(m)),
        0x3a => Some(Operation::I32Store8(m)),
        0x3b => Some(Operation::I32Store16(m)),
        0x3c => Some(Operation::I64Store8(m)),
        0x3d => Some(Operation::I64Store16(m)),
        0x3e => Some(Operation::I64Store32(m)),
        _ => None,
    }
}

/// A sequence of instructions with its result type, in nested form: a
/// `block`, `loop` or `if` holds its own instructions.
#[derive(Debug, PartialEq, Eq)]
pub struct Block {
    pub block_type: BlockType,
    pub operations: Vec<Instruction>,
}

/// An instruction of a nested block.
#[derive(Debug, PartialEq, Eq)]
pub enum Instruction {
    /// `block`: its instructions run once.
    Block(Block),
    /// `loop`: its instructions run again while they end without a branch out.
    Loop(Block),
    /// `if`: its instructions, or those after its `else`, run once.
    If(Block),
    /// Any other instruction.
    Op(Operation),
}

} // verus!
