//! Run-time values and why a run stops early.
use crate::parse_tree::language_types::ExternalKind;
use crate::parse_tree::language_types::ValueType;
use crate::parse_tree::memory::Memory;
use crate::parse_tree::memory::MemoryView;
use crate::parse_tree::tables::Table;
use crate::parse_tree::types::TypeDefinition;
use crate::runtime_tree::Func;
use crate::runtime_tree::ModuleInstanceData;
use vstd::prelude::*;

verus! {

/// A run-time value. Floating-point values are held as their IEEE 754 bits.
#[derive(Debug, Clone, Copy, PartialEq, Eq, Structural)]
pub enum ValueTypeProvider {
    I32(i32),
    I64(i64),
    F32(u32),
    F64(u64),
}

/// The type of a run-time value.
pub open spec fn type_of(v: ValueTypeProvider) -> ValueType {
    match v {
        ValueTypeProvider::I32(_) => ValueType::I32,
        ValueTypeProvider::I64(_) => ValueType::I64,
        ValueTypeProvider::F32(_) => ValueType::F32,
        ValueTypeProvider::F64(_) => ValueType::F64,
    }
}

impl ValueTypeProvider {
    /// The type of the value.
    pub fn value_type(&self) -> (r: ValueType)
        ensures
            r == type_of(*self),
    {
        match self {
            ValueTypeProvider::I32(_) => ValueType::I32,
            ValueTypeProvider::I64(_) => ValueType::I64,
            ValueTypeProvider::F32(_) => ValueType::F32,
            ValueTypeProvider::F64(_) => ValueType::F64,
        }
    }
}

/// Why running instructions stopped before their end.
#[derive(Debug, Clone, Copy, PartialEq, Eq, Structural)]
pub enum Trap {
    /// `unreachable` was executed.
    Unreachable,
    /// A value was needed from the stack and there was none.
    StackEmpty,
    /// A value had another type than the instruction needs.
    TypeMismatch,
    /// A local index past the frame's locals.
    NoSuchLocal,
    /// A global index past the module's globals.
    NoSuchGlobal,
    /// A memory instruction in a module without memory.
    NoMemory,
    /// A memory access past the end of memory.
    MemoryOutOfBounds,
    /// Growing memory past the address space.
    MemoryTooLarge,
    /// An integer result does not fit its type.
    IntegerOverflow,
    /// Integer division or remainder by zero.
    DivisionByZero,
    /// A shift by a negative amount or by at least the operand's width.
    ShiftOutOfRange,
    /// A floating-point computation that rounds or whose NaN bits are left
    /// open: arithmetic, square roots, rounding to integral values, minimum,
    /// maximum, sign copies, promotion and demotion. Moves, absolute values,
    /// negations, comparisons, truncations to integers and conversions of
    /// integers run.
    FloatArithmetic,
    /// A call of a function that the host provides; only functions with a
    /// body run here.
    HostFunction,
    /// A call with arguments that do not fit the function's parameters.
    WrongArguments,
    /// A function index past the instance's functions, or a table entry that
    /// does not exist.
    NoSuchFunction,
    /// A type index past the instance's types.
    NoSuchType,
    /// An indirect call in an instance without a table.
    NoTable,
    /// A `block`, `loop` or `if` marker outside the nested form.
    Unstructured,
    /// Loops ran more iterations than allowed.
    OutOfFuel,
}

/// What instructions run on: the module instance's state, the function's locals
/// and the value stack, whose last element is its top.
#[derive(Debug, Clone, PartialEq, Eq)]
pub struct StackFrame<'a> {
    pub data: ModuleInstanceData<'a>,
    pub locals: Vec<ValueTypeProvider>,
    pub stack: Vec<ValueTypeProvider>,
}

/// A frame as values.
pub struct FrameView {
    pub types: Seq<TypeDefinition>,
    pub globals: Seq<ValueTypeProvider>,
    pub memories: Seq<MemoryView>,
    pub functions: Seq<Func>,
    pub tables: Seq<Table>,
    pub locals: Seq<ValueTypeProvider>,
    pub stack: Seq<ValueTypeProvider>,
}

impl<'a> View for StackFrame<'a> {
    type V = FrameView;

    open spec fn view(&self) -> FrameView {
        FrameView {
            types: self.data.types@,
            globals: self.data.globals@,
            memories: self.data.memories@.map_values(|m: Memory| m@),
            functions: self.data.functions@,
            tables: self.data.tables@,
            locals: self.locals@,
            stack: self.stack@,
        }
    }
}

impl<'a> StackFrame<'a> {
    /// A frame over the given instance state, locals and stack.
    pub fn new(data: ModuleInstanceData<'a>, locals: Vec<ValueTypeProvider>, stack: Vec<ValueTypeProvider>) -> (r: Self)
        ensures
            r.data == data,
            r.locals@ == locals@,
            r.stack@ == stack@,
    {
        StackFrame { data, locals, stack }
    }
}

/// What an instance exports under a name: a function, table, memory or global
/// of the instance, by index.
pub type ExternalKindInstance = ExternalKind;

} // verus!
