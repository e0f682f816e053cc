//! Why decoding a module failed.
use crate::leb::ReadError;
use crate::tree::ModuleView;
use vstd::prelude::*;

verus! {

/// A rule of the format that the input breaks, beyond the kinds that
/// `ParseError` names.
#[derive(Debug, Clone, Copy, PartialEq, Eq, Structural)]
pub enum Violation {
    FuncTypeRequired,
    DuplicateImport,
    NoSuchSignature,
    TableNotAnyfunc,
    GlobalTypeMismatch,
    GlobalNotValue,
    OnlyOneTable,
    ElementsPastMaximum,
    ElementsOutOfRange,
    NoTable,
    ElementsInitNotI32,
    DataIndexNotZero,
    DataTooBig,
    DataOutOfRange,
    NoMemory,
    MemoryTooLarge,
    BadI32Init,
    BadI64Init,
    BadF32Init,
    BadF64Init,
    BadGetGlobalInit,
    MutableGlobalInInit,
    NoSuchGlobal,
    UnexpectedInitByte,
    ReservedNonZero,
    UnknownOpcode,
    BadBlockType,
}

/// The description of each rule.
pub open spec fn description(v: Violation) -> Seq<char> {
    match v {
        Violation::FuncTypeRequired => "WASM 1.0 requires all defined types to be of type `func`"@,
        Violation::DuplicateImport => "Tried to import an already imported field"@,
        Violation::NoSuchSignature => "The type doesn't exist or isn't a function signature"@,
        Violation::TableNotAnyfunc => "WASM 1.0 only valid table type is `anyfunc`"@,
        Violation::GlobalTypeMismatch => "Global initialiser type doesn't match it's type"@,
        Violation::GlobalNotValue => "Global initialiser type must be for value type"@,
        Violation::OnlyOneTable => "WASM 1.0 only allows 1 table"@,
        Violation::ElementsPastMaximum => "Attempted to add values to late into table... "@,
        Violation::ElementsOutOfRange => "elements do not fit in the table"@,
        Violation::NoTable => "elements refer to a table that does not exist"@,
        Violation::ElementsInitNotI32 => "init_expr for elements section must be i32.const"@,
        Violation::DataIndexNotZero => "Data index must be 0 in wasm 1.0"@,
        Violation::DataTooBig => "adding to big memory"@,
        Violation::DataOutOfRange => "data does not fit in the memory"@,
        Violation::NoMemory => "data refers to a memory that does not exist"@,
        Violation::MemoryTooLarge => "memory is larger than the address space"@,
        Violation::BadI32Init => "invalid i32.const instruction in init expression"@,
        Violation::BadI64Init => "invalid i64.const instruction in init expression"@,
        Violation::BadF32Init => "invalid f32.const instruction in init expression"@,
        Violation::BadF64Init => "invalid f64.const instruction in init expression"@,
        Violation::BadGetGlobalInit => "invalid get_global instruction in init expression"@,
        Violation::MutableGlobalInInit => "get_global in init expressions can only refer to immutable globals"@,
        Violation::NoSuchGlobal => "get_global in init expression refers to a global that does not exist"@,
        Violation::UnexpectedInitByte => "Unexpected byte in init expression"@,
        Violation::ReservedNonZero => "call_indirect reserved field must be 0"@,
        Violation::UnknownOpcode => "Unknown opcode"@,
        Violation::BadBlockType => "Block type wasn't valid"@,
    }
}

impl Violation {
    /// A description of the rule.
    pub fn describe(&self) -> (r: &'static str)
        ensures
            r@ == description(*self),
    {
        match self {
            Violation::FuncTypeRequired => "WASM 1.0 requires all defined types to be of type `func`",
            Violation::DuplicateImport => "Tried to import an already imported field",
            Violation::NoSuchSignature => "The type doesn't exist or isn't a function signature",
            Violation::TableNotAnyfunc => "WASM 1.0 only valid table type is `anyfunc`",
            Violation::GlobalTypeMismatch => "Global initialiser type doesn't match it's type",
            Violation::GlobalNotValue => "Global initialiser type must be for value type",
            Violation::OnlyOneTable => "WASM 1.0 only allows 1 table",
            Violation::ElementsPastMaximum => "Attempted to add values to late into table... ",
            Violation::ElementsOutOfRange => "elements do not fit in the table",
            Violation::NoTable => "elements refer to a table that does not exist",
            Violation::ElementsInitNotI32 => "init_expr for elements section must be i32.const",
            Violation::DataIndexNotZero => "Data index must be 0 in wasm 1.0",
            Violation::DataTooBig => "adding to big memory",
            Violation::DataOutOfRange => "data does not fit in the memory",
            Violation::NoMemory => "data refers to a memory that does not exist",
            Violation::MemoryTooLarge => "memory is larger than the address space",
            Violation::BadI32Init => "invalid i32.const instruction in init expression",
            Violation::BadI64Init => "invalid i64.const instruction in init expression",
            Violation::BadF32Init => "invalid f32.const instruction in init expression",
            Violation::BadF64Init => "invalid f64.const instruction in init expression",
            Violation::BadGetGlobalInit => "invalid get_global instruction in init expression",
            Violation::MutableGlobalInInit => "get_global in init expressions can only refer to immutable globals",
            Violation::NoSuchGlobal => "get_global in init expression refers to a global that does not exist",
            Violation::UnexpectedInitByte => "Unexpected byte in init expression",
            Violation::ReservedNonZero => "call_indirect reserved field must be 0",
            Violation::UnknownOpcode => "Unknown opcode",
            Violation::BadBlockType => "Block type wasn't valid",
        }
    }
}

/// Why decoding a module failed.
#[derive(Debug, Clone, Copy, PartialEq, Eq, Structural)]
pub enum ParseError {
    WrongMagicNumber,
    UnknownSectionId(u64),
    UnsupportedModuleVersion,
    SectionLengthWrong,
    InvalidTypeForm,
    InvalidValueType(i64),
    InvalidLanguageType(i64),
    InvalidExternalKind(u8),
    TooManyReturns,
    Io(ReadError),
    NonExistantTypeReference,
    CustomError(Violation),
}

/// A decoding step as values: what it produced and where the input continues.
pub open spec fn outcome<T: View>(r: Result<(T, usize), ParseError>) -> Result<(T::V, int), ParseError> {
    match r {
        Ok((v, p)) => Ok((v@, p as int)),
        Err(e) => Err(e),
    }
}

/// A decoding step of the stream-reading layer, with its error seen as a decoding error.
pub open spec fn lift_io<T>(r: Result<(T, int), ReadError>) -> Result<(T, int), ParseError> {
    match r {
        Ok(x) => Ok(x),
        Err(e) => Err(ParseError::Io(e)),
    }
}

/// A decoding step moves forward and stays within the input.
pub open spec fn advances<T>(r: Result<(T, int), ParseError>, s: Seq<u8>, pos: int) -> bool {
    r matches Ok((_, p)) ==> 0 <= pos < p <= s.len()
}

/// A decoding step does not move back and stays within the input.
pub open spec fn moves<T>(r: Result<(T, int), ParseError>, s: Seq<u8>, pos: int) -> bool {
    r matches Ok((_, p)) ==> pos <= p <= s.len()
}

/// What a section decoder did, as values: on success the module it left and the
/// position where the input continues.
pub open spec fn section_result(
    res: Result<usize, ParseError>,
    m: ModuleView,
    expected: Result<(ModuleView, int), ParseError>,
) -> bool {
    match res {
        Ok(p) => expected == Ok::<(ModuleView, int), ParseError>((m, p as int)),
        Err(e) => expected == Err::<(ModuleView, int), ParseError>(e),
    }
}

} // verus!
