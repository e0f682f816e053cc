//! Running decoded instructions.
pub mod language_types;
pub mod memory;
pub mod float;
pub mod host;
pub mod numeric;
pub mod numeric_laws;
pub mod step;
pub mod step_laws;
pub mod execute;
pub mod functions;
pub mod exports;

use crate::parse_tree::functions::FuncSignature;
use crate::parse_tree::language_types::Block;
use crate::parse_tree::language_types::ExternalKind;
use crate::parse_tree::language_types::ResizableLimits;
use crate::parse_tree::language_types::ValueType;
use crate::parse_tree::memory::Memory;
use crate::parse_tree::tables::Table;
use crate::parse_tree::types::TypeDefinition;
use crate::parser::errors::ParseError;
use crate::parser::errors::Violation;
use crate::runtime_tree::functions::built_functions;
use crate::runtime_tree::functions::signature_of;
use crate::runtime_tree::functions::signatures_exist;
use crate::runtime_tree::exports::ExportObj;
use crate::runtime_tree::language_types::ExternalKindInstance;
use crate::runtime_tree::language_types::StackFrame;
use crate::runtime_tree::language_types::ValueTypeProvider;
use crate::tree::exports::ExportEntry;
use crate::tree::Module;
use vstd::prelude::*;

verus! {

/// A function of a module instance.
#[derive(Debug, PartialEq, Eq)]
pub struct Func {
    pub signature: FuncSignature,
    /// The types of the function's own locals, which follow its parameters.
    pub locals: Vec<ValueType>,
    /// The function's instructions; none for a function that the host provides.
    pub body: Option<Block>,
}

/// The state of a module instance that instructions read and change, and the
/// instance's functions, which they only read.
#[derive(Debug, Clone, PartialEq, Eq)]
pub struct ModuleInstanceData<'a> {
    pub types: Vec<TypeDefinition>,
    pub globals: Vec<ValueTypeProvider>,
    pub memories: Vec<Memory>,
    pub functions: &'a Vec<Func>,
    pub tables: Vec<Table>,
}

impl<'a> ModuleInstanceData<'a> {
    /// An instance with the given functions and no types, globals, memories or
    /// tables.
    pub fn new(functions: &'a Vec<Func>) -> (r: Self)
        ensures
            r.types@.len() == 0,
            r.globals@.len() == 0,
            r.memories@.len() == 0,
            r.tables@.len() == 0,
            r.functions@ == functions@,
    {
        ModuleInstanceData { types: Vec::new(), globals: Vec::new(), memories: Vec::new(), functions, tables: Vec::new() }
    }
}

/// A memory with no bytes and limits of no pages and no maximum, used while a
/// memory is taken out to be changed.
pub(crate) fn placeholder_memory() -> (r: Memory)
    ensures
        r.limits == (ResizableLimits { initial: 0, maximum: None }),
        r.values@ == Seq::<u8>::empty(),
{
    Memory { limits: ResizableLimits { initial: 0, maximum: None }, values: Vec::new() }
}

/// A module ready to be instantiated: its exports, types and memories, and its
/// functions.
pub struct ModuleTemplate {
    pub exports: Vec<ExportEntry>,
    pub start_function: Option<usize>,
    pub types: Vec<TypeDefinition>,
    pub globals: Vec<ValueTypeProvider>,
    pub memories: Vec<Memory>,
    pub functions: Vec<Func>,
    pub tables: Vec<Table>,
}

/// Something that a template can be built from.
pub trait ModuleTemplateBuilder {
    /// Builds the template, with the functions that the host supplies named by
    /// module and field in `imports`.
    fn build(self, imports: Vec<(String, String)>) -> Result<ModuleTemplate, ParseError>;
}

impl ModuleTemplateBuilder for Module {
    /// The template of a decoded module: its exports, types and memories, and its
    /// functions built; no globals, no tables and no start function.
    fn build(self, imports: Vec<(String, String)>) -> (res: Result<ModuleTemplate, ParseError>)
        ensures
            match res {
                Ok(t) => {
                    &&& signatures_exist(self, imports@)
                    &&& built_functions(self, imports@, t.functions@)
                    &&& t.exports@ == self.exports@
                    &&& t.types@ == self.types@
                    &&& t.memories@ == self.memories@
                    &&& t.globals@.len() == 0
                    &&& t.tables@.len() == 0
                    &&& t.start_function is None
                },
                Err(e) => !signatures_exist(self, imports@) && e == ParseError::CustomError(Violation::NoSuchSignature),
            },
    {
        let functions = self.build_functions(&imports)?;
        Ok(
            ModuleTemplate {
                exports: self.exports,
                start_function: None,
                types: self.types,
                globals: Vec::new(),
                memories: self.memories,
                functions,
                tables: Vec::new(),
            },
        )
    }
}

/// A copy of a list of values.
fn copy_values<T: Copy>(v: &Vec<T>) -> (r: Vec<T>)
    ensures
        r@ == v@,
{
    let mut r: Vec<T> = Vec::new();
    let mut i: usize = 0;
    while i < v.len()
        invariant
            i <= v@.len(),
            r@ == v@.subrange(0, i as int),
        decreases v@.len() - i,
    {
        r.push(v[i]);
        i = i + 1;
        assert(r@ =~= v@.subrange(0, i as int));
    }
    assert(v@.subrange(0, v@.len() as int) =~= v@);
    r
}

/// A copy of a list of type definitions.
fn copy_type_definitions(v: &Vec<TypeDefinition>) -> (r: Vec<TypeDefinition>)
    ensures
        r@.len() == v@.len(),
        forall|i: int| 0 <= i < v@.len() ==> #[trigger] r@[i]@ == v@[i]@,
{
    let mut r: Vec<TypeDefinition> = Vec::new();
    let mut k: usize = 0;
    while k < v.len()
        invariant
            k <= v@.len(),
            r@.len() == k,
            forall|i: int| 0 <= i < k ==> #[trigger] r@[i]@ == v@[i]@,
        decreases v@.len() - k,
    {
        let t = TypeDefinition::Func(signature_of(&v[k]));
        r.push(t);
        k = k + 1;
    }
    r
}

/// A copy of a list of memories.
fn copy_memories(v: &Vec<Memory>) -> (r: Vec<Memory>)
    ensures
        r@.len() == v@.len(),
        forall|i: int| 0 <= i < v@.len() ==> #[trigger] r@[i]@ == v@[i]@,
{
    let mut r: Vec<Memory> = Vec::new();
    let mut k: usize = 0;
    while k < v.len()
        invariant
            k <= v@.len(),
            r@.len() == k,
            forall|i: int| 0 <= i < k ==> #[trigger] r@[i]@ == v@[i]@,
        decreases v@.len() - k,
    {
        let m = Memory { limits: v[k].limits, values: copy_values(&v[k].values) };
        r.push(m);
        k = k + 1;
    }
    r
}

/// A copy of a list of tables.
fn copy_tables(v: &Vec<Table>) -> (r: Vec<Table>)
    ensures
        r@.len() == v@.len(),
        forall|i: int| 0 <= i < v@.len() ==> #[trigger] r@[i]@ == v@[i]@,
{
    let mut r: Vec<Table> = Vec::new();
    let mut k: usize = 0;
    while k < v.len()
        invariant
            k <= v@.len(),
            r@.len() == k,
            forall|i: int| 0 <= i < k ==> #[trigger] r@[i]@ == v@[i]@,
        decreases v@.len() - k,
    {
        let t = match &v[k] {
            Table::AnyFunc { limits, values } => Table::AnyFunc { limits: *limits, values: copy_values(values) },
        };
        r.push(t);
        k = k + 1;
    }
    r
}

/// A copy of a list of exports.
fn copy_exports(v: &Vec<ExportEntry>) -> (r: Vec<ExportEntry>)
    ensures
        r@ == v@,
{
    let mut r: Vec<ExportEntry> = Vec::new();
    let mut k: usize = 0;
    while k < v.len()
        invariant
            k <= v@.len(),
            r@ == v@.subrange(0, k as int),
        decreases v@.len() - k,
    {
        r.push(ExportEntry { field: v[k].field.clone(), kind: v[k].kind });
        k = k + 1;
        assert(r@ =~= v@.subrange(0, k as int));
    }
    assert(v@.subrange(0, v@.len() as int) =~= v@);
    r
}

/// What an instance exports for an entry of its template: the same function;
/// an entity of any other kind is recorded as memory 0.
pub open spec fn instance_kind(k: ExternalKind) -> ExternalKindInstance {
    match k {
        ExternalKind::Function(f) => ExternalKind::Function(f),
        _ => ExternalKind::Memory(0),
    }
}

/// Whether `exports` are the entries of `template`, each under its name and with
/// its entity as an instance records it.
pub open spec fn instance_exports(template: Seq<ExportEntry>, exports: Seq<ExportEntry>) -> bool {
    &&& exports.len() == template.len()
    &&& forall|i: int|
        0 <= i < template.len() ==> (#[trigger] exports[i]).field == template[i].field && exports[i].kind
            == instance_kind(template[i].kind)
}

/// An instance of a template: its own state and exports, over the template's
/// functions.
pub struct ModuleInstance<'a> {
    pub types: Vec<TypeDefinition>,
    pub exports: Vec<ExportEntry>,
    pub globals: Vec<ValueTypeProvider>,
    pub memories: Vec<Memory>,
    pub functions: &'a Vec<Func>,
    pub tables: Vec<Table>,
}

impl<'a> ModuleInstance<'a> {
    /// The instance state that instructions run on: copies of the instance's
    /// types, globals, memories and tables, and its functions.
    pub fn get_frame(&self) -> (r: ModuleInstanceData<'a>)
        ensures
            r.types@.len() == self.types@.len(),
            forall|i: int| 0 <= i < self.types@.len() ==> #[trigger] r.types@[i]@ == self.types@[i]@,
            r.globals@ == self.globals@,
            r.memories@.len() == self.memories@.len(),
            forall|i: int| 0 <= i < self.memories@.len() ==> #[trigger] r.memories@[i]@ == self.memories@[i]@,
            r.tables@.len() == self.tables@.len(),
            forall|i: int| 0 <= i < self.tables@.len() ==> #[trigger] r.tables@[i]@ == self.tables@[i]@,
            r.functions@ == self.functions@,
    {
        ModuleInstanceData {
            types: copy_type_definitions(&self.types),
            globals: copy_values(&self.globals),
            memories: copy_memories(&self.memories),
            functions: self.functions,
            tables: copy_tables(&self.tables),
        }
    }

    /// The instance's exports, to be called by name, over a fresh frame with no
    /// locals and an empty stack, with `host` providing the imported functions.
    pub fn exports<H: Fn(usize, Vec<ValueTypeProvider>) -> Option<Vec<ValueTypeProvider>>>(&self, host: H) -> (r: ExportObj<'a, H>)
        ensures
            r.exports@ == self.exports@,
            r.host == host,
            r.frame.locals@.len() == 0,
            r.frame.stack@.len() == 0,
            r.frame.data.types@.len() == self.types@.len(),
            forall|i: int| 0 <= i < self.types@.len() ==> #[trigger] r.frame.data.types@[i]@ == self.types@[i]@,
            r.frame.data.globals@ == self.globals@,
            r.frame.data.memories@.len() == self.memories@.len(),
            forall|i: int|
                0 <= i < self.memories@.len() ==> #[trigger] r.frame.data.memories@[i]@ == self.memories@[i]@,
            r.frame.data.tables@.len() == self.tables@.len(),
            forall|i: int| 0 <= i < self.tables@.len() ==> #[trigger] r.frame.data.tables@[i]@ == self.tables@[i]@,
            r.frame.data.functions@ == self.functions@,
    {
        ExportObj {
            exports: copy_exports(&self.exports),
            frame: StackFrame::new(self.get_frame(), Vec::new(), Vec::new()),
            host,
        }
    }
}

impl ModuleTemplate {
    /// An instance of the template: copies of its types, its exports as an
    /// instance records them, its functions, and no globals, memories or tables.
    pub fn instantiate(&self) -> (r: ModuleInstance<'_>)
        ensures
            r.types@.len() == self.types@.len(),
            forall|i: int| 0 <= i < self.types@.len() ==> #[trigger] r.types@[i]@ == self.types@[i]@,
            instance_exports(self.exports@, r.exports@),
            r.globals@.len() == 0,
            r.memories@.len() == 0,
            r.tables@.len() == 0,
            r.functions@ == self.functions@,
    {
        ModuleInstance {
            types: copy_type_definitions(&self.types),
            exports: self.build_exports(),
            globals: Vec::new(),
            memories: Vec::new(),
            functions: &self.functions,
            tables: Vec::new(),
        }
    }

    /// The template's exports as an instance records them.
    fn build_exports(&self) -> (r: Vec<ExportEntry>)
        ensures
            instance_exports(self.exports@, r@),
    {
        let mut r: Vec<ExportEntry> = Vec::new();
        let mut k: usize = 0;
        while k < self.exports.len()
            invariant
                k <= self.exports@.len(),
                instance_exports(self.exports@.subrange(0, k as int), r@),
            decreases self.exports@.len() - k,
        {
            let kind = match self.exports[k].kind {
                ExternalKind::Function(f) => ExternalKind::Function(f),
                _ => ExternalKind::Memory(0),
            };
            r.push(ExportEntry { field: self.exports[k].field.clone(), kind });
            k = k + 1;
        }
        assert(self.exports@.subrange(0, self.exports@.len() as int) =~= self.exports@);
        r
    }
}

} // verus!
