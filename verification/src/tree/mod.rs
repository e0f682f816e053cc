//! A decoded module.
pub mod code;
pub mod data;
pub mod elements;
pub mod exports;
pub mod imports;
pub mod memory;
pub mod section;
pub mod start;
pub mod types;

use crate::parse_tree::functions::FuncBody;
use crate::parse_tree::functions::FuncBodyView;
use crate::parse_tree::globals::Global;
use crate::parse_tree::language_types::ExternalKind;
use crate::parse_tree::memory::Memory;
use crate::parse_tree::memory::MemoryView;
use crate::parse_tree::tables::Table;
use crate::parse_tree::tables::TableView;
use crate::parse_tree::types::TypeDefinition;
use crate::parse_tree::types::TypeDefinitionView;
use crate::tree::exports::distinct_fields;
use crate::tree::exports::export_map;
use crate::tree::exports::ExportEntry;
use crate::tree::imports::distinct_imports;
use crate::tree::imports::import_map;
use crate::tree::imports::ImportEntry;
use vstd::prelude::*;

verus! {

/// A module: what its sections declare.
#[derive(Debug, Clone, PartialEq, Eq)]
pub struct Module {
    pub version: u32,
    pub types: Vec<TypeDefinition>,
    pub imports: Vec<ImportEntry>,
    /// The type index of each function that the module defines.
    pub function_signatures: Vec<usize>,
    pub function_bodies: Vec<FuncBody>,
    pub tables: Vec<Table>,
    pub memories: Vec<Memory>,
    pub globals: Vec<Global>,
    pub exports: Vec<ExportEntry>,
    pub start_function: Option<usize>,
}

/// A module as values: imports keyed by module and field name, exports keyed by
/// name.
pub struct ModuleView {
    pub version: u32,
    pub types: Seq<TypeDefinitionView>,
    pub imports: Map<(Seq<char>, Seq<char>), ExternalKind>,
    pub function_signatures: Seq<usize>,
    pub function_bodies: Seq<FuncBodyView>,
    pub tables: Seq<TableView>,
    pub memories: Seq<MemoryView>,
    pub globals: Seq<Global>,
    pub exports: Map<Seq<char>, ExternalKind>,
    pub start_function: Option<usize>,
}

impl View for Module {
    type V = ModuleView;

    open spec fn view(&self) -> ModuleView {
        ModuleView {
            version: self.version,
            types: self.types@.map_values(|t: TypeDefinition| t@),
            imports: import_map(self.imports@),
            function_signatures: self.function_signatures@,
            function_bodies: self.function_bodies@.map_values(|b: FuncBody| b@),
            tables: self.tables@.map_values(|t: Table| t@),
            memories: self.memories@.map_values(|m: Memory| m@),
            globals: self.globals@,
            exports: export_map(self.exports@),
            start_function: self.start_function,
        }
    }
}

/// A module of the given version that declares nothing.
pub open spec fn empty_module(version: u32) -> ModuleView {
    ModuleView {
        version,
        types: Seq::empty(),
        imports: Map::empty(),
        function_signatures: Seq::empty(),
        function_bodies: Seq::empty(),
        tables: Seq::empty(),
        memories: Seq::empty(),
        globals: Seq::empty(),
        exports: Map::empty(),
        start_function: None,
    }
}

impl Module {
    /// Each import key and each export name occurs once in its list.
    pub open spec fn wf(&self) -> bool {
        &&& distinct_imports(self.imports@)
        &&& distinct_fields(self.exports@)
    }

    /// A module of the given version that declares nothing.
    pub fn new(version: u32) -> (r: Module)
        ensures
            r.wf(),
            r@ == empty_module(version),
    {
        let r = Module {
            version,
            types: Vec::new(),
            imports: Vec::new(),
            function_signatures: Vec::new(),
            function_bodies: Vec::new(),
            tables: Vec::new(),
            memories: Vec::new(),
            globals: Vec::new(),
            exports: Vec::new(),
            start_function: None,
        };
        assert(r@.types =~= Seq::empty());
        assert(r@.function_bodies =~= Seq::empty());
        assert(r@.tables =~= Seq::empty());
        assert(r@.memories =~= Seq::empty());
        r
    }
}

} // verus!
