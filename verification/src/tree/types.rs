//! Type entries.
use crate::parse_tree::functions::FuncSignature;
use crate::parse_tree::language_types::LanguageType;
use crate::parse_tree::language_types::ValueType;
use crate::tree::section::Section;
use vstd::prelude::*;

verus! {

/// The types section: its entries in order.
#[derive(Debug, Clone, PartialEq, Eq)]
pub struct TypeSection {
    pub types: Vec<TypeEntry>,
}

impl Section for TypeSection {

}

/// A type entry: its form and its parameter and result types.
#[derive(Debug, Clone, PartialEq, Eq)]
pub struct TypeEntry {
    pub form: LanguageType,
    pub params: Vec<ValueType>,
    pub returns: Vec<ValueType>,
}

/// Something that a type entry can describe.
pub trait TypeInstance {

}

impl TypeInstance for FuncSignature {

}

} // verus!
