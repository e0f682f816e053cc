//! Type definitions.
use crate::parse_tree::functions::FuncSignature;
use crate::parse_tree::functions::FuncSignatureView;
use vstd::prelude::*;

verus! {

/// An entry of the types section.
#[derive(Debug, Clone, PartialEq, Eq)]
pub enum TypeDefinition {
    Func(FuncSignature),
}

/// A type definition as values.
pub enum TypeDefinitionView {
    Func(FuncSignatureView),
}

impl View for TypeDefinition {
    type V = TypeDefinitionView;

    open spec fn view(&self) -> TypeDefinitionView {
        match self {
            TypeDefinition::Func(s) => TypeDefinitionView::Func(s@),
        }
    }
}

} // verus!
