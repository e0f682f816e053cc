//! Function signatures and bodies.
use crate::parse_tree::language_types::Operation;
use crate::parse_tree::language_types::OperationView;
use crate::parse_tree::language_types::ValueType;
use vstd::prelude::*;

verus! {

/// The parameter and result types of a function.
#[derive(Debug, Clone, PartialEq, Eq)]
pub struct FuncSignature {
    pub parameters: Vec<ValueType>,
    pub returns: Vec<ValueType>,
}

/// A function signature as values.
pub struct FuncSignatureView {
    pub parameters: Seq<ValueType>,
    pub returns: Seq<ValueType>,
}

impl View for FuncSignature {
    type V = FuncSignatureView;

    open spec fn view(&self) -> FuncSignatureView {
        FuncSignatureView { parameters: self.parameters@, returns: self.returns@ }
    }
}

/// The local variables and the instructions of a function.
#[derive(Debug, Clone, PartialEq, Eq)]
pub struct FuncBody {
    pub locals: Vec<ValueType>,
    pub code: Vec<Operation>,
}

/// A function body as values.
pub struct FuncBodyView {
    pub locals: Seq<ValueType>,
    pub code: Seq<OperationView>,
}

/// The values of a sequence of instructions.
pub open spec fn operation_views(ops: Seq<Operation>) -> Seq<OperationView> {
    ops.map_values(|o: Operation| o@)
}

impl View for FuncBody {
    type V = FuncBodyView;

    open spec fn view(&self) -> FuncBodyView {
        FuncBodyView { locals: self.locals@, code: operation_views(self.code@) }
    }
}

impl FuncBody {
    /// A body without locals and without instructions.
    pub fn new() -> (r: Self)
        ensures
            r@.locals.len() == 0,
            r@.code.len() == 0,
    {
        FuncBody { locals: Vec::new(), code: Vec::new() }
    }
}

/// A function: its signature and its body.
#[derive(Debug, Clone, PartialEq, Eq)]
pub struct Function {
    pub signature: FuncSignature,
    pub body: FuncBody,
}

} // verus!
