//! Function bodies as listed.
use crate::parse_tree::language_types::Operation;
use crate::parse_tree::language_types::ValueType;
use vstd::prelude::*;

verus! {

/// A function body: its local groups, each a count and a type, and its
/// instructions.
#[derive(Debug, Clone, PartialEq, Eq)]
pub struct FunctionBody {
    pub locals: Vec<(u64, ValueType)>,
    pub code: Vec<Operation>,
}

} // verus!
