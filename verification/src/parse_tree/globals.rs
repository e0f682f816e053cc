//! Globals.
use crate::parse_tree::language_types::GlobalType;
use crate::parse_tree::language_types::InitExpression;
use vstd::prelude::*;

verus! {

/// A global: its type and its initial value.
#[derive(Debug, Clone, Copy, PartialEq, Eq, Structural)]
pub struct Global {
    pub constraints: GlobalType,
    pub value: InitExpression,
}

impl View for Global {
    type V = Global;

    open spec fn view(&self) -> Global {
        *self
    }
}

} // verus!
