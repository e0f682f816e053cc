//! Host values handed to exported functions.
use crate::runtime::language_types::ValueTypeInstance;
use vstd::prelude::*;

verus! {

/// A host value that can be passed to a function as a run-time value.
pub trait ValueTypeProvider {
    /// The run-time value that stands for this value.
    fn get_value(&self) -> ValueTypeInstance;
}

impl ValueTypeProvider for i32 {
    fn get_value(&self) -> (r: ValueTypeInstance)
        ensures
            r == ValueTypeInstance::I32(*self),
    {
        ValueTypeInstance::I32(*self)
    }
}

impl ValueTypeProvider for i64 {
    fn get_value(&self) -> (r: ValueTypeInstance)
        ensures
            r == ValueTypeInstance::I64(*self),
    {
        ValueTypeInstance::I64(*self)
    }
}

} // verus!
