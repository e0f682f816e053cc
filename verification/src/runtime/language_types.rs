//! Run-time values.
pub use crate::runtime_tree::language_types::ValueTypeProvider as ValueTypeInstance;
