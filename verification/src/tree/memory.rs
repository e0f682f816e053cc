//! Memory types.
use crate::parse_tree::language_types::ResizableLimits;
use crate::tree::section::Section;
use vstd::prelude::*;

verus! {

/// The memory section: the limits of each memory, in order.
#[derive(Debug, Clone, PartialEq, Eq)]
pub struct MemorySection {
    pub entries: Vec<ResizableLimits>,
}

impl Section for MemorySection {

}

} // verus!
