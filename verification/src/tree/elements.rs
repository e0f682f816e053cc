//! Element segments.
use crate::tree::section::Section;
use crate::tree::types::TypeEntry;
use vstd::prelude::*;

verus! {

/// The elements section: its segments in order.
#[derive(Debug, Clone, PartialEq, Eq)]
pub struct ElementSection {
    pub entries: Vec<ElementSegment>,
}

/// An element segment: the table index, the offset and the elements.
#[derive(Debug, Clone, PartialEq, Eq)]
pub struct ElementSegment {
    pub index: u64,
    pub offset: i64,
    pub elements: Vec<TypeEntry>,
}

impl Section for ElementSection {

}

} // verus!
