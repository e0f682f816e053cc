//! Data segments.
use crate::tree::section::Section;
use vstd::prelude::*;

verus! {

/// The data section: its segments in order.
#[derive(Debug, Clone, PartialEq, Eq)]
pub struct DataSection {
    pub entries: Vec<DataSegment>,
}

/// A data segment: the memory index, the offset and the bytes.
#[derive(Debug, Clone, PartialEq, Eq)]
pub struct DataSegment {
    pub index: u64,
    pub offset: i64,
    pub data: Vec<u8>,
}

impl Section for DataSection {

}

} // verus!
