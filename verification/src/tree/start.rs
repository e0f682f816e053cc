//! The start function.
use crate::tree::section::Section;
use crate::tree::types::TypeEntry;
use vstd::prelude::*;

verus! {

/// The start section: the function that runs when the module is instantiated.
#[derive(Debug, Clone, PartialEq, Eq)]
pub struct StartSection {
    pub start_function: TypeEntry,
}

impl Section for StartSection {

}

} // verus!
