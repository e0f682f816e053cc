//! The sections of a module.
use vstd::prelude::*;

verus! {

/// A section of a module.
pub trait Section {

}

} // verus!
