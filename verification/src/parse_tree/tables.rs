//! Tables.
use crate::parse_tree::language_types::ResizableLimits;
use vstd::prelude::*;

verus! {

/// A table of function indices.
#[derive(Debug, Clone, PartialEq, Eq)]
pub enum Table {
    AnyFunc { limits: ResizableLimits, values: Vec<usize> },
}

/// A table as values.
pub enum TableView {
    AnyFunc { limits: ResizableLimits, values: Seq<usize> },
}

impl View for Table {
    type V = TableView;

    open spec fn view(&self) -> TableView {
        match self {
            Table::AnyFunc { limits, values } => TableView::AnyFunc { limits: *limits, values: values@ },
        }
    }
}

} // verus!
