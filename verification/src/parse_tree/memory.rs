//! Linear memories.
use crate::parse_tree::language_types::ResizableLimits;
use vstd::prelude::*;

verus! {

/// The size of a page of linear memory, in bytes.
pub const WASM_PAGE_SIZE: usize = 65536;

/// A linear memory: its limits and its bytes.
#[derive(Debug, Clone, PartialEq, Eq)]
pub struct Memory {
    pub limits: ResizableLimits,
    pub values: Vec<u8>,
}

/// A memory as values.
pub struct MemoryView {
    pub limits: ResizableLimits,
    pub values: Seq<u8>,
}

impl View for Memory {
    type V = MemoryView;

    open spec fn view(&self) -> MemoryView {
        MemoryView { limits: self.limits, values: self.values@ }
    }
}

/// What `size` reports for a memory of `len` bytes: the remainder of `len` modulo
/// the page size.
pub open spec fn spec_size(len: nat) -> int {
    (len % (WASM_PAGE_SIZE as nat)) as int
}

impl Memory {
    /// Appends a page of zero bytes and returns what `size` reported before.
    pub fn grow(&mut self) -> (r: i32)
        requires
            old(self).values@.len() + WASM_PAGE_SIZE <= usize::MAX,
        ensures
            r as int == spec_size(old(self).values@.len()),
            final(self).limits == old(self).limits,
            final(self).values@ == old(self).values@ + Seq::new(WASM_PAGE_SIZE as nat, |i: int| 0u8),
            spec_size(final(self).values@.len()) == spec_size(old(self).values@.len()),
    {
        let r: i32 = self.size();
        let len: usize = self.values.len();
        self.values.resize(len + WASM_PAGE_SIZE, 0u8);
        proof {
            let page = Seq::new(WASM_PAGE_SIZE as nat, |i: int| 0u8);
            assert forall|i: int| 0 <= i < self.values@.len() implies self.values@[i] == (old(self).values@ + page)[i] by {
                if i >= len {
                    assert(cloned::<u8>(0u8, self.values@[i]));
                }
            }
            assert(self.values@ =~= old(self).values@ + page);
            assert((len + WASM_PAGE_SIZE) as nat % (WASM_PAGE_SIZE as nat) == (len as nat) % (WASM_PAGE_SIZE as nat)) by (nonlinear_arith);
        }
        r
    }

    /// The remainder of the length in bytes modulo the page size.
    pub fn size(&self) -> (r: i32)
        ensures
            r as int == spec_size(self.values@.len()),
    {
        (self.values.len() % WASM_PAGE_SIZE) as i32
    }
}

} // verus!
