use crate::capability::{AllocError, Allocator, Owns, Region};
use crate::layout::Layout;
use vstd::prelude::*;

verus! {

/// An allocator that never allocates; it ends a chain of fallbacks.
#[derive(Debug, Clone, Copy, PartialEq, Eq, Hash, Structural)]
pub struct Null;

impl Allocator for Null {
    /// Only failure.
    open spec fn allocates(&self, layout: Layout, r: Result<Region, AllocError>) -> bool {
        r == Err::<Region, AllocError>(AllocError)
    }

    /// Only failure.
    open spec fn allocates_zeroed(&self, layout: Layout, r: Result<Region, AllocError>) -> bool {
        r == Err::<Region, AllocError>(AllocError)
    }

    fn allocate(&self, layout: Layout) -> (r: Result<Region, AllocError>) {
        Err(AllocError)
    }

    fn allocate_zeroed(&self, layout: Layout) -> (r: Result<Region, AllocError>) {
        Err(AllocError)
    }

    /// Nothing was handed out, so nothing comes back; there is nothing to do.
    fn deallocate(&self, addr: usize, layout: Layout) {
    }
}

impl Owns for Null {
    /// Owns nothing.
    open spec fn spec_owns(&self, addr: usize, layout: Layout) -> bool {
        false
    }

    fn owns(&self, addr: usize, layout: Layout) -> (r: bool) {
        false
    }
}

} // verus!
