use crate::capability::{AllocError, Allocator, Owns, Region, Resize};
use crate::layout::Layout;
use vstd::prelude::*;

verus! {

/// Takes every block from the zeroing path of the inner allocator.
#[derive(Debug, Clone, Copy, PartialEq, Eq, Hash)]
pub struct Zero<A> {
    pub inner: A,
}

impl<A: Allocator> Allocator for Zero<A> {
    /// An outcome of the inner allocator's zeroing path.
    open spec fn allocates(&self, layout: Layout, r: Result<Region, AllocError>) -> bool {
        self.inner.allocates_zeroed(layout, r)
    }

    /// An outcome of the inner allocator's zeroing path.
    open spec fn allocates_zeroed(&self, layout: Layout, r: Result<Region, AllocError>) -> bool {
        self.inner.allocates_zeroed(layout, r)
    }

    fn allocate(&self, layout: Layout) -> (r: Result<Region, AllocError>) {
        self.inner.allocate_zeroed(layout)
    }

    fn allocate_zeroed(&self, layout: Layout) -> (r: Result<Region, AllocError>) {
        self.inner.allocate_zeroed(layout)
    }

    fn deallocate(&self, addr: usize, layout: Layout) {
        self.inner.deallocate(addr, layout)
    }
}

impl<A: Resize> Resize for Zero<A> {
    open spec fn grows(&self, addr: usize, old: Layout, new: Layout, r: Result<Region, AllocError>) -> bool {
        self.inner.grows(addr, old, new, r)
    }

    open spec fn grows_zeroed(
        &self,
        addr: usize,
        old: Layout,
        new: Layout,
        r: Result<Region, AllocError>,
    ) -> bool {
        self.inner.grows_zeroed(addr, old, new, r)
    }

    open spec fn shrinks(&self, addr: usize, old: Layout, new: Layout, r: Result<Region, AllocError>) -> bool {
        self.inner.shrinks(addr, old, new, r)
    }

    fn grow(&self, addr: usize, old: Layout, new: Layout) -> (r: Result<Region, AllocError>) {
        self.inner.grow(addr, old, new)
    }

    fn grow_zeroed(&self, addr: usize, old: Layout, new: Layout) -> (r: Result<Region, AllocError>) {
        self.inner.grow_zeroed(addr, old, new)
    }

    fn shrink(&self, addr: usize, old: Layout, new: Layout) -> (r: Result<Region, AllocError>) {
        self.inner.shrink(addr, old, new)
    }
}

impl<A: Owns> Owns for Zero<A> {
    open spec fn spec_owns(&self, addr: usize, layout: Layout) -> bool {
        self.inner.spec_owns(addr, layout)
    }

    fn owns(&self, addr: usize, layout: Layout) -> (r: bool) {
        self.inner.owns(addr, layout)
    }
}

} // verus!
