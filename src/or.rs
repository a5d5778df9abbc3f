use crate::capability::{AllocError, Allocator, Owns, Region, Resize};
use crate::layout::Layout;
use vstd::prelude::*;

verus! {

/// Tries `primary` first and `fallback` when it fails; gives each block back to
/// whichever of the two owns it.
#[derive(Debug, Clone, Copy, PartialEq, Eq, Hash)]
pub struct Or<PrimaryT, FallbackT> {
    pub primary: PrimaryT,
    pub fallback: FallbackT,
}

impl<PrimaryT: Owns, FallbackT> Or<PrimaryT, FallbackT> {
    /// Whether a block goes back to, or is resized by, the primary allocator:
    /// exactly when the primary owns it; otherwise the fallback handles it.
    pub open spec fn routes_to_primary(&self, addr: usize, layout: Layout) -> bool {
        self.primary.spec_owns(addr, layout)
    }

    /// Decides where the block at `addr` for `layout` goes.
    pub fn route(&self, addr: usize, layout: Layout) -> (r: bool)
        ensures
            r == self.routes_to_primary(addr, layout),
    {
        self.primary.owns(addr, layout)
    }
}

impl<PrimaryT: Allocator + Owns, FallbackT: Allocator> Allocator for Or<PrimaryT, FallbackT> {
    /// A success of the primary; or, after a primary failure, any outcome of the
    /// fallback (so when both fail, the fallback's failure).
    open spec fn allocates(&self, layout: Layout, r: Result<Region, AllocError>) -> bool {
        ||| (r is Ok && self.primary.allocates(layout, r))
        ||| (self.primary.allocates(layout, Err(AllocError)) && self.fallback.allocates(layout, r))
    }

    /// As `allocates`, on the zeroing paths.
    open spec fn allocates_zeroed(&self, layout: Layout, r: Result<Region, AllocError>) -> bool {
        ||| (r is Ok && self.primary.allocates_zeroed(layout, r))
        ||| (self.primary.allocates_zeroed(layout, Err(AllocError))
            && self.fallback.allocates_zeroed(layout, r))
    }

    fn allocate(&self, layout: Layout) -> (r: Result<Region, AllocError>) {
        match self.primary.allocate(layout) {
            Ok(b) => Ok(b),
            Err(e) => self.fallback.allocate(layout),
        }
    }

    fn allocate_zeroed(&self, layout: Layout) -> (r: Result<Region, AllocError>) {
        match self.primary.allocate_zeroed(layout) {
            Ok(b) => Ok(b),
            Err(e) => self.fallback.allocate_zeroed(layout),
        }
    }

    /// Gives the block to the primary when it owns it, else to the fallback.
    fn deallocate(&self, addr: usize, layout: Layout) {
        if self.route(addr, layout) {
            self.primary.deallocate(addr, layout)
        } else {
            self.fallback.deallocate(addr, layout)
        }
    }
}

impl<PrimaryT: Resize + Owns, FallbackT: Resize> Resize for Or<PrimaryT, FallbackT> {
    /// An outcome of the owner's `grow`.
    open spec fn grows(&self, addr: usize, old: Layout, new: Layout, r: Result<Region, AllocError>) -> bool {
        if self.routes_to_primary(addr, old) {
            self.primary.grows(addr, old, new, r)
        } else {
            self.fallback.grows(addr, old, new, r)
        }
    }

    /// An outcome of the owner's `grow_zeroed`.
    open spec fn grows_zeroed(
        &self,
        addr: usize,
        old: Layout,
        new: Layout,
        r: Result<Region, AllocError>,
    ) -> bool {
        if self.routes_to_primary(addr, old) {
            self.primary.grows_zeroed(addr, old, new, r)
        } else {
            self.fallback.grows_zeroed(addr, old, new, r)
        }
    }

    /// An outcome of the owner's `shrink`.
    open spec fn shrinks(&self, addr: usize, old: Layout, new: Layout, r: Result<Region, AllocError>) -> bool {
        if self.routes_to_primary(addr, old) {
            self.primary.shrinks(addr, old, new, r)
        } else {
            self.fallback.shrinks(addr, old, new, r)
        }
    }

    fn grow(&self, addr: usize, old: Layout, new: Layout) -> (r: Result<Region, AllocError>) {
        if self.route(addr, old) {
            self.primary.grow(addr, old, new)
        } else {
            self.fallback.grow(addr, old, new)
        }
    }

    fn grow_zeroed(&self, addr: usize, old: Layout, new: Layout) -> (r: Result<Region, AllocError>) {
        if self.route(addr, old) {
            self.primary.grow_zeroed(addr, old, new)
        } else {
            self.fallback.grow_zeroed(addr, old, new)
        }
    }

    fn shrink(&self, addr: usize, old: Layout, new: Layout) -> (r: Result<Region, AllocError>) {
        if self.route(addr, old) {
            self.primary.shrink(addr, old, new)
        } else {
            self.fallback.shrink(addr, old, new)
        }
    }
}

impl<PrimaryT: Owns, FallbackT: Owns> Owns for Or<PrimaryT, FallbackT> {
    /// Owned by either of the two.
    open spec fn spec_owns(&self, addr: usize, layout: Layout) -> bool {
        self.primary.spec_owns(addr, layout) || self.fallback.spec_owns(addr, layout)
    }

    fn owns(&self, addr: usize, layout: Layout) -> (r: bool) {
        self.primary.owns(addr, layout) || self.fallback.owns(addr, layout)
    }
}

/// With a primary that never allocates, every allocation is an outcome of the
/// fallback alone, and every block goes back to the fallback.
pub proof fn lemma_null_primary<FallbackT: Allocator>(
    o: Or<crate::null::Null, FallbackT>,
    layout: Layout,
    addr: usize,
    r: Result<Region, AllocError>,
)
    ensures
        o.allocates(layout, r) == o.fallback.allocates(layout, r),
        o.allocates_zeroed(layout, r) == o.fallback.allocates_zeroed(layout, r),
        !o.routes_to_primary(addr, layout),
{
}

} // verus!
