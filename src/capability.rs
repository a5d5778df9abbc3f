use crate::layout::Layout;
use vstd::prelude::*;

verus! {

/// The memory could not be obtained: no budget, no memory, or a layout that overflows.
#[derive(Debug, Clone, Copy, PartialEq, Eq, Hash, Structural)]
pub struct AllocError;

/// A block of memory: its start address and its length in bytes.
#[derive(Debug, Clone, Copy, PartialEq, Eq, Hash, Structural)]
pub struct Region {
    pub addr: usize,
    pub len: usize,
}

impl Region {
    /// The block is non-null, aligned for `layout`, at least as long as it asks,
    /// and lies inside the address space.
    pub open spec fn fits(self, layout: Layout) -> bool {
        &&& self.addr != 0
        &&& layout.align > 0
        &&& self.addr % layout.align == 0
        &&& self.len >= layout.size
        &&& self.addr + self.len <= usize::MAX
    }
}

/// Hands out blocks of memory and takes them back.
///
/// Each kind of allocation has a relation between its arguments and the
/// outcomes it may give. The default admits every outcome; the combinators of
/// this crate define theirs in terms of the allocators they wrap.
pub trait Allocator {
    /// `r` is an outcome that `allocate(layout)` may give.
    open spec fn allocates(&self, layout: Layout, r: Result<Region, AllocError>) -> bool {
        true
    }

    /// `r` is an outcome that `allocate_zeroed(layout)` may give.
    open spec fn allocates_zeroed(&self, layout: Layout, r: Result<Region, AllocError>) -> bool {
        true
    }

    /// A block for `layout`, or `AllocError`.
    fn allocate(&self, layout: Layout) -> (r: Result<Region, AllocError>)
        requires
            layout.valid(),
        ensures
            r matches Ok(b) ==> b.fits(layout),
            self.allocates(layout, r),
    ;

    /// A block for `layout` whose bytes are all zero, or `AllocError`.
    fn allocate_zeroed(&self, layout: Layout) -> (r: Result<Region, AllocError>)
        requires
            layout.valid(),
        ensures
            r matches Ok(b) ==> b.fits(layout),
            self.allocates_zeroed(layout, r),
    ;

    /// Gives back the block at `addr`, which this allocator handed out for `layout`.
    fn deallocate(&self, addr: usize, layout: Layout)
        requires
            layout.valid(),
    ;
}

/// Resizes a block in place or by moving it.
pub trait Resize: Allocator {
    /// `r` is an outcome that `grow(addr, old, new)` may give.
    open spec fn grows(&self, addr: usize, old: Layout, new: Layout, r: Result<Region, AllocError>) -> bool {
        true
    }

    /// `r` is an outcome that `grow_zeroed(addr, old, new)` may give.
    open spec fn grows_zeroed(
        &self,
        addr: usize,
        old: Layout,
        new: Layout,
        r: Result<Region, AllocError>,
    ) -> bool {
        true
    }

    /// `r` is an outcome that `shrink(addr, old, new)` may give.
    open spec fn shrinks(&self, addr: usize, old: Layout, new: Layout, r: Result<Region, AllocError>) -> bool {
        true
    }

    /// A block for the larger `new`, holding the bytes of the block at `addr`.
    fn grow(&self, addr: usize, old: Layout, new: Layout) -> (r: Result<Region, AllocError>)
        requires
            old.valid(),
            new.valid(),
            new.size >= old.size,
        ensures
            r matches Ok(b) ==> b.fits(new),
            self.grows(addr, old, new, r),
    ;

    /// As `grow`, with the added bytes zero.
    fn grow_zeroed(&self, addr: usize, old: Layout, new: Layout) -> (r: Result<Region, AllocError>)
        requires
            old.valid(),
            new.valid(),
            new.size >= old.size,
        ensures
            r matches Ok(b) ==> b.fits(new),
            self.grows_zeroed(addr, old, new, r),
    ;

    /// A block for the smaller `new`, holding the first bytes of the block at `addr`.
    fn shrink(&self, addr: usize, old: Layout, new: Layout) -> (r: Result<Region, AllocError>)
        requires
            old.valid(),
            new.valid(),
            new.size <= old.size,
        ensures
            r matches Ok(b) ==> b.fits(new),
            self.shrinks(addr, old, new, r),
    ;
}

/// Tells whether an allocator handed out a given block; a query without side effects.
pub trait Owns {
    /// Whether the block at `addr` for `layout` came from this allocator.
    spec fn spec_owns(&self, addr: usize, layout: Layout) -> bool;

    /// Answers `spec_owns`.
    fn owns(&self, addr: usize, layout: Layout) -> (r: bool)
        ensures
            r == self.spec_owns(addr, layout),
    ;
}

} // verus!
