use crate::capability::Allocator;
use crate::guard::Guard;
use crate::limit::{CountLimit, SizeLimit};
use crate::or::Or;
use crate::zero::Zero;
use vstd::prelude::*;

verus! {

/// Builders that stack a combinator on top of an allocator.
pub trait AllocatorExt: Allocator + Sized {
    /// `self` first, `fallback` when it fails.
    fn or<FallbackT: Allocator>(self, fallback: FallbackT) -> (r: Or<Self, FallbackT>)
        ensures
            r.primary == self,
            r.fallback == fallback,
    {
        Or { primary: self, fallback }
    }

    /// At most `limit` bytes outstanding.
    fn limit_size(self, limit: usize) -> (r: SizeLimit<Self>)
        ensures
            r.inner == self,
    {
        SizeLimit::new(self, limit)
    }

    /// At most `limit` blocks outstanding.
    fn limit_count(self, limit: usize) -> (r: CountLimit<Self>)
        ensures
            r.inner == self,
    {
        CountLimit::new(self, limit)
    }

    /// Every block surrounded by the sentinels `prefix` and `suffix`.
    fn guard(self, prefix: Vec<u8>, suffix: Vec<u8>) -> (r: Guard<Self>)
        requires
            prefix@.len() <= isize::MAX,
            suffix@.len() <= isize::MAX,
        ensures
            r.wf(),
            r.inner.inner == self,
            r.prefix@ == prefix@,
            r.suffix@ == suffix@,
    {
        Guard::new(self, prefix, suffix)
    }

    /// Every block zeroed.
    fn zero(self) -> (r: Zero<Self>)
        ensures
            r.inner == self,
    {
        Zero { inner: self }
    }
}

impl<A: Allocator> AllocatorExt for A {

}

} // verus!
