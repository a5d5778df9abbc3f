use crate::affix::{Affix, AffixLayout, Affixed};
use crate::capability::{AllocError, Allocator};
use crate::layout::Layout;
use vstd::prelude::*;

verus! {

/// Which sentinel no longer holds the bytes written at allocation.
#[derive(Debug, Clone, Copy, PartialEq, Eq, Hash, Structural)]
pub enum Corruption {
    Prefix,
    Suffix,
}

/// Surrounds every block with fixed prefix and suffix bytes, to be written when the
/// block is handed out and checked when it comes back.
#[derive(Debug, Clone)]
pub struct Guard<A> {
    pub inner: Affix<A>,
    pub prefix: Vec<u8>,
    pub suffix: Vec<u8>,
}

/// Whether two byte strings are equal.
pub fn bytes_equal(a: &[u8], b: &[u8]) -> (r: bool)
    ensures
        r == (a@ == b@),
{
    if a.len() != b.len() {
        return false;
    }
    let mut i: usize = 0;
    while i < a.len()
        invariant
            a@.len() == b@.len(),
            i <= a@.len(),
            forall|j: int| 0 <= j < i ==> a@[j] == b@[j],
        decreases a@.len() - i,
    {
        if a[i] != b[i] {
            return false;
        }
        i = i + 1;
    }
    assert(a@ =~= b@);
    true
}

/// The outcome of checking the bytes read back from the prefix and the suffix.
pub open spec fn spec_check(prefix: Seq<u8>, suffix: Seq<u8>, seen_prefix: Seq<u8>, seen_suffix: Seq<u8>) -> Result<(), Corruption> {
    if seen_prefix != prefix {
        Err(Corruption::Prefix)
    } else if seen_suffix != suffix {
        Err(Corruption::Suffix)
    } else {
        Ok(())
    }
}

/// Sentinels read back untouched pass the check; a change to either one is
/// reported, the prefix first.
pub proof fn lemma_guard_detects_corruption(
    prefix: Seq<u8>,
    suffix: Seq<u8>,
    seen_prefix: Seq<u8>,
    seen_suffix: Seq<u8>,
)
    ensures
        spec_check(prefix, suffix, prefix, suffix) == Ok::<(), Corruption>(()),
        seen_prefix != prefix ==> spec_check(prefix, suffix, seen_prefix, seen_suffix) == Err::<
            (),
            Corruption,
        >(Corruption::Prefix),
        seen_prefix == prefix && seen_suffix != suffix ==> spec_check(
            prefix,
            suffix,
            seen_prefix,
            seen_suffix,
        ) == Err::<(), Corruption>(Corruption::Suffix),
{
}

impl<A> Guard<A> {
    /// The affix sizes are those of the sentinels, on byte alignment.
    pub open spec fn wf(self) -> bool {
        &&& self.inner.wf()
        &&& self.prefix@.len() <= isize::MAX
        &&& self.suffix@.len() <= isize::MAX
        &&& self.inner.prefix == Layout { size: self.prefix@.len() as usize, align: 1 }
        &&& self.inner.suffix == Layout { size: self.suffix@.len() as usize, align: 1 }
    }

    /// Guards `inner` with the sentinels `prefix` and `suffix`.
    pub fn new(inner: A, prefix: Vec<u8>, suffix: Vec<u8>) -> (r: Guard<A>)
        requires
            prefix@.len() <= isize::MAX,
            suffix@.len() <= isize::MAX,
        ensures
            r.wf(),
            r.inner.inner == inner,
            r.prefix@ == prefix@,
            r.suffix@ == suffix@,
    {
        proof {
            vstd::arithmetic::power2::lemma2_to64();
            assert(vstd::arithmetic::power2::is_pow2(1)) by {
                reveal(vstd::arithmetic::power2::is_pow2);
            }
        }
        let p = Layout { size: prefix.len(), align: 1 };
        let s = Layout { size: suffix.len(), align: 1 };
        Guard { inner: Affix::new(inner, p, s), prefix, suffix }
    }

    /// Whether the affix layouts match the sentinels, as `wf` says.
    pub fn is_well_formed(&self) -> (r: bool)
        ensures
            r == self.wf(),
    {
        proof {
            reveal(vstd::arithmetic::power2::is_pow2);
        }
        self.inner.prefix.is_valid() && self.inner.suffix.is_valid() && self.prefix.len()
            <= isize::MAX as usize && self.suffix.len() <= isize::MAX as usize
            && self.inner.prefix.size == self.prefix.len() && self.inner.prefix.align == 1
            && self.inner.suffix.size == self.suffix.len() && self.inner.suffix.align == 1
    }

    /// Checks the bytes read back from the prefix and suffix of a block against
    /// the sentinels.
    pub fn check(&self, seen_prefix: &[u8], seen_suffix: &[u8]) -> (r: Result<(), Corruption>)
        ensures
            r == spec_check(self.prefix@, self.suffix@, seen_prefix@, seen_suffix@),
    {
        if !bytes_equal(seen_prefix, self.prefix.as_slice()) {
            Err(Corruption::Prefix)
        } else if !bytes_equal(seen_suffix, self.suffix.as_slice()) {
            Err(Corruption::Suffix)
        } else {
            Ok(())
        }
    }

    /// The prefix and suffix addresses of the block whose body this guard handed
    /// out at `body` for `layout`.
    pub fn locate(&self, body: usize, layout: Layout) -> (r: Option<(usize, usize)>)
        requires
            self.wf(),
            layout.valid(),
        ensures
            r == self.inner.spec_get(body, layout),
    {
        self.inner.affix_get(body, layout)
    }
}

impl<A: Allocator> Guard<A> {
    /// Allocates a block for `layout` with room for the sentinels, which the caller
    /// writes at `prefix` and `suffix`: the prefix ends before the body and the
    /// suffix ends inside the outer block.
    pub fn allocate(&self, layout: Layout) -> (r: Result<Affixed, AllocError>)
        requires
            self.wf(),
            layout.valid(),
        ensures
            self.inner.affix_outcome(layout, r, false),
            self.inner.placement(layout) is None ==> r == Err::<Affixed, AllocError>(AllocError),
            r matches Ok(t) ==> {
                &&& self.inner.splits(layout, t)
                &&& t.prefix + self.prefix@.len() <= t.body.addr
                &&& t.body.addr + layout.size <= t.suffix
                &&& t.suffix + self.suffix@.len() <= t.prefix
                    + self.inner.placement(layout)->Some_0.outer.size
            },
    {
        let r = self.inner.affix_allocate(layout);
        proof {
            if self.inner.placement(layout) is Some {
                AffixLayout::lemma_compute_places(self.inner.prefix, layout, self.inner.suffix);
            }
        }
        r
    }

    /// Takes back the block at `body`, given the bytes now found in its prefix and
    /// suffix. When either differs from its sentinel the memory has been
    /// corrupted: the block is not given back and the corruption is reported.
    pub fn deallocate(
        &self,
        body: usize,
        layout: Layout,
        seen_prefix: &[u8],
        seen_suffix: &[u8],
    ) -> (r: Result<(), Corruption>)
        requires
            self.wf(),
            layout.valid(),
        ensures
            r == spec_check(self.prefix@, self.suffix@, seen_prefix@, seen_suffix@),
    {
        let r = self.check(seen_prefix, seen_suffix);
        if r.is_ok() {
            self.inner.deallocate(body, layout);
        }
        r
    }
}

} // verus!
