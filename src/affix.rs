use crate::capability::{AllocError, Allocator, Owns, Region};
use crate::layout::{align_up, lemma_align_up, lemma_aligned_to_smaller, max_usize, Layout};
use vstd::arithmetic::power2::is_pow2;
use vstd::prelude::*;

verus! {

/// Where a body and its hidden prefix and suffix sit inside one outer block.
///
/// ```text
/// | prefix | pad | body | pad | suffix | pad |
/// ^ start        ^ body_offset  ^ suffix_offset   ^ outer.size
/// ```
#[derive(Debug, Clone, Copy, PartialEq, Eq, Hash, Structural)]
pub struct AffixLayout {
    pub body_offset: usize,
    pub suffix_offset: usize,
    pub outer: Layout,
}

/// The three addresses of one affixed allocation.
#[derive(Debug, Clone, Copy, PartialEq, Eq, Hash, Structural)]
pub struct Affixed {
    pub prefix: usize,
    pub body: Region,
    pub suffix: usize,
}

impl AffixLayout {
    /// The prefix, then the body at its first aligned offset, then the suffix at its
    /// first aligned offset after the body, all padded to the largest alignment.
    pub open spec fn spec_compute(prefix: Layout, body: Layout, suffix: Layout) -> Option<
        AffixLayout,
    > {
        match prefix.spec_extend(body) {
            None => None,
            Some((with_body, body_offset)) => match with_body.spec_extend(suffix) {
                None => None,
                Some((with_suffix, suffix_offset)) => Some(
                    AffixLayout {
                        body_offset,
                        suffix_offset,
                        outer: with_suffix.spec_pad_to_align(),
                    },
                ),
            },
        }
    }

    /// The offsets lie in order inside a valid outer layout.
    pub open spec fn wf(self) -> bool {
        &&& self.outer.valid()
        &&& self.body_offset <= self.suffix_offset
        &&& self.suffix_offset <= self.outer.size
    }

    /// How the three parts are placed: each aligned, with the least padding before
    /// it, none overlapping, inside a valid outer layout whose size is a multiple of
    /// its alignment.
    pub open spec fn places(self, prefix: Layout, body: Layout, suffix: Layout) -> bool {
        &&& self.wf()
        &&& self.body_offset == align_up(prefix.size as int, body.align as int)
        &&& self.body_offset >= prefix.size
        &&& self.body_offset as int % body.align as int == 0
        &&& self.suffix_offset == align_up(self.body_offset + body.size, suffix.align as int)
        &&& self.suffix_offset >= self.body_offset + body.size
        &&& self.suffix_offset as int % suffix.align as int == 0
        &&& self.outer.size >= self.suffix_offset + suffix.size
        &&& self.outer.size as int % self.outer.align as int == 0
        &&& self.outer.align == max_usize(max_usize(prefix.align, body.align), suffix.align)
        &&& self.outer.align as int % body.align as int == 0
    }

    /// The body inside the outer block that starts at `outer`.
    pub open spec fn spec_narrow(self, outer: Region) -> Region {
        Region {
            addr: (outer.addr + self.body_offset) as usize,
            len: (self.suffix_offset - self.body_offset) as usize,
        }
    }

    /// The prefix and suffix addresses around the body at `body`.
    pub open spec fn spec_broaden(self, body: usize) -> (usize, usize) {
        (
            (body - self.body_offset) as usize,
            (body - self.body_offset + self.suffix_offset) as usize,
        )
    }

    /// Any layout that the computation gives is placed as `places` says.
    pub proof fn lemma_compute_places(prefix: Layout, body: Layout, suffix: Layout)
        requires
            prefix.valid(),
            body.valid(),
            suffix.valid(),
            AffixLayout::spec_compute(prefix, body, suffix) is Some,
        ensures
            AffixLayout::spec_compute(prefix, body, suffix)->Some_0.places(prefix, body, suffix),
    {
        reveal(is_pow2);
        prefix.lemma_valid();
        body.lemma_valid();
        suffix.lemma_valid();
        let (with_body, body_offset) = prefix.spec_extend(body)->Some_0;
        let (with_suffix, suffix_offset) = with_body.spec_extend(suffix)->Some_0;
        lemma_align_up(prefix.size as int, body.align as int);
        lemma_align_up(with_body.size as int, suffix.align as int);
        with_suffix.lemma_valid();
        let outer = with_suffix.spec_pad_to_align();
        assert(outer.valid());
        let a1 = max_usize(prefix.align, body.align);
        if body.align <= prefix.align {
            vstd::arithmetic::div_mod::lemma_mod_self_0(body.align as int);
            lemma_aligned_to_smaller(a1 as int, body.align as int, prefix.align as int);
        } else {
            vstd::arithmetic::div_mod::lemma_mod_self_0(body.align as int);
        }
        if a1 <= suffix.align {
            lemma_aligned_to_smaller(suffix.align as int, a1 as int, suffix.align as int);
            lemma_aligned_to_smaller(suffix.align as int, body.align as int, a1 as int);
        }
    }

    /// Computes the placement of `body` between `prefix` and `suffix`; `None` when
    /// the combined layout would not fit the address space.
    pub fn compute(prefix: Layout, body: Layout, suffix: Layout) -> (r: Option<AffixLayout>)
        requires
            prefix.valid(),
            body.valid(),
            suffix.valid(),
        ensures
            r == AffixLayout::spec_compute(prefix, body, suffix),
            r matches Some(a) ==> a.places(prefix, body, suffix),
    {
        let (with_body, body_offset) = match prefix.extend(body) {
            Some(p) => p,
            None => return None,
        };
        let (with_suffix, suffix_offset) = match with_body.extend(suffix) {
            Some(p) => p,
            None => return None,
        };
        let outer = with_suffix.pad_to_align();
        proof {
            AffixLayout::lemma_compute_places(prefix, body, suffix);
        }
        Some(AffixLayout { body_offset, suffix_offset, outer })
    }

    /// The placement of `body` between a `PrefixT` and a `SuffixT`.
    pub fn new<PrefixT, SuffixT>(body: Layout) -> (r: Option<AffixLayout>)
        requires
            body.valid(),
        ensures
            r == AffixLayout::spec_compute(
                Layout::spec_new::<PrefixT>(),
                body,
                Layout::spec_new::<SuffixT>(),
            ),
            r matches Some(a) ==> a.places(
                Layout::spec_new::<PrefixT>(),
                body,
                Layout::spec_new::<SuffixT>(),
            ),
    {
        AffixLayout::compute(Layout::new::<PrefixT>(), body, Layout::new::<SuffixT>())
    }

    /// The body part of the outer block `outer`, which was allocated for `self.outer`.
    pub fn narrow(&self, outer: Region) -> (r: Region)
        requires
            self.wf(),
            outer.addr + self.outer.size <= usize::MAX,
        ensures
            r == self.spec_narrow(outer),
    {
        Region { addr: outer.addr + self.body_offset, len: self.suffix_offset - self.body_offset }
    }

    /// The prefix and suffix addresses of the block whose body starts at `body`.
    pub fn broaden(&self, body: usize) -> (r: (usize, usize))
        requires
            body >= self.body_offset,
            body - self.body_offset + self.suffix_offset <= usize::MAX,
        ensures
            r == self.spec_broaden(body),
    {
        let prefix = body - self.body_offset;
        (prefix, prefix + self.suffix_offset)
    }
}

/// Equal inputs give the same placement, so it can be computed again from the
/// body layout alone whenever it is needed.
pub proof fn lemma_compute_deterministic(
    prefix: Layout,
    body: Layout,
    suffix: Layout,
    prefix2: Layout,
    body2: Layout,
    suffix2: Layout,
)
    requires
        prefix == prefix2,
        body == body2,
        suffix == suffix2,
    ensures
        AffixLayout::spec_compute(prefix, body, suffix) == AffixLayout::spec_compute(
            prefix2,
            body2,
            suffix2,
        ),
{
}

/// Narrowing an outer block to its body and broadening the body again gives back
/// the start of the outer block and the start of its suffix.
pub proof fn lemma_narrow_broaden(prefix: Layout, body: Layout, suffix: Layout, outer: Region)
    requires
        prefix.valid(),
        body.valid(),
        suffix.valid(),
        AffixLayout::spec_compute(prefix, body, suffix) is Some,
        outer.fits(AffixLayout::spec_compute(prefix, body, suffix)->Some_0.outer),
    ensures
        ({
            let a = AffixLayout::spec_compute(prefix, body, suffix)->Some_0;
            let b = a.spec_narrow(outer);
            &&& b.addr >= a.body_offset
            &&& b.addr - a.body_offset + a.suffix_offset <= usize::MAX
            &&& a.spec_broaden(b.addr) == (outer.addr, (outer.addr + a.suffix_offset) as usize)
        }),
{
    AffixLayout::lemma_compute_places(prefix, body, suffix);
}

/// Allocates room for a hidden prefix and suffix around every block it hands out.
#[derive(Debug, Clone, Copy, PartialEq, Eq, Hash)]
pub struct Affix<A> {
    pub inner: A,
    pub prefix: Layout,
    pub suffix: Layout,
}

impl<A> Affix<A> {
    pub open spec fn wf(self) -> bool {
        self.prefix.valid() && self.suffix.valid()
    }

    /// The placement of a body of layout `body` in this allocator's blocks.
    pub open spec fn placement(self, body: Layout) -> Option<AffixLayout> {
        AffixLayout::spec_compute(self.prefix, body, self.suffix)
    }

    /// The prefix and suffix addresses around the body at `body` for `layout`;
    /// `None` where no block of this allocator could have its body there.
    pub open spec fn spec_get(self, body: usize, layout: Layout) -> Option<(usize, usize)> {
        match self.placement(layout) {
            Some(a) => if body >= a.body_offset && body - a.body_offset + a.suffix_offset
                <= usize::MAX {
                Some(a.spec_broaden(body))
            } else {
                None
            },
            None => None,
        }
    }

    /// Wraps `inner` with a prefix and suffix of the given layouts.
    pub fn new(inner: A, prefix: Layout, suffix: Layout) -> (r: Affix<A>)
        requires
            prefix.valid(),
            suffix.valid(),
        ensures
            r.wf(),
            r.inner == inner,
            r.prefix == prefix,
            r.suffix == suffix,
    {
        Affix { inner, prefix, suffix }
    }

    /// Wraps `inner` with room for a `PrefixT` and a `SuffixT`.
    pub fn of_types<PrefixT, SuffixT>(inner: A) -> (r: Affix<A>)
        ensures
            r.wf(),
            r.inner == inner,
            r.prefix == Layout::spec_new::<PrefixT>(),
            r.suffix == Layout::spec_new::<SuffixT>(),
    {
        Affix { inner, prefix: Layout::new::<PrefixT>(), suffix: Layout::new::<SuffixT>() }
    }

    /// The prefix and suffix addresses of the block whose body this allocator handed
    /// out at `body` for `layout`.
    pub fn affix_get(&self, body: usize, layout: Layout) -> (r: Option<(usize, usize)>)
        requires
            self.wf(),
            layout.valid(),
        ensures
            r == self.spec_get(body, layout),
    {
        match AffixLayout::compute(self.prefix, layout, self.suffix) {
            Some(a) => {
                if body >= a.body_offset && body - a.body_offset <= usize::MAX - a.suffix_offset {
                    Some(a.broaden(body))
                } else {
                    None
                }
            },
            None => None,
        }
    }
}

impl<A: Allocator> Affix<A> {
    /// `t` holds the addresses of an outer block allocated for a body of layout
    /// `body`: the body is aligned and long enough, and prefix and suffix sit at
    /// their offsets around it.
    pub open spec fn splits(self, body: Layout, t: Affixed) -> bool {
        let a = self.placement(body)->Some_0;
        &&& self.placement(body) is Some
        &&& t.body.fits(body)
        &&& t.body.len == a.suffix_offset - a.body_offset
        &&& t.body.addr >= a.body_offset
        &&& t.prefix == t.body.addr - a.body_offset
        &&& t.prefix != 0
        &&& t.prefix as int % a.outer.align as int == 0
        &&& t.suffix == t.prefix + a.suffix_offset
        &&& t.suffix as int % self.suffix.align as int == 0
        &&& t.prefix + a.outer.size <= usize::MAX
    }

    /// `t` is the outer block `outer` cut up for a body of layout `body`: the
    /// prefix at its start, the body narrowed out of it, the suffix at its offset.
    pub open spec fn splits_outer(self, body: Layout, outer: Region, t: Affixed) -> bool {
        let a = self.placement(body)->Some_0;
        &&& t.prefix == outer.addr
        &&& t.body == a.spec_narrow(outer)
        &&& t.suffix == outer.addr + a.suffix_offset
    }

    /// `o` is an outcome of the inner allocator for `outer`, on its zeroing path
    /// when `zeroed` holds.
    pub open spec fn inner_allocates(self, outer: Layout, o: Result<Region, AllocError>, zeroed: bool) -> bool {
        if zeroed {
            self.inner.allocates_zeroed(outer, o)
        } else {
            self.inner.allocates(outer, o)
        }
    }

    /// `t` is cut from `outer`, a block that the inner allocator may give for the
    /// outer layout.
    pub open spec fn cut_from(self, body: Layout, outer: Region, t: Affixed, zeroed: bool) -> bool {
        let a = self.placement(body)->Some_0;
        &&& self.inner_allocates(a.outer, Ok(outer), zeroed)
        &&& outer.fits(a.outer)
        &&& self.splits_outer(body, outer, t)
    }

    /// The outcomes of an affixed allocation for `body`: failure when the
    /// placement overflows; otherwise the inner allocator's failure for the outer
    /// layout, or one of its blocks for it, cut up.
    pub open spec fn affix_outcome(self, body: Layout, r: Result<Affixed, AllocError>, zeroed: bool) -> bool {
        if self.placement(body) is None {
            r == Err::<Affixed, AllocError>(AllocError)
        } else if r is Err {
            self.inner_allocates(self.placement(body)->Some_0.outer, Err(AllocError), zeroed)
        } else {
            exists|outer: Region| #[trigger] self.cut_from(body, outer, r->Ok_0, zeroed)
        }
    }

    /// Allocates the outer block for a body of layout `body` and gives the
    /// addresses of its prefix, body and suffix.
    pub fn affix_allocate(&self, body: Layout) -> (r: Result<Affixed, AllocError>)
        requires
            self.wf(),
            body.valid(),
        ensures
            self.affix_outcome(body, r, false),
            self.placement(body) is None ==> r == Err::<Affixed, AllocError>(AllocError),
            r matches Ok(t) ==> self.splits(body, t),
    {
        let a = match AffixLayout::compute(self.prefix, body, self.suffix) {
            Some(a) => a,
            None => return Err(AllocError),
        };
        let o = self.inner.allocate(a.outer);
        match o {
            Ok(outer) => {
                let t = self.split(body, a, outer);
                proof {
                    assert(self.placement(body) == Some(a));
                    assert(outer.fits(a.outer));
                    assert(self.inner_allocates(a.outer, Ok(outer), false));
                    assert(self.splits_outer(body, outer, t));
                    assert(self.cut_from(body, outer, t, false));
                    assert(exists|o: Region| #[trigger] self.cut_from(body, o, t, false));
                    let rr = Ok::<Affixed, AllocError>(t);
                    assert(rr->Ok_0 == t);
                    assert(self.affix_outcome(body, rr, false) == (exists|o: Region| #[trigger] self.cut_from(body, o, t, false)));
                }
                Ok(t)
            },
            Err(e) => {
                proof {
                    assert(e == AllocError);
                    assert(self.inner_allocates(a.outer, Err(AllocError), false));
                }
                Err(AllocError)
            },
        }
    }

    /// As `affix_allocate`, with the whole outer block, and so the body, zeroed.
    pub fn affix_allocate_zeroed(&self, body: Layout) -> (r: Result<Affixed, AllocError>)
        requires
            self.wf(),
            body.valid(),
        ensures
            self.affix_outcome(body, r, true),
            self.placement(body) is None ==> r == Err::<Affixed, AllocError>(AllocError),
            r matches Ok(t) ==> self.splits(body, t),
    {
        let a = match AffixLayout::compute(self.prefix, body, self.suffix) {
            Some(a) => a,
            None => return Err(AllocError),
        };
        let o = self.inner.allocate_zeroed(a.outer);
        match o {
            Ok(outer) => {
                let t = self.split(body, a, outer);
                proof {
                    assert(self.placement(body) == Some(a));
                    assert(outer.fits(a.outer));
                    assert(self.inner_allocates(a.outer, Ok(outer), true));
                    assert(self.splits_outer(body, outer, t));
                    assert(self.cut_from(body, outer, t, true));
                    assert(exists|o: Region| #[trigger] self.cut_from(body, o, t, true));
                    let rr = Ok::<Affixed, AllocError>(t);
                    assert(rr->Ok_0 == t);
                    assert(self.affix_outcome(body, rr, true) == (exists|o: Region| #[trigger] self.cut_from(body, o, t, true)));
                }
                Ok(t)
            },
            Err(e) => {
                proof {
                    assert(e == AllocError);
                    assert(self.inner_allocates(a.outer, Err(AllocError), true));
                }
                Err(AllocError)
            },
        }
    }

    /// The prefix, body and suffix of the outer block `outer`.
    pub fn split(&self, body: Layout, a: AffixLayout, outer: Region) -> (t: Affixed)
        requires
            self.wf(),
            body.valid(),
            self.placement(body) == Some(a),
            outer.fits(a.outer),
        ensures
            self.splits_outer(body, outer, t),
            self.splits(body, t),
    {
        proof {
            AffixLayout::lemma_compute_places(self.prefix, body, self.suffix);
        }
        let b = a.narrow(outer);
        proof {
            lemma_narrow_broaden(self.prefix, body, self.suffix, outer);
            reveal(is_pow2);
            body.lemma_valid();
            self.suffix.lemma_valid();
            a.outer.lemma_valid();
            let k = outer.addr as int / a.outer.align as int;
            assert(outer.addr == k * a.outer.align) by (nonlinear_arith)
                requires
                    a.outer.align > 0,
                    outer.addr as int % a.outer.align as int == 0,
                    k == outer.addr as int / a.outer.align as int,
            ;
            let m = a.outer.align as int / body.align as int;
            assert(a.outer.align == m * body.align) by (nonlinear_arith)
                requires
                    body.align > 0,
                    a.outer.align as int % body.align as int == 0,
                    m == a.outer.align as int / body.align as int,
            ;
            let j = a.body_offset as int / body.align as int;
            assert(a.body_offset == j * body.align) by (nonlinear_arith)
                requires
                    body.align > 0,
                    a.body_offset as int % body.align as int == 0,
                    j == a.body_offset as int / body.align as int,
            ;
            assert(outer.addr + a.body_offset == (k * m + j) * body.align) by (nonlinear_arith)
                requires
                    outer.addr == k * a.outer.align,
                    a.outer.align == m * body.align,
                    a.body_offset == j * body.align,
            ;
            vstd::arithmetic::div_mod::lemma_mod_multiples_basic(k * m + j, body.align as int);
            let n = a.outer.align as int / self.suffix.align as int;
            if self.suffix.align <= a.outer.align {
                lemma_aligned_to_smaller(
                    a.outer.align as int,
                    self.suffix.align as int,
                    a.outer.align as int,
                );
                assert(a.outer.align == n * self.suffix.align) by (nonlinear_arith)
                    requires
                        self.suffix.align > 0,
                        a.outer.align as int % self.suffix.align as int == 0,
                        n == a.outer.align as int / self.suffix.align as int,
                ;
                let i = a.suffix_offset as int / self.suffix.align as int;
                assert(a.suffix_offset == i * self.suffix.align) by (nonlinear_arith)
                    requires
                        self.suffix.align > 0,
                        a.suffix_offset as int % self.suffix.align as int == 0,
                        i == a.suffix_offset as int / self.suffix.align as int,
                ;
                assert(outer.addr + a.suffix_offset == (k * n + i) * self.suffix.align)
                    by (nonlinear_arith)
                    requires
                        outer.addr == k * a.outer.align,
                        a.outer.align == n * self.suffix.align,
                        a.suffix_offset == i * self.suffix.align,
                ;
                vstd::arithmetic::div_mod::lemma_mod_multiples_basic(
                    k * n + i,
                    self.suffix.align as int,
                );
            }
        }
        let (prefix, suffix) = a.broaden(b.addr);
        Affixed { prefix, body: b, suffix }
    }
}

/// The prefix and suffix found again from a body address and its layout alone
/// are those that the allocation handed out.
pub proof fn lemma_get_after_allocate<A: Allocator>(affix: Affix<A>, body: Layout, t: Affixed)
    requires
        affix.wf(),
        body.valid(),
        affix.splits(body, t),
    ensures
        affix.spec_get(t.body.addr, body) == Some((t.prefix, t.suffix)),
{
    AffixLayout::lemma_compute_places(affix.prefix, body, affix.suffix);
}

impl<A: Allocator> Allocator for Affix<A> {
    /// Failure when the affix layouts are not valid; otherwise the body of an
    /// outcome of `affix_allocate`.
    open spec fn allocates(&self, layout: Layout, r: Result<Region, AllocError>) -> bool {
        if !self.wf() {
            r == Err::<Region, AllocError>(AllocError)
        } else {
            match r {
                Err(_) => self.affix_outcome(layout, Err(AllocError), false),
                Ok(b) => exists|t: Affixed|
                    #![trigger self.affix_outcome(layout, Ok(t), false)]
                    self.affix_outcome(layout, Ok(t), false) && t.body == b,
            }
        }
    }

    /// As `allocates`, with the outer block taken from the zeroing path.
    open spec fn allocates_zeroed(&self, layout: Layout, r: Result<Region, AllocError>) -> bool {
        if !self.wf() {
            r == Err::<Region, AllocError>(AllocError)
        } else {
            match r {
                Err(_) => self.affix_outcome(layout, Err(AllocError), true),
                Ok(b) => exists|t: Affixed|
                    #![trigger self.affix_outcome(layout, Ok(t), true)]
                    self.affix_outcome(layout, Ok(t), true) && t.body == b,
            }
        }
    }

    /// The body of a fresh outer block.
    fn allocate(&self, layout: Layout) -> (r: Result<Region, AllocError>) {
        if !(self.prefix.is_valid() && self.suffix.is_valid()) {
            return Err(AllocError);
        }
        match self.affix_allocate(layout) {
            Ok(t) => Ok(t.body),
            Err(e) => Err(e),
        }
    }

    fn allocate_zeroed(&self, layout: Layout) -> (r: Result<Region, AllocError>) {
        if !(self.prefix.is_valid() && self.suffix.is_valid()) {
            return Err(AllocError);
        }
        match self.affix_allocate_zeroed(layout) {
            Ok(t) => Ok(t.body),
            Err(e) => Err(e),
        }
    }

    /// Gives the whole outer block, found again from the body and its layout,
    /// back to the inner allocator.
    fn deallocate(&self, addr: usize, layout: Layout) {
        if !(self.prefix.is_valid() && self.suffix.is_valid()) {
            return;
        }
        if let Some(a) = AffixLayout::compute(self.prefix, layout, self.suffix) {
            if addr >= a.body_offset && addr - a.body_offset <= usize::MAX - a.suffix_offset {
                let (start, _) = a.broaden(addr);
                self.inner.deallocate(start, a.outer);
            }
        }
    }
}

impl<A: Owns> Owns for Affix<A> {
    /// What the inner allocator says of the start of the outer block, found from
    /// `addr` as if it were a body this allocator handed out, with the outer
    /// layout; the answer is only meaningful for such an address. A block that
    /// cannot lie in this allocator's blocks is not owned.
    open spec fn spec_owns(&self, addr: usize, layout: Layout) -> bool {
        &&& self.wf()
        &&& layout.valid()
        &&& self.spec_get(addr, layout) matches Some((start, _))
        &&& self.inner.spec_owns(start, self.placement(layout)->Some_0.outer)
    }

    fn owns(&self, addr: usize, layout: Layout) -> (r: bool) {
        if !(self.prefix.is_valid() && self.suffix.is_valid() && layout.is_valid()) {
            return false;
        }
        match AffixLayout::compute(self.prefix, layout, self.suffix) {
            Some(a) => {
                if addr >= a.body_offset && addr - a.body_offset <= usize::MAX - a.suffix_offset {
                    let (start, _) = a.broaden(addr);
                    self.inner.owns(start, a.outer)
                } else {
                    false
                }
            },
            None => false,
        }
    }
}

} // verus!
