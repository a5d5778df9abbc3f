use crate::capability::{AllocError, Region};
use crate::layout::{lemma_aligned_to_smaller, max_usize, Layout};
use vstd::arithmetic::power2::is_pow2;
use vstd::prelude::*;

verus! {

/// The alignment to request from a `posix_memalign`-style heap for `layout`: the
/// layout's own, raised to at least the size of a pointer as that call demands.
pub open spec fn spec_memalign_alignment(layout: Layout) -> usize {
    max_usize(layout.align, vstd::layout::size_of::<usize>() as usize)
}

/// Computes the alignment to request for `layout`: a power of two, a multiple of
/// the size of a pointer and of the layout's alignment.
pub fn memalign_alignment(layout: Layout) -> (r: usize)
    requires
        layout.valid(),
    ensures
        r == spec_memalign_alignment(layout),
        is_pow2(r as int),
        r as int % vstd::layout::size_of::<usize>() as int == 0,
        r as int % layout.align as int == 0,
{
    vstd::layout::layout_for_type_is_valid::<usize>();
    let word = core::mem::size_of::<usize>();
    proof {
        vstd::layout::usize_size_pow2();
        reveal(is_pow2);
        vstd::arithmetic::div_mod::lemma_mod_self_0(word as int);
        vstd::arithmetic::div_mod::lemma_mod_self_0(layout.align as int);
        if layout.align >= word {
            lemma_aligned_to_smaller(layout.align as int, word as int, layout.align as int);
        } else {
            lemma_aligned_to_smaller(word as int, layout.align as int, word as int);
        }
    }
    if layout.align >= word {
        layout.align
    } else {
        word
    }
}

/// The block that a `posix_memalign`-style call gave for `layout`: it reports
/// success with status 0 and a non-null address; anything else is a failure.
pub fn memalign_outcome(status: i32, addr: usize, layout: Layout) -> (r: Result<Region, AllocError>)
    ensures
        r == (if status == 0 && addr != 0 {
            Ok(Region { addr, len: layout.size })
        } else {
            Err(AllocError)
        }),
{
    if status == 0 && addr != 0 {
        Ok(Region { addr, len: layout.size })
    } else {
        Err(AllocError)
    }
}

/// The block that an allocation call returning an address gave for `layout`:
/// the null address is a failure.
pub fn address_outcome(addr: usize, layout: Layout) -> (r: Result<Region, AllocError>)
    ensures
        r == (if addr != 0 {
            Ok(Region { addr, len: layout.size })
        } else {
            Err(AllocError)
        }),
{
    memalign_outcome(0, addr, layout)
}

} // verus!
