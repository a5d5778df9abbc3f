use vstd::arithmetic::power2::is_pow2;
use vstd::layout::valid_layout;
use vstd::prelude::*;

verus! {

/// The size and alignment of a block of memory.
///
/// A layout is valid when its alignment is a power of two and its size, once
/// rounded up to that alignment, still fits in `isize`.
#[derive(Debug, Clone, Copy, PartialEq, Eq, Hash, Structural)]
pub struct Layout {
    pub size: usize,
    pub align: usize,
}

/// `n` rounded up to the next multiple of `a`.
pub open spec fn align_up(n: int, a: int) -> int {
    ((n + a - 1) / a) * a
}

pub open spec fn max_usize(a: usize, b: usize) -> usize {
    if a >= b {
        a
    } else {
        b
    }
}

/// Rounding up to a positive alignment gives the least multiple that is not below `n`.
pub proof fn lemma_align_up(n: int, a: int)
    requires
        n >= 0,
        a > 0,
    ensures
        align_up(n, a) >= n,
        align_up(n, a) < n + a,
        align_up(n, a) % a == 0,
        n % a == 0 ==> align_up(n, a) == n,
{
    let q = (n + a - 1) / a;
    let r = (n + a - 1) % a;
    assert(n + a - 1 == q * a + r && 0 <= r < a) by (nonlinear_arith)
        requires
            a > 0,
            q == (n + a - 1) / a,
            r == (n + a - 1) % a,
    ;
    assert((q * a) % a == 0) by (nonlinear_arith)
        requires
            a > 0,
    ;
    if n % a == 0 {
        let k = n / a;
        assert(n == k * a) by (nonlinear_arith)
            requires
                a > 0,
                n % a == 0,
                k == n / a,
        ;
        assert(q == k) by (nonlinear_arith)
            requires
                a > 0,
                n == k * a,
                n + a - 1 == q * a + r,
                0 <= r < a,
        ;
    }
}

/// Of two powers of two, the larger is a multiple of the smaller.
pub proof fn lemma_pow2_divides(a: int, b: int)
    requires
        is_pow2(a),
        is_pow2(b),
        a <= b,
    ensures
        b % a == 0,
    decreases b,
{
    reveal(is_pow2);
    if a == 1 {
    } else {
        assert(b != 1);
        lemma_pow2_divides(a / 2, b / 2);
        let m = (b / 2) / (a / 2);
        assert(b / 2 == m * (a / 2)) by (nonlinear_arith)
            requires
                a / 2 > 0,
                (b / 2) % (a / 2) == 0,
                m == (b / 2) / (a / 2),
        ;
        assert(b == m * a) by (nonlinear_arith)
            requires
                b == 2 * (b / 2),
                a == 2 * (a / 2),
                b / 2 == m * (a / 2),
        ;
        assert((m * a) % a == 0) by (nonlinear_arith)
            requires
                a > 0,
        ;
    }
}

/// A multiple of a larger power of two is a multiple of a smaller one.
pub proof fn lemma_aligned_to_smaller(n: int, a: int, b: int)
    requires
        is_pow2(a),
        is_pow2(b),
        a <= b,
        n % b == 0,
    ensures
        n % a == 0,
{
    reveal(is_pow2);
    lemma_pow2_divides(a, b);
    let k = n / b;
    let m = b / a;
    assert(n == (k * m) * a) by (nonlinear_arith)
        requires
            a > 0,
            b > 0,
            n % b == 0,
            b % a == 0,
            k == n / b,
            m == b / a,
    ;
    assert(((k * m) * a) % a == 0) by (nonlinear_arith)
        requires
            a > 0,
    ;
}

/// `isize::MAX` leaves `align - 1` over when divided by a power of two.
proof fn lemma_isize_max_mod(align: int)
    requires
        is_pow2(align),
        align <= usize::MAX,
    ensures
        align <= isize::MAX + 1,
        isize::MAX as int % align == align - 1,
        (isize::MAX as int - (align - 1)) % align == 0,
{
    let top: int = isize::MAX as int + 1;
    vstd::arithmetic::power2::lemma2_to64();
    vstd::arithmetic::power2::lemma2_to64_rest();
    if isize::MAX as int == 0x7fffffff {
        assert(vstd::arithmetic::power2::pow2(31) == top);
        assert(vstd::arithmetic::power2::is_pow2_exists(top)) by {
            vstd::arithmetic::power2::lemma_pow2(31);
        }
    } else {
        assert(isize::MAX as int == 0x7fffffffffffffff);
        assert(vstd::arithmetic::power2::pow2(63) == top);
        assert(vstd::arithmetic::power2::is_pow2_exists(top)) by {
            vstd::arithmetic::power2::lemma_pow2(63);
        }
    }
    vstd::arithmetic::power2::is_pow2_equiv(top);
    reveal(is_pow2);
    if align > top {
        lemma_pow2_divides(top, align);
        let k = align / top;
        assert(false) by (nonlinear_arith)
            requires
                align % top == 0,
                align > top,
                top > 0,
                k == align / top,
                align <= usize::MAX,
                usize::MAX == 2 * top - 1,
        {
            assert(align == k * top);
            assert(k >= 2);
        }
    }
    lemma_pow2_divides(align, top);
    let k = top / align;
    assert(top == k * align && k >= 1) by (nonlinear_arith)
        requires
            top % align == 0,
            align > 0,
            k == top / align,
            top > 0,
    ;
    assert(isize::MAX as int == (k - 1) * align + (align - 1)) by (nonlinear_arith)
        requires
            top == k * align,
            isize::MAX as int == top - 1,
    ;
    vstd::arithmetic::div_mod::lemma_fundamental_div_mod_converse(
        isize::MAX as int,
        align,
        k - 1,
        align - 1,
    );
    assert(isize::MAX as int - (align - 1) == (k - 1) * align);
    vstd::arithmetic::div_mod::lemma_mod_multiples_basic(k - 1, align);
}

impl Layout {
    /// Alignment a power of two; size rounded up to it still within `isize`.
    pub open spec fn valid(self) -> bool {
        valid_layout(self.size, self.align)
    }

    /// The padding that brings `self.size` up to a multiple of `align`.
    pub open spec fn spec_padding_needed_for(self, align: usize) -> int {
        align_up(self.size as int, align as int) - self.size
    }

    /// This layout followed by `next`, placed at the first offset aligned for `next`.
    pub open spec fn spec_extend(self, next: Layout) -> Option<(Layout, usize)> {
        let offset = align_up(self.size as int, next.align as int);
        let size = offset + next.size;
        let align = max_usize(self.align, next.align);
        if size <= usize::MAX && valid_layout(size as usize, align) {
            Some((Layout { size: size as usize, align }, offset as usize))
        } else {
            None
        }
    }

    /// The layout of a value of type `T`.
    pub open spec fn spec_new<T>() -> Layout {
        Layout {
            size: vstd::layout::size_of::<T>() as usize,
            align: vstd::layout::align_of::<T>() as usize,
        }
    }

    /// This layout with its size rounded up to its alignment.
    pub open spec fn spec_pad_to_align(self) -> Layout {
        Layout { size: align_up(self.size as int, self.align as int) as usize, align: self.align }
    }

    /// Facts that every valid layout has.
    pub proof fn lemma_valid(self)
        requires
            self.valid(),
        ensures
            self.align >= 1,
            self.align <= isize::MAX + 1,
            isize::MAX as int % self.align as int == self.align - 1,
            self.size + self.align - 1 <= isize::MAX,
            align_up(self.size as int, self.align as int) <= isize::MAX - (self.align - 1),
            align_up(self.size as int, self.align as int) % self.align as int == 0,
            align_up(self.size as int, self.align as int) >= self.size,
            align_up(self.size as int, self.align as int) < self.size + self.align,
    {
        reveal(is_pow2);
        let a = self.align as int;
        lemma_isize_max_mod(a);
        lemma_align_up(self.size as int, a);
        let top = isize::MAX as int - (a - 1);
        let q = top / a;
        let up = align_up(self.size as int, a);
        let j = up / a;
        assert(up <= top) by (nonlinear_arith)
            requires
                a > 0,
                top % a == 0,
                q == top / a,
                up % a == 0,
                j == up / a,
                up < self.size + a,
                self.size <= top,
        {
            assert(top == q * a);
            assert(up == j * a);
            assert(j * a < (q + 1) * a);
            assert(j < q + 1);
            assert(j * a <= q * a);
        }
    }

    /// Builds a layout from a size and an alignment, when they make a valid one.
    pub fn from_size_align(size: usize, align: usize) -> (r: Option<Layout>)
        ensures
            r == (if valid_layout(size, align) {
                Some(Layout { size, align })
            } else {
                None
            }),
    {
        if !is_power_of_two(align) {
            return None;
        }
        proof {
            reveal(is_pow2);
            lemma_isize_max_mod(align as int);
        }
        if size > (isize::MAX as usize) - (align - 1) {
            return None;
        }
        Some(Layout { size, align })
    }

    /// Whether this layout is valid.
    pub fn is_valid(&self) -> (r: bool)
        ensures
            r == self.valid(),
    {
        Layout::from_size_align(self.size, self.align).is_some()
    }

    /// The layout of a value of type `T`.
    pub fn new<T>() -> (r: Layout)
        ensures
            r == Layout::spec_new::<T>(),
            r.valid(),
    {
        vstd::layout::layout_for_type_is_valid::<T>();
        Layout { size: core::mem::size_of::<T>(), align: core::mem::align_of::<T>() }
    }

    pub fn size(&self) -> (r: usize)
        ensures
            r == self.size,
    {
        self.size
    }

    pub fn align(&self) -> (r: usize)
        ensures
            r == self.align,
    {
        self.align
    }

    /// The padding to insert after this layout so that what follows is aligned to `align`.
    pub fn padding_needed_for(&self, align: usize) -> (r: usize)
        requires
            self.valid(),
            is_pow2(align as int),
        ensures
            r == self.spec_padding_needed_for(align),
            r < align,
    {
        proof {
            self.lemma_valid();
            reveal(is_pow2);
            lemma_isize_max_mod(align as int);
            lemma_align_up(self.size as int, align as int);
        }
        let rounded = (self.size + (align - 1)) / align * align;
        rounded - self.size
    }

    /// Places `next` after this layout; gives the combined layout and the offset of `next`.
    /// Fails when the combined layout would not be valid.
    pub fn extend(&self, next: Layout) -> (r: Option<(Layout, usize)>)
        requires
            self.valid(),
            next.valid(),
        ensures
            r == self.spec_extend(next),
    {
        proof {
            self.lemma_valid();
            next.lemma_valid();
        }
        let new_align = if self.align >= next.align {
            self.align
        } else {
            next.align
        };
        let offset = self.size + self.padding_needed_for(next.align);
        let new_size = offset + next.size;
        match Layout::from_size_align(new_size, new_align) {
            Some(l) => Some((l, offset)),
            None => None,
        }
    }

    /// This layout with its size rounded up to a multiple of its alignment.
    pub fn pad_to_align(&self) -> (r: Layout)
        requires
            self.valid(),
        ensures
            r == self.spec_pad_to_align(),
            r.valid(),
            r.size % r.align == 0,
            r.size >= self.size,
    {
        proof {
            self.lemma_valid();
            lemma_isize_max_mod(self.align as int);
        }
        let size = (self.size + (self.align - 1)) / self.align * self.align;
        Layout { size, align: self.align }
    }
}

/// Whether `n` is a power of two.
pub fn is_power_of_two(n: usize) -> (r: bool)
    ensures
        r == is_pow2(n as int),
{
    reveal(is_pow2);
    if n == 0 {
        return false;
    }
    let mut x: usize = n;
    while x % 2 == 0
        invariant
            x > 0,
            is_pow2(n as int) == is_pow2(x as int),
        decreases x,
    {
        proof {
            reveal(is_pow2);
        }
        x = x / 2;
    }
    x == 1
}

} // verus!
