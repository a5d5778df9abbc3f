use crate::capability::{AllocError, Allocator, Owns, Region};
use crate::layout::Layout;
use core::sync::atomic::{AtomicUsize, Ordering};
use vstd::prelude::*;

verus! {

/// A change to a budget: take an allocation's cost out, or give it back.
#[derive(Debug, Clone, Copy, PartialEq, Eq, Hash, Structural)]
pub enum BudgetOp {
    Take,
    Give,
}

/// The budget after `op` with `cost`: `None` when taking more than remains, or
/// when giving back would overflow; the budget is then left as it is.
pub open spec fn spec_budget_step(op: BudgetOp, remaining: usize, cost: usize) -> Option<usize> {
    match op {
        BudgetOp::Take => if cost <= remaining {
            Some((remaining - cost) as usize)
        } else {
            None
        },
        BudgetOp::Give => if remaining + cost <= usize::MAX {
            Some((remaining + cost) as usize)
        } else {
            None
        },
    }
}

/// Computes one budget change.
pub fn budget_step(op: BudgetOp, remaining: usize, cost: usize) -> (r: Option<usize>)
    ensures
        r == spec_budget_step(op, remaining, cost),
{
    match op {
        BudgetOp::Take => remaining.checked_sub(cost),
        BudgetOp::Give => remaining.checked_add(cost),
    }
}

/// Relies on `AtomicUsize::fetch_update`: it applies `budget_step` to the current
/// value in one atomic read-modify-write, retrying on contention, and returns
/// `Ok(previous)` when the step gave a new value, `Err(previous)` when it gave
/// `None` and the value was left unchanged.
#[verifier::external_body]
fn update_budget(counter: &AtomicUsize, op: BudgetOp, cost: usize) -> (r: Result<usize, usize>)
    ensures
        r matches Ok(prev) ==> spec_budget_step(op, prev, cost) is Some,
        r matches Err(prev) ==> spec_budget_step(op, prev, cost) is None,
{
    counter.fetch_update(Ordering::AcqRel, Ordering::Acquire, |it| budget_step(op, it, cost))
}

/// Every budget step keeps what remains plus what is handed out equal to the
/// limit: a taking step that succeeds moves `cost` from the one to the other, one
/// that fails changes nothing, and giving back what was taken never overflows.
/// Each update being one atomic step, this holds in every interleaving, so the
/// budget never drops below zero and never rises above its limit.
pub proof fn lemma_budget_conserved(
    op: BudgetOp,
    remaining: usize,
    outstanding: nat,
    limit: nat,
    cost: usize,
)
    requires
        remaining + outstanding == limit,
        limit <= usize::MAX,
        op == BudgetOp::Give ==> cost <= outstanding,
    ensures
        match spec_budget_step(op, remaining, cost) {
            Some(next) => {
                &&& next <= limit
                &&& op == BudgetOp::Take ==> next + (outstanding + cost) == limit
                &&& op == BudgetOp::Give ==> next + (outstanding - cost) == limit
            },
            None => op == BudgetOp::Take && remaining < cost,
        },
{
}

/// Lets the inner allocator hand out at most `limit` bytes at a time.
#[derive(Debug)]
pub struct SizeLimit<A> {
    pub inner: A,
    pub limit: AtomicUsize,
}

impl<A> SizeLimit<A> {
    /// Limits `inner` to `limit` bytes outstanding.
    pub fn new(inner: A, limit: usize) -> (r: SizeLimit<A>)
        ensures
            r.inner == inner,
    {
        SizeLimit { inner, limit: AtomicUsize::new(limit) }
    }

    /// The bytes that may still be handed out.
    pub fn remaining(&self) -> usize {
        self.limit.load(Ordering::Acquire)
    }

    /// Takes `cost` bytes from the budget; `Ok` with the budget before, or `Err`
    /// with a budget that was too small and is left unchanged.
    pub fn take(&self, cost: usize) -> (r: Result<usize, usize>)
        ensures
            r matches Ok(prev) ==> cost <= prev,
            r matches Err(prev) ==> prev < cost,
    {
        update_budget(&self.limit, BudgetOp::Take, cost)
    }

    /// Gives `cost` bytes back to the budget.
    pub fn give(&self, cost: usize) -> (r: Result<usize, usize>)
        ensures
            r matches Ok(prev) ==> prev + cost <= usize::MAX,
            r matches Err(prev) ==> prev + cost > usize::MAX,
    {
        update_budget(&self.limit, BudgetOp::Give, cost)
    }
}

impl<A: Allocator> SizeLimit<A> {
    /// Finishes an allocation once the budget step `took` is known: without the
    /// budget it fails and the inner allocator is not asked; with it, the result
    /// is that of the inner allocator's plain or zeroing path.
    pub fn allocate_after(&self, took: Result<usize, usize>, layout: Layout, zeroed: bool) -> (r:
        Result<Region, AllocError>)
        requires
            layout.valid(),
        ensures
            took is Err ==> r == Err::<Region, AllocError>(AllocError),
            took is Ok && !zeroed ==> self.inner.allocates(layout, r),
            took is Ok && zeroed ==> self.inner.allocates_zeroed(layout, r),
            r matches Ok(b) ==> b.fits(layout),
    {
        match took {
            Err(_) => Err(AllocError),
            Ok(_) => if zeroed {
                self.inner.allocate_zeroed(layout)
            } else {
                self.inner.allocate(layout)
            },
        }
    }
}

impl<A: Allocator> Allocator for SizeLimit<A> {
    /// A failure when the budget was short, else an outcome of the inner allocator.
    open spec fn allocates(&self, layout: Layout, r: Result<Region, AllocError>) -> bool {
        r == Err::<Region, AllocError>(AllocError) || self.inner.allocates(layout, r)
    }

    /// As `allocates`, on the zeroing path.
    open spec fn allocates_zeroed(&self, layout: Layout, r: Result<Region, AllocError>) -> bool {
        r == Err::<Region, AllocError>(AllocError) || self.inner.allocates_zeroed(layout, r)
    }

    /// Charges the bytes first; without the budget the inner allocator is not asked.
    fn allocate(&self, layout: Layout) -> (r: Result<Region, AllocError>) {
        self.allocate_after(self.take(layout.size), layout, false)
    }

    fn allocate_zeroed(&self, layout: Layout) -> (r: Result<Region, AllocError>) {
        self.allocate_after(self.take(layout.size), layout, true)
    }

    fn deallocate(&self, addr: usize, layout: Layout) {
        let _ = self.give(layout.size);
        self.inner.deallocate(addr, layout)
    }
}

impl<A: Owns> Owns for SizeLimit<A> {
    open spec fn spec_owns(&self, addr: usize, layout: Layout) -> bool {
        self.inner.spec_owns(addr, layout)
    }

    fn owns(&self, addr: usize, layout: Layout) -> (r: bool) {
        self.inner.owns(addr, layout)
    }
}

/// Lets the inner allocator hand out at most `limit` blocks at a time.
#[derive(Debug)]
pub struct CountLimit<A> {
    pub inner: A,
    pub limit: AtomicUsize,
}

impl<A> CountLimit<A> {
    /// Limits `inner` to `limit` blocks outstanding.
    pub fn new(inner: A, limit: usize) -> (r: CountLimit<A>)
        ensures
            r.inner == inner,
    {
        CountLimit { inner, limit: AtomicUsize::new(limit) }
    }

    /// The blocks that may still be handed out.
    pub fn remaining(&self) -> usize {
        self.limit.load(Ordering::Acquire)
    }

    /// Takes one block from the budget; `Ok` with the budget before, or `Err(0)`
    /// when none is left.
    pub fn take(&self) -> (r: Result<usize, usize>)
        ensures
            r matches Ok(prev) ==> 1 <= prev,
            r matches Err(prev) ==> prev == 0,
    {
        update_budget(&self.limit, BudgetOp::Take, 1)
    }

    /// Gives one block back to the budget.
    pub fn give(&self) -> (r: Result<usize, usize>)
        ensures
            r matches Ok(prev) ==> prev < usize::MAX,
            r matches Err(prev) ==> prev == usize::MAX,
    {
        update_budget(&self.limit, BudgetOp::Give, 1)
    }
}

impl<A: Allocator> CountLimit<A> {
    /// Finishes an allocation once the budget step `took` is known: without the
    /// budget it fails and the inner allocator is not asked; with it, the result
    /// is that of the inner allocator's plain or zeroing path.
    pub fn allocate_after(&self, took: Result<usize, usize>, layout: Layout, zeroed: bool) -> (r:
        Result<Region, AllocError>)
        requires
            layout.valid(),
        ensures
            took is Err ==> r == Err::<Region, AllocError>(AllocError),
            took is Ok && !zeroed ==> self.inner.allocates(layout, r),
            took is Ok && zeroed ==> self.inner.allocates_zeroed(layout, r),
            r matches Ok(b) ==> b.fits(layout),
    {
        match took {
            Err(_) => Err(AllocError),
            Ok(_) => if zeroed {
                self.inner.allocate_zeroed(layout)
            } else {
                self.inner.allocate(layout)
            },
        }
    }
}

impl<A: Allocator> Allocator for CountLimit<A> {
    /// A failure when the budget was short, else an outcome of the inner allocator.
    open spec fn allocates(&self, layout: Layout, r: Result<Region, AllocError>) -> bool {
        r == Err::<Region, AllocError>(AllocError) || self.inner.allocates(layout, r)
    }

    /// As `allocates`, on the zeroing path.
    open spec fn allocates_zeroed(&self, layout: Layout, r: Result<Region, AllocError>) -> bool {
        r == Err::<Region, AllocError>(AllocError) || self.inner.allocates_zeroed(layout, r)
    }

    /// Charges the blocks first; without the budget the inner allocator is not asked.
    fn allocate(&self, layout: Layout) -> (r: Result<Region, AllocError>) {
        self.allocate_after(self.take(), layout, false)
    }

    fn allocate_zeroed(&self, layout: Layout) -> (r: Result<Region, AllocError>) {
        self.allocate_after(self.take(), layout, true)
    }

    fn deallocate(&self, addr: usize, layout: Layout) {
        let _ = self.give();
        self.inner.deallocate(addr, layout)
    }
}

impl<A: Owns> Owns for CountLimit<A> {
    open spec fn spec_owns(&self, addr: usize, layout: Layout) -> bool {
        self.inner.spec_owns(addr, layout)
    }

    fn owns(&self, addr: usize, layout: Layout) -> (r: bool) {
        self.inner.owns(addr, layout)
    }
}

} // verus!
