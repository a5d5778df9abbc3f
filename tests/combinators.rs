use alloc_compose::limit::budget_step;
use alloc_compose::{
    Affix, AllocError, Allocator, AllocatorExt, BudgetOp, Corruption, CountLimit, Layout, Null,
    Or, Owns, Region, Resize, SizeLimit,
};
use std::sync::atomic::{AtomicUsize, Ordering};

const BASE: usize = 0x10000;

/// A heap that hands out fresh aligned addresses, never reuses them, and counts
/// what it is asked to do.
struct Counting {
    next: AtomicUsize,
    plain: AtomicUsize,
    zeroed: AtomicUsize,
    freed: AtomicUsize,
    last_freed: AtomicUsize,
}

impl Counting {
    fn new() -> Counting {
        Counting {
            next: AtomicUsize::new(BASE),
            plain: AtomicUsize::new(0),
            zeroed: AtomicUsize::new(0),
            freed: AtomicUsize::new(0),
            last_freed: AtomicUsize::new(0),
        }
    }

    fn bump(&self, layout: Layout) -> Result<Region, AllocError> {
        let mut addr = 0;
        self.next
            .fetch_update(Ordering::SeqCst, Ordering::SeqCst, |n| {
                addr = (n + layout.align - 1) / layout.align * layout.align;
                Some(addr + layout.size.max(1))
            })
            .unwrap();
        Ok(Region { addr, len: layout.size })
    }

    fn count(&self, c: &AtomicUsize) -> usize {
        c.load(Ordering::SeqCst)
    }
}

impl Allocator for Counting {
    fn allocate(&self, layout: Layout) -> Result<Region, AllocError> {
        self.plain.fetch_add(1, Ordering::SeqCst);
        self.bump(layout)
    }

    fn allocate_zeroed(&self, layout: Layout) -> Result<Region, AllocError> {
        self.zeroed.fetch_add(1, Ordering::SeqCst);
        self.bump(layout)
    }

    fn deallocate(&self, addr: usize, _: Layout) {
        self.freed.fetch_add(1, Ordering::SeqCst);
        self.last_freed.store(addr, Ordering::SeqCst);
    }
}

impl Resize for Counting {
    fn grow(&self, addr: usize, _: Layout, new: Layout) -> Result<Region, AllocError> {
        self.last_freed.store(addr, Ordering::SeqCst);
        self.allocate(new)
    }

    fn grow_zeroed(&self, addr: usize, _: Layout, new: Layout) -> Result<Region, AllocError> {
        self.last_freed.store(addr, Ordering::SeqCst);
        self.allocate_zeroed(new)
    }

    fn shrink(&self, addr: usize, _: Layout, new: Layout) -> Result<Region, AllocError> {
        self.last_freed.store(addr, Ordering::SeqCst);
        Ok(Region { addr, len: new.size })
    }
}

impl Owns for Counting {
    fn spec_owns(&self, addr: usize, layout: Layout) -> bool {
        self.owns(addr, layout)
    }

    fn owns(&self, addr: usize, _: Layout) -> bool {
        addr >= BASE && addr < self.next.load(Ordering::SeqCst)
    }
}

fn layout(size: usize, align: usize) -> Layout {
    Layout::from_size_align(size, align).unwrap()
}

#[test]
fn should_fail() {
    assert_eq!(Null.allocate(Layout::new::<i32>()), Err(AllocError));
    assert_eq!(Null.allocate_zeroed(Layout::new::<i32>()), Err(AllocError));
    assert!(!Null.owns(BASE, Layout::new::<i32>()));
}

#[test]
fn test() {
    assert_eq!(Null.or(Null).allocate(Layout::new::<i32>()), Err(AllocError));
    let a = Null.or(Counting::new());
    let b = a.allocate(Layout::new::<i32>()).unwrap();
    assert_eq!(a.fallback.count(&a.fallback.plain), 1);
    assert!(!a.primary.owns(b.addr, Layout::new::<i32>()));
    a.deallocate(b.addr, Layout::new::<i32>());
    assert_eq!(a.fallback.count(&a.fallback.freed), 1);
    assert_eq!(a.fallback.count(&a.fallback.last_freed), b.addr);
}

#[test]
fn or_prefers_primary_and_routes_by_owner() {
    let a = Or { primary: Counting::new(), fallback: Counting::new() };
    let b = a.allocate(layout(8, 8)).unwrap();
    assert_eq!(a.primary.count(&a.primary.plain), 1);
    assert_eq!(a.fallback.count(&a.fallback.plain), 0);
    a.deallocate(b.addr, layout(8, 8));
    assert_eq!(a.primary.count(&a.primary.freed), 1);
    a.deallocate(1, layout(8, 8));
    assert_eq!(a.fallback.count(&a.fallback.freed), 1);
    assert!(a.owns(b.addr, layout(8, 8)));
    assert!(!a.owns(1, layout(8, 8)));
}

#[test]
fn guard() {
    let g = Counting::new().zero().guard(vec![0xFF_u8; 3], vec![0xEE_u8; 3]);
    let l = Layout::new::<i32>();
    let t = g.allocate(l).unwrap();
    assert_eq!(t.body.addr % 4, 0);
    assert_eq!(t.body.addr - t.prefix, 4);
    assert_eq!(t.suffix - t.body.addr, 4);
    assert_eq!(g.locate(t.body.addr, l), Some((t.prefix, t.suffix)));
    assert_eq!(g.inner.inner.inner.count(&g.inner.inner.inner.zeroed), 1);

    assert_eq!(g.deallocate(t.body.addr, l, &[0xFF, 0xFF, 0x00], &[0xEE; 3]), Err(Corruption::Prefix));
    assert_eq!(g.deallocate(t.body.addr, l, &[0xFF; 3], &[0xEE, 0xEF, 0xEE]), Err(Corruption::Suffix));
    assert_eq!(g.inner.inner.inner.count(&g.inner.inner.inner.freed), 0);
    assert_eq!(g.deallocate(t.body.addr, l, &[0xFF; 3], &[0xEE; 3]), Ok(()));
    assert_eq!(g.inner.inner.inner.count(&g.inner.inner.inner.freed), 1);
    assert_eq!(g.inner.inner.inner.count(&g.inner.inner.inner.last_freed), t.prefix);
}

#[test]
fn guard_check_compares_whole_sentinels() {
    let g = Counting::new().guard(vec![1, 2], vec![3]);
    assert_eq!(g.check(&[1, 2], &[3]), Ok(()));
    assert_eq!(g.check(&[1], &[3]), Err(Corruption::Prefix));
    assert_eq!(g.check(&[1, 2], &[]), Err(Corruption::Suffix));
    assert_eq!(g.check(&[9, 9], &[9]), Err(Corruption::Prefix));
}

#[test]
fn affix_hands_out_body_and_frees_outer() {
    let a = Affix::of_types::<u64, u32>(Counting::new());
    let l = layout(10, 2);
    let t = a.affix_allocate(l).unwrap();
    assert_eq!(t.prefix % 8, 0);
    assert_eq!(t.body.addr, t.prefix + 8);
    assert_eq!(t.body.len, 12);
    assert_eq!(t.suffix, t.prefix + 20);
    assert_eq!(a.affix_get(t.body.addr, l), Some((t.prefix, t.suffix)));
    assert!(a.owns(t.body.addr, l));
    a.deallocate(t.body.addr, l);
    assert_eq!(a.inner.count(&a.inner.last_freed), t.prefix);
    let body = a.allocate(l).unwrap();
    assert_eq!(body.addr % 2, 0);
}

#[test]
fn affix_overflow_fails_without_asking_inner() {
    let a = Affix::of_types::<u64, u64>(Counting::new());
    assert_eq!(a.allocate(layout(isize::MAX as usize - 7, 8)), Err(AllocError));
    assert_eq!(a.inner.count(&a.inner.plain), 0);
}

#[test]
fn limit() {
    let a = Counting::new().limit_size(1);
    let occupied = a.allocate(layout(1, 1)).unwrap();
    assert_eq!(a.allocate(layout(1, 1)), Err(AllocError));
    a.deallocate(occupied.addr, layout(1, 1));
    assert!(a.allocate(layout(1, 1)).is_ok());
}

#[test]
fn size_limit_tracks_budget() {
    let a = SizeLimit::new(Counting::new(), 10);
    let b = a.allocate(layout(4, 4)).unwrap();
    assert_eq!(a.remaining(), 6);
    assert_eq!(a.allocate(layout(7, 1)), Err(AllocError));
    assert_eq!(a.remaining(), 6);
    assert_eq!(a.inner.count(&a.inner.plain), 1);
    let c = a.allocate_zeroed(layout(6, 2)).unwrap();
    assert_eq!(a.remaining(), 0);
    a.deallocate(b.addr, layout(4, 4));
    assert_eq!(a.remaining(), 4);
    a.deallocate(c.addr, layout(6, 2));
    assert_eq!(a.remaining(), 10);
    assert!(a.allocate(layout(0, 1)).is_ok());
    assert_eq!(a.remaining(), 10);
}

#[test]
fn count() {
    let a = Counting::new().limit_count(1);
    let occupied = a.allocate(Layout::new::<i32>()).unwrap();
    assert_eq!(a.allocate(Layout::new::<i32>()), Err(AllocError));
    a.deallocate(occupied.addr, Layout::new::<i32>());
    assert!(a.allocate(Layout::new::<i32>()).is_ok());
}

#[test]
fn count_limit_tracks_blocks() {
    let a = CountLimit::new(Counting::new(), 2);
    let b = a.allocate(layout(100, 1)).unwrap();
    assert_eq!(a.remaining(), 1);
    let _c = a.allocate(layout(0, 1)).unwrap();
    assert_eq!(a.remaining(), 0);
    assert_eq!(a.take(), Err(0));
    a.deallocate(b.addr, layout(100, 1));
    assert_eq!(a.remaining(), 1);
}

#[test]
fn zero_always_takes_zeroed_path() {
    let z = Counting::new().zero();
    z.allocate(layout(0, 1)).unwrap();
    z.allocate(layout(1, 1)).unwrap();
    z.allocate_zeroed(layout(3 * 4096, 4096)).unwrap();
    assert_eq!(z.inner.count(&z.inner.zeroed), 3);
    assert_eq!(z.inner.count(&z.inner.plain), 0);
}

#[test]
fn budget_step_values() {
    assert_eq!(budget_step(BudgetOp::Take, 10, 4), Some(6));
    assert_eq!(budget_step(BudgetOp::Take, 3, 4), None);
    assert_eq!(budget_step(BudgetOp::Take, 4, 4), Some(0));
    assert_eq!(budget_step(BudgetOp::Give, 6, 4), Some(10));
    assert_eq!(budget_step(BudgetOp::Give, usize::MAX, 1), None);
}

#[test]
fn budget_stays_within_limit_under_interleaving() {
    let limit = 64;
    let a = SizeLimit::new(Counting::new(), limit);
    let c = CountLimit::new(Counting::new(), 5);
    let mut held: Vec<(Region, Layout)> = Vec::new();
    let mut counted: Vec<(Region, Layout)> = Vec::new();
    let mut seed: usize = 12345;
    for _ in 0..4000 {
        seed = seed.wrapping_mul(6364136223846793005).wrapping_add(1442695040888963407);
        let l = layout(1 + (seed >> 33) % 20, 1);
        let pick = (seed >> 20) % 4;
        if pick < 2 {
            let before = a.remaining();
            match a.allocate(l) {
                Ok(b) => {
                    assert_eq!(a.remaining(), before - l.size);
                    held.push((b, l));
                }
                Err(_) => assert_eq!(a.remaining(), before),
            }
            if let Ok(b) = c.allocate(l) {
                counted.push((b, l));
            }
        } else {
            if !held.is_empty() {
                let (b, l) = held.remove((seed >> 40) % held.len());
                a.deallocate(b.addr, l);
            }
            if !counted.is_empty() {
                let (b, l) = counted.remove((seed >> 40) % counted.len());
                c.deallocate(b.addr, l);
            }
        }
        let outstanding: usize = held.iter().map(|(_, l)| l.size).sum();
        assert_eq!(a.remaining() + outstanding, limit);
        assert_eq!(c.remaining() + counted.len(), 5);
    }
}

#[test]
fn or_routes_resizing_by_owner() {
    let a = Or { primary: Counting::new(), fallback: Counting::new() };
    let b = a.allocate(layout(8, 8)).unwrap();
    let g = a.grow(b.addr, layout(8, 8), layout(32, 8)).unwrap();
    assert_eq!(g.len, 32);
    assert_eq!(a.primary.count(&a.primary.last_freed), b.addr);
    assert_eq!(a.primary.count(&a.primary.plain), 2);
    a.grow_zeroed(7, layout(8, 8), layout(16, 8)).unwrap();
    assert_eq!(a.fallback.count(&a.fallback.zeroed), 1);
    assert_eq!(a.fallback.count(&a.fallback.last_freed), 7);
    let s = a.shrink(g.addr, layout(32, 8), layout(4, 8)).unwrap();
    assert_eq!(s, Region { addr: g.addr, len: 4 });
}

#[test]
fn zero_passes_resizing_through() {
    let z = Counting::new().zero();
    let b = z.allocate(layout(8, 8)).unwrap();
    z.grow(b.addr, layout(8, 8), layout(16, 8)).unwrap();
    assert_eq!(z.inner.count(&z.inner.plain), 1);
    z.grow_zeroed(b.addr, layout(8, 8), layout(16, 8)).unwrap();
    assert_eq!(z.inner.count(&z.inner.zeroed), 2);
    assert_eq!(z.shrink(b.addr, layout(8, 8), layout(2, 8)), Ok(Region { addr: b.addr, len: 2 }));
    z.deallocate(b.addr, layout(2, 8));
    assert_eq!(z.inner.count(&z.inner.freed), 1);
}

#[test]
fn affix_zeroed_takes_zeroed_outer_block() {
    let a = Affix::new(Counting::new(), layout(3, 1), layout(3, 1));
    let b = a.allocate_zeroed(layout(8, 8)).unwrap();
    assert_eq!(b.len, 8);
    assert_eq!(b.addr % 8, 0);
    assert_eq!(a.inner.count(&a.inner.zeroed), 1);
    assert_eq!(a.inner.count(&a.inner.plain), 0);
    assert_eq!(a.affix_get(b.addr, layout(8, 8)), Some((b.addr - 8, b.addr + 8)));
    assert_eq!(a.affix_get(3, layout(8, 8)), None);
    assert!(!a.owns(3, layout(8, 8)));
}

#[test]
fn limits_decide_on_the_budget_step() {
    let a = SizeLimit::new(Counting::new(), 8);
    assert_eq!(a.allocate_after(Err(3), layout(4, 1), false), Err(AllocError));
    assert_eq!(a.inner.count(&a.inner.plain), 0);
    assert!(a.allocate_after(Ok(8), layout(4, 1), true).is_ok());
    assert_eq!(a.inner.count(&a.inner.zeroed), 1);
    let c = CountLimit::new(Counting::new(), 1);
    assert_eq!(c.allocate_after(Err(0), layout(4, 1), false), Err(AllocError));
    assert!(c.allocate_after(Ok(1), layout(4, 1), false).is_ok());
    assert_eq!(c.inner.count(&c.inner.plain), 1);
}

#[test]
fn or_route_follows_primary_owner() {
    let a = Or { primary: Counting::new(), fallback: Counting::new() };
    let b = a.allocate(layout(8, 8)).unwrap();
    assert!(a.route(b.addr, layout(8, 8)));
    assert!(!a.route(3, layout(8, 8)));
    assert!(!Null.or(Counting::new()).route(BASE, layout(8, 8)));
}

#[test]
fn affix_split_cuts_outer_block() {
    let a = Affix::new(Counting::new(), layout(3, 1), layout(3, 1));
    let p = alloc_compose::AffixLayout::compute(layout(3, 1), layout(8, 8), layout(3, 1)).unwrap();
    let t = a.split(layout(8, 8), p, Region { addr: 0x2000, len: 24 });
    assert_eq!(t.prefix, 0x2000);
    assert_eq!(t.body, Region { addr: 0x2008, len: 8 });
    assert_eq!(t.suffix, 0x2010);
}
