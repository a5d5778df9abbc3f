use alloc_compose::{AffixLayout, Layout, Region};

fn layout(size: usize, align: usize) -> Layout {
    Layout::from_size_align(size, align).unwrap()
}

#[test]
fn from_size_align_accepts_powers_of_two() {
    assert_eq!(Layout::from_size_align(8, 8), Some(Layout { size: 8, align: 8 }));
    assert_eq!(Layout::from_size_align(0, 1), Some(Layout { size: 0, align: 1 }));
    assert_eq!(Layout::from_size_align(8, 3), None);
    assert_eq!(Layout::from_size_align(8, 0), None);
    assert_eq!(Layout::from_size_align(isize::MAX as usize, 1).map(|l| l.size), Some(isize::MAX as usize));
    assert_eq!(Layout::from_size_align(isize::MAX as usize, 2), None);
    assert_eq!(Layout::from_size_align(isize::MAX as usize - 7, 8).map(|l| l.align), Some(8));
}

#[test]
fn layout_of_types() {
    assert_eq!(Layout::new::<u64>(), layout(8, std::mem::align_of::<u64>()));
    assert_eq!(Layout::new::<[u8; 3]>(), layout(3, 1));
    assert_eq!(Layout::new::<()>(), layout(0, 1));
}

#[test]
fn extend_and_pad() {
    let (l, off) = layout(3, 1).extend(layout(8, 8)).unwrap();
    assert_eq!(off, 8);
    assert_eq!(l, layout(16, 8));
    assert_eq!(layout(19, 8).pad_to_align(), layout(24, 8));
    assert_eq!(layout(24, 8).pad_to_align(), layout(24, 8));
    assert_eq!(layout(3, 1).padding_needed_for(1), 0);
    assert_eq!(layout(5, 8).padding_needed_for(4), 3);
    assert_eq!(layout(3, 1).padding_needed_for(16), 13);
    assert_eq!(layout(isize::MAX as usize, 1).extend(layout(1, 1)), None);
}

#[test]
fn affix_layout_places_parts() {
    let a = AffixLayout::compute(layout(3, 1), layout(8, 8), layout(3, 1)).unwrap();
    assert_eq!(a.body_offset, 8);
    assert_eq!(a.suffix_offset, 16);
    assert_eq!(a.outer, layout(24, 8));

    let b = AffixLayout::compute(layout(1, 1), layout(2, 2), layout(4, 4)).unwrap();
    assert_eq!(b.body_offset, 2);
    assert_eq!(b.suffix_offset, 4);
    assert_eq!(b.outer, layout(8, 4));
}

#[test]
fn affix_layout_from_types() {
    let a = AffixLayout::new::<[u8; 3], [u8; 3]>(layout(8, 8)).unwrap();
    assert_eq!(a, AffixLayout::compute(layout(3, 1), layout(8, 8), layout(3, 1)).unwrap());
    let e = AffixLayout::new::<(), ()>(layout(5, 1)).unwrap();
    assert_eq!((e.body_offset, e.suffix_offset, e.outer), (0, 5, layout(5, 1)));
}

#[test]
fn affix_layout_overflow_is_none() {
    let huge = layout(isize::MAX as usize - 7, 8);
    assert_eq!(AffixLayout::compute(layout(3, 1), huge, layout(3, 1)), None);
    assert_eq!(AffixLayout::compute(layout(0, 1), huge, layout(1, 1)), None);
    assert!(AffixLayout::compute(layout(0, 1), huge, layout(0, 1)).is_some());
}

#[test]
fn compute_is_deterministic() {
    for (p, b, s) in [
        (layout(3, 1), layout(8, 8), layout(3, 1)),
        (layout(16, 16), layout(1, 1), layout(8, 8)),
        (layout(0, 1), layout(0, 1), layout(0, 1)),
    ] {
        assert_eq!(AffixLayout::compute(p, b, s), AffixLayout::compute(p, b, s));
    }
}

#[test]
fn narrow_then_broaden_round_trip() {
    let a = AffixLayout::compute(layout(3, 1), layout(8, 8), layout(3, 1)).unwrap();
    let outer = Region { addr: 0x1000, len: 24 };
    let body = a.narrow(outer);
    assert_eq!(body, Region { addr: 0x1008, len: 8 });
    assert_eq!(a.broaden(body.addr), (0x1000, 0x1010));
}
