use dcore::address::{PhysAddr, PhysPageNum};
use dcore::config::MEMORY_END;
use dcore::frame::{frame_range, StackFrameAllocator};

fn ppn(n: usize) -> Option<usize> {
    Some(n)
}

fn take(a: &mut StackFrameAllocator) -> Option<usize> {
    a.alloc_frame().map(|p| p.0)
}

#[test]
fn fresh_allocator_has_no_frames() {
    let mut a = StackFrameAllocator::new();
    assert_eq!(take(&mut a), None);
    assert!(!a.is_allocated(PhysPageNum(0)));
}

#[test]
fn frames_come_in_increasing_order() {
    let mut a = StackFrameAllocator::new();
    a.init(PhysPageNum(0x80235), PhysPageNum(0x80238));
    assert_eq!(take(&mut a), ppn(0x80235));
    assert_eq!(take(&mut a), ppn(0x80236));
    assert_eq!(take(&mut a), ppn(0x80237));
    assert_eq!(take(&mut a), None);
    assert_eq!(take(&mut a), None);
}

#[test]
fn empty_range_gives_nothing() {
    let mut a = StackFrameAllocator::new();
    a.init(PhysPageNum(5), PhysPageNum(5));
    assert_eq!(take(&mut a), None);
}

#[test]
fn dealloc_then_alloc_gives_the_same_frame() {
    let mut a = StackFrameAllocator::new();
    a.init(PhysPageNum(10), PhysPageNum(20));
    assert_eq!(take(&mut a), ppn(10));
    assert_eq!(take(&mut a), ppn(11));
    a.dealloc(PhysPageNum(10));
    assert_eq!(take(&mut a), ppn(10));
    assert_eq!(take(&mut a), ppn(12));
}

#[test]
fn recycled_frames_are_reused_last_in_first_out() {
    let mut a = StackFrameAllocator::new();
    a.init(PhysPageNum(10), PhysPageNum(13));
    for _ in 0..3 {
        take(&mut a);
    }
    a.dealloc(PhysPageNum(11));
    a.dealloc(PhysPageNum(10));
    a.dealloc(PhysPageNum(12));
    assert_eq!(take(&mut a), ppn(12));
    assert_eq!(take(&mut a), ppn(10));
    assert_eq!(take(&mut a), ppn(11));
    assert_eq!(take(&mut a), None);
}

#[test]
fn exhausted_allocator_serves_recycled_frames() {
    let mut a = StackFrameAllocator::new();
    a.init(PhysPageNum(1), PhysPageNum(2));
    assert_eq!(take(&mut a), ppn(1));
    assert_eq!(take(&mut a), None);
    a.dealloc(PhysPageNum(1));
    assert_eq!(take(&mut a), ppn(1));
    assert_eq!(take(&mut a), None);
}

#[test]
fn is_allocated_is_what_dealloc_accepts() {
    let mut a = StackFrameAllocator::new();
    a.init(PhysPageNum(10), PhysPageNum(20));
    assert_eq!(take(&mut a), ppn(10));
    assert!(a.is_allocated(PhysPageNum(10)));
    // not handed out yet
    assert!(!a.is_allocated(PhysPageNum(11)));
    assert!(!a.is_allocated(PhysPageNum(25)));
    // below the managed range counts as handed out
    assert!(a.is_allocated(PhysPageNum(3)));
    a.dealloc(PhysPageNum(10));
    // handed back twice is refused
    assert!(!a.is_allocated(PhysPageNum(10)));
}

#[test]
fn alloc_then_dealloc_keeps_the_allocated_frames() {
    let mut a = StackFrameAllocator::new();
    a.init(PhysPageNum(10), PhysPageNum(12));
    assert_eq!(take(&mut a), ppn(10));
    let p = a.alloc_frame().unwrap();
    assert_eq!(p.0, 11);
    a.dealloc(p);
    for n in 0..20 {
        assert_eq!(a.is_allocated(PhysPageNum(n)), n < 10 || n == 10);
    }
    // the number of free frames is back to one
    assert_eq!(take(&mut a), ppn(11));
    assert_eq!(take(&mut a), None);
}

#[test]
fn init_keeps_recycled_frames() {
    let mut a = StackFrameAllocator::new();
    a.init(PhysPageNum(2), PhysPageNum(4));
    assert_eq!(take(&mut a), ppn(2));
    a.dealloc(PhysPageNum(2));
    a.init(PhysPageNum(8), PhysPageNum(9));
    assert_eq!(take(&mut a), ppn(2));
    assert_eq!(take(&mut a), ppn(8));
    assert_eq!(take(&mut a), None);
}

#[test]
fn floor_and_ceil_of_addresses() {
    assert_eq!(PhysAddr(0).floor().0, 0);
    assert_eq!(PhysAddr(0).ceil().0, 0);
    assert_eq!(PhysAddr(1).ceil().0, 1);
    assert_eq!(PhysAddr(4095).floor().0, 0);
    assert_eq!(PhysAddr(4096).floor().0, 1);
    assert_eq!(PhysAddr(4096).ceil().0, 1);
    assert_eq!(PhysAddr(4097).floor().0, 1);
    assert_eq!(PhysAddr(4097).ceil().0, 2);
    assert_eq!(PhysAddr(usize::MAX).ceil().0, usize::MAX / 4096 + 1);
}

#[test]
fn frame_range_runs_from_kernel_end_to_memory_end() {
    let (begin, end) = frame_range(0x8023_4567);
    assert_eq!(begin.0, 0x80235);
    assert_eq!(end.0, 0x80800);
    assert_eq!(end.0, MEMORY_END / 4096);
    let (begin, _) = frame_range(0x8023_4000);
    assert_eq!(begin.0, 0x80234);
}

#[test]
fn boot_frames_lie_between_kernel_and_memory_end() {
    let kernel_end = 0x807f_d123;
    let (begin, end) = frame_range(kernel_end);
    let mut a = StackFrameAllocator::new();
    a.init(begin, end);
    let mut count = 0;
    while let Some(p) = a.alloc_frame() {
        assert!(p.0 * 4096 >= kernel_end);
        assert!((p.0 + 1) * 4096 <= MEMORY_END);
        count += 1;
    }
    assert_eq!(count, 2);
}

#[test]
fn init_takes_any_range() {
    // a range that ends below its start is taken as given
    let mut a = StackFrameAllocator::new();
    a.init(PhysPageNum(5), PhysPageNum(3));
    assert_eq!(take(&mut a), ppn(5));
    assert_eq!(take(&mut a), ppn(6));
    // recycled frames above the new start are kept
    let mut b = StackFrameAllocator::new();
    b.init(PhysPageNum(10), PhysPageNum(12));
    assert_eq!(take(&mut b), ppn(10));
    assert_eq!(take(&mut b), ppn(11));
    b.dealloc(PhysPageNum(11));
    b.init(PhysPageNum(4), PhysPageNum(6));
    assert!(!b.is_allocated(PhysPageNum(11)));
    assert_eq!(take(&mut b), ppn(11));
    assert_eq!(take(&mut b), ppn(4));
    assert_eq!(take(&mut b), ppn(5));
    assert_eq!(take(&mut b), None);
}

#[test]
fn frame_addresses_are_page_multiples() {
    assert_eq!(PhysPageNum(0).addr().0, 0);
    assert_eq!(PhysPageNum(0x80235).addr().0, 0x8023_5000);
    assert_eq!(PhysPageNum(usize::MAX / 4096).addr().0, usize::MAX - 4095);
}

#[test]
fn alloc_overflows_only_for_the_last_frame_number() {
    let mut a = StackFrameAllocator::new();
    assert!(!a.alloc_overflows());
    a.init(PhysPageNum(usize::MAX), PhysPageNum(3));
    assert!(a.alloc_overflows());
    a.init(PhysPageNum(usize::MAX), PhysPageNum(usize::MAX));
    assert!(!a.alloc_overflows());
    a.init(PhysPageNum(usize::MAX - 1), PhysPageNum(usize::MAX));
    assert!(!a.alloc_overflows());
    assert_eq!(take(&mut a), ppn(usize::MAX - 1));
    assert!(!a.alloc_overflows());
}

#[test]
fn reused_boot_frames_stay_between_kernel_and_memory_end() {
    let kernel_end = 0x807f_a123;
    let (begin, end) = frame_range(kernel_end);
    let mut a = StackFrameAllocator::new();
    a.init(begin, end);
    let first = a.alloc_frame().unwrap();
    let second = a.alloc_frame().unwrap();
    a.dealloc(first);
    a.dealloc(second);
    let mut seen = Vec::new();
    while let Some(p) = a.alloc_frame() {
        assert!(p.addr().0 >= kernel_end);
        assert!(p.addr().0 + 4096 <= MEMORY_END);
        assert!(!seen.contains(&p.0));
        seen.push(p.0);
    }
    assert_eq!(seen.len(), 5);
}
